//! Quoting of text as a string literal of the generated language.
//!
//! A literal is delimited by double quotes. Inside it a double quote and a
//! backslash are preceded by a backslash, the control bytes with a short escape
//! use it, every other byte below `0x20` becomes `\u00XX`, and everything else,
//! multi-byte UTF-8 sequences included, is copied unchanged.

use vstd::prelude::*;

verus! {

/// The byte `"`.
pub const QUOTE: u8 = 0x22;

/// The byte `\`.
pub const BACKSLASH: u8 = 0x5c;

/// The lower-case hexadecimal digit for a value below 16.
pub open spec fn hex_digit(v: u8) -> u8
    recommends
        v < 16,
{
    if v < 10 {
        (0x30 + v) as u8
    } else {
        (0x61 + (v - 10)) as u8
    }
}

/// What one byte of text becomes inside a string literal.
pub open spec fn escaped_byte(b: u8) -> Seq<u8> {
    if b == QUOTE {
        seq![BACKSLASH, QUOTE]
    } else if b == BACKSLASH {
        seq![BACKSLASH, BACKSLASH]
    } else if b == 0x08 {
        seq![BACKSLASH, 0x62u8]
    } else if b == 0x09 {
        seq![BACKSLASH, 0x74u8]
    } else if b == 0x0a {
        seq![BACKSLASH, 0x6eu8]
    } else if b == 0x0c {
        seq![BACKSLASH, 0x66u8]
    } else if b == 0x0d {
        seq![BACKSLASH, 0x72u8]
    } else if b < 0x20 {
        seq![BACKSLASH, 0x75u8, 0x30u8, 0x30u8, hex_digit(b / 16), hex_digit(b % 16)]
    } else {
        seq![b]
    }
}

/// The escaped form of a run of text: each byte escaped, in order.
pub open spec fn escaped(text: Seq<u8>) -> Seq<u8>
    decreases text.len(),
{
    if text.len() == 0 {
        Seq::empty()
    } else {
        escaped(text.drop_last()) + escaped_byte(text.last())
    }
}

/// The string literal that denotes `text`.
pub open spec fn quoted(text: Seq<u8>) -> Seq<u8> {
    seq![QUOTE] + escaped(text) + seq![QUOTE]
}

/// Escaping a concatenation escapes its parts.
pub proof fn lemma_escaped_concat(a: Seq<u8>, b: Seq<u8>)
    ensures
        escaped(a + b) == escaped(a) + escaped(b),
    decreases b.len(),
{
    if b.len() == 0 {
        assert(a + b =~= a);
        assert(escaped(a) + escaped(b) =~= escaped(a));
    } else {
        lemma_escaped_concat(a, b.drop_last());
        assert((a + b).drop_last() =~= a + b.drop_last());
        assert((a + b).last() == b.last());
        assert(escaped(a + b) =~= escaped(a) + escaped(b));
    }
}

/// Inside a literal no control byte stands, and a double quote stands only
/// behind a backslash.
pub proof fn lemma_escaped_is_safe(text: Seq<u8>, i: int)
    requires
        0 <= i < escaped(text).len(),
    ensures
        escaped(text)[i] >= 0x20,
        escaped(text)[i] == QUOTE ==> i > 0 && escaped(text)[i - 1] == BACKSLASH,
    decreases text.len(),
{
    if text.len() > 0 {
        let head = escaped(text.drop_last());
        let tail = escaped_byte(text.last());
        if i < head.len() {
            lemma_escaped_is_safe(text.drop_last(), i);
        } else {
            let b = text.last();
            assert(hex_digit(b / 16) >= 0x30 && hex_digit(b % 16) >= 0x30);
            assert(escaped(text)[i] == tail[i - head.len()]);
            if escaped(text)[i] == QUOTE {
                assert(b == QUOTE);
                assert(i - head.len() == 1);
                assert(escaped(text)[i - 1] == tail[0]);
            }
        }
    }
}

/// The value of a lower-case hexadecimal digit; none for any other byte.
pub open spec fn hex_value(d: u8) -> Option<u8> {
    if 0x30 <= d <= 0x39 {
        Some((d - 0x30) as u8)
    } else if 0x61 <= d <= 0x66 {
        Some((d - 0x61 + 10) as u8)
    } else {
        None
    }
}

/// The byte that a backslash and `c` stand for, where the two are a short
/// escape.
pub open spec fn short_escape(c: u8) -> Option<u8> {
    if c == QUOTE || c == BACKSLASH {
        Some(c)
    } else if c == 0x62 {
        Some(0x08u8)
    } else if c == 0x74 {
        Some(0x09u8)
    } else if c == 0x6e {
        Some(0x0au8)
    } else if c == 0x66 {
        Some(0x0cu8)
    } else if c == 0x72 {
        Some(0x0du8)
    } else {
        None
    }
}

/// `b`, then `rest`, where there is a rest.
pub open spec fn followed_by(b: u8, rest: Option<Seq<u8>>) -> Option<Seq<u8>> {
    match rest {
        Some(r) => Some(seq![b] + r),
        None => None,
    }
}

/// The text that the inside of a string literal denotes to a reader of the
/// generated language, read from the front: a backslash starts an escape, a
/// bare double quote or control byte is an error, and every other byte stands
/// for itself. None where the bytes are not the inside of a literal.
pub open spec fn unescaped(inside: Seq<u8>) -> Option<Seq<u8>>
    decreases inside.len(),
{
    if inside.len() == 0 {
        Some(Seq::empty())
    } else if inside[0] == BACKSLASH {
        if inside.len() < 2 {
            None
        } else if inside[1] == 0x75 {
            if inside.len() >= 6 && inside[2] == 0x30 && inside[3] == 0x30 && hex_value(
                inside[4],
            ) is Some && hex_value(inside[5]) is Some {
                followed_by(
                    (hex_value(inside[4])->0 * 16 + hex_value(inside[5])->0) as u8,
                    unescaped(inside.skip(6)),
                )
            } else {
                None
            }
        } else if short_escape(inside[1]) is Some {
            followed_by(short_escape(inside[1])->0, unescaped(inside.skip(2)))
        } else {
            None
        }
    } else if inside[0] == QUOTE || inside[0] < 0x20 {
        None
    } else {
        followed_by(inside[0], unescaped(inside.skip(1)))
    }
}

/// Escaping loses nothing: a reader of the escaped text reads the text.
pub proof fn lemma_unescaped_escaped(text: Seq<u8>)
    ensures
        unescaped(escaped(text)) == Some(text),
    decreases text.len(),
{
    if text.len() > 0 {
        let b = text[0];
        let rest = text.skip(1);
        let code = escaped_byte(b);
        let tail = escaped(rest);
        assert(seq![b] + rest =~= text);
        assert(escaped(seq![b]) =~= code) by {
            assert(seq![b].drop_last() =~= Seq::<u8>::empty());
            assert(escaped(Seq::<u8>::empty()) =~= Seq::<u8>::empty());
        }
        lemma_escaped_concat(seq![b], rest);
        assert(escaped(text) == code + tail);
        lemma_unescaped_escaped(rest);
        assert((code + tail).skip(code.len() as int) =~= tail);
        if b < 0x20 && b != 0x08 && b != 0x09 && b != 0x0a && b != 0x0c && b != 0x0d {
            assert(hex_value(hex_digit(b / 16)) == Some((b / 16) as u8));
            assert(hex_value(hex_digit(b % 16)) == Some((b % 16) as u8));
            assert((b / 16) * 16 + b % 16 == b);
        }
    } else {
        assert(escaped(text) =~= Seq::<u8>::empty());
    }
}

fn hex_digit_of(v: u8) -> (d: u8)
    requires
        v < 16,
    ensures
        d == hex_digit(v),
{
    if v < 10 {
        0x30 + v
    } else {
        0x61 + (v - 10)
    }
}

/// Appends the escaped form of one byte to `out`.
pub fn push_escaped_byte(out: &mut Vec<u8>, b: u8)
    ensures
        final(out)@ == old(out)@ + escaped_byte(b),
{
    if b == QUOTE || b == BACKSLASH {
        out.push(BACKSLASH);
        out.push(b);
    } else if b == 0x08 {
        out.push(BACKSLASH);
        out.push(0x62);
    } else if b == 0x09 {
        out.push(BACKSLASH);
        out.push(0x74);
    } else if b == 0x0a {
        out.push(BACKSLASH);
        out.push(0x6e);
    } else if b == 0x0c {
        out.push(BACKSLASH);
        out.push(0x66);
    } else if b == 0x0d {
        out.push(BACKSLASH);
        out.push(0x72);
    } else if b < 0x20 {
        out.push(BACKSLASH);
        out.push(0x75);
        out.push(0x30);
        out.push(0x30);
        out.push(hex_digit_of(b / 16));
        out.push(hex_digit_of(b % 16));
    } else {
        out.push(b);
    }
    assert(out@ =~= old(out)@ + escaped_byte(b));
}

/// Appends the escaped form of `text` to `out`.
pub fn push_escaped(out: &mut Vec<u8>, text: &[u8])
    ensures
        final(out)@ == old(out)@ + escaped(text@),
{
    let mut i: usize = 0;
    while i < text.len()
        invariant
            i <= text.len(),
            out@ == old(out)@ + escaped(text@.take(i as int)),
        decreases text.len() - i,
    {
        push_escaped_byte(out, text[i]);
        proof {
            assert(text@.take(i + 1).drop_last() =~= text@.take(i as int));
            assert(text@.take(i + 1).last() == text@[i as int]);
            assert(out@ =~= old(out)@ + escaped(text@.take(i + 1)));
        }
        i += 1;
    }
    assert(text@.take(i as int) =~= text@);
}

/// The string literal that denotes `text`.
pub fn quote(text: &[u8]) -> (lit: Vec<u8>)
    ensures
        lit@ == quoted(text@),
{
    let mut lit: Vec<u8> = Vec::new();
    lit.push(QUOTE);
    push_escaped(&mut lit, text);
    lit.push(QUOTE);
    assert(lit@ =~= quoted(text@));
    lit
}

} // verus!
