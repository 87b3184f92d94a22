//! What holds of everything the generator writes.

use crate::expr::JsExpr;
use crate::helper::RuntimeHelper;
use crate::ir::BaseRoot;
use crate::render::{
    bytes_of, epilogue_text, line_break, padding, prologue_text, render_comma_separated,
    render_expr, render_helper, render_joined, render_root, render_text,
};
use vstd::prelude::*;
use vstd::utf8::{encode_utf8, is_ascii_chars, is_ascii_chars_encode_utf8};

verus! {

/// The bytes of ASCII text are its characters, one byte each.
pub proof fn lemma_ascii_bytes(chars: Seq<char>)
    requires
        is_ascii_chars(chars),
    ensures
        encode_utf8(chars).len() == chars.len(),
        forall|i: int| 0 <= i < chars.len() ==> #[trigger] encode_utf8(chars)[i] == chars[i] as u8,
{
    is_ascii_chars_encode_utf8(chars);
}

/// The length of the first `n` of `exprs` when each is rendered by itself.
pub open spec fn rendered_len(exprs: Seq<JsExpr<'_>>, n: nat) -> nat
    decreases n,
{
    if n == 0 || n > exprs.len() {
        0
    } else {
        rendered_len(exprs, (n - 1) as nat) + render_expr(exprs[n - 1]).len()
    }
}

/// A list of `n` expressions joined by a separator holds the separator
/// `n - 1` times where `n > 0`, and is empty where `n == 0`: its length is that
/// of the rendered expressions plus that of `n - 1` separators.
pub proof fn lemma_joined_len(exprs: Seq<JsExpr<'_>>, n: nat, sep: Seq<u8>)
    requires
        n <= exprs.len(),
    ensures
        n == 0 ==> render_joined(exprs, n, sep) == Seq::<u8>::empty(),
        n > 0 ==> render_joined(exprs, n, sep).len() == rendered_len(exprs, n) + (n - 1) * sep.len(),
    decreases n,
{
    if n > 1 {
        lemma_joined_len(exprs, (n - 1) as nat, sep);
        assert((n - 1) * sep.len() == (n - 2) * sep.len() + sep.len()) by (nonlinear_arith);
    } else if n == 1 {
        assert(rendered_len(exprs, 0) == 0);
        assert(0 * sep.len() == 0);
    }
}

/// Where the expression of index `k` starts in a joined list: behind the `k`
/// expressions and the `k` separators before it.
pub open spec fn joined_offset(exprs: Seq<JsExpr<'_>>, k: nat, sep: Seq<u8>) -> int {
    (rendered_len(exprs, k) + k * sep.len()) as int
}

/// In a joined list every expression stands at its offset, whole, and each one
/// but the first has the separator directly before it. With the length given by
/// [`lemma_joined_len`] this leaves room for nothing else: the list is its
/// expressions with one separator between neighbours.
pub proof fn lemma_joined_layout(exprs: Seq<JsExpr<'_>>, n: nat, sep: Seq<u8>, k: nat)
    requires
        k < n <= exprs.len(),
    ensures
        joined_offset(exprs, k, sep) + render_expr(exprs[k as int]).len()
            <= render_joined(exprs, n, sep).len(),
        render_joined(exprs, n, sep).subrange(
            joined_offset(exprs, k, sep),
            joined_offset(exprs, k, sep) + render_expr(exprs[k as int]).len(),
        ) == render_expr(exprs[k as int]),
        k > 0 ==> joined_offset(exprs, k, sep) >= sep.len(),
        k > 0 ==> render_joined(exprs, n, sep).subrange(
            joined_offset(exprs, k, sep) - sep.len(),
            joined_offset(exprs, k, sep),
        ) == sep,
    decreases n,
{
    let out = render_joined(exprs, n, sep);
    let at = joined_offset(exprs, k, sep);
    let item = render_expr(exprs[k as int]);
    lemma_joined_len(exprs, n, sep);
    if n == 1 {
        assert(rendered_len(exprs, 0) == 0);
        assert(0 * sep.len() == 0);
        assert(out.subrange(0, item.len() as int) =~= item);
    } else {
        let before = render_joined(exprs, (n - 1) as nat, sep);
        lemma_joined_len(exprs, (n - 1) as nat, sep);
        assert(out == before + sep + render_expr(exprs[n - 1]));
        if k + 1 < n {
            lemma_joined_layout(exprs, (n - 1) as nat, sep, k);
            assert(out.subrange(at, at + item.len()) =~= before.subrange(
                at,
                at + item.len(),
            ));
            if k > 0 {
                assert(out.subrange(at - sep.len(), at) =~= before.subrange(
                    at - sep.len(),
                    at,
                ));
            }
        } else {
            assert(k * sep.len() == (k - 1) * sep.len() + sep.len()) by (nonlinear_arith);
            assert(at == before.len() + sep.len());
            assert(out.subrange(at, at + item.len()) =~= item);
            assert(out.subrange(at - sep.len(), at) =~= sep);
        }
    }
}

/// A comma-separated list of `n` expressions is empty where `n == 0`, and
/// otherwise holds exactly `n - 1` separators of two bytes each.
pub proof fn lemma_comma_separated(exprs: Seq<JsExpr<'_>>)
    ensures
        exprs.len() == 0 ==> render_comma_separated(exprs) == Seq::<u8>::empty(),
        exprs.len() > 0 ==> render_comma_separated(exprs).len() == rendered_len(
            exprs,
            exprs.len(),
        ) + 2 * (exprs.len() - 1),
{
    reveal_strlit(", ");
    lemma_ascii_bytes(", "@);
    lemma_joined_len(exprs, exprs.len(), bytes_of(", "));
    assert((exprs.len() - 1) * 2 == 2 * (exprs.len() - 1));
}

/// A text node of one expression is that expression, with no operator; one of
/// two is the two with the concatenation operator between them; and one of `n`
/// holds the operator, three bytes long, `n - 1` times.
pub proof fn lemma_text_concatenation(items: Seq<JsExpr<'_>>)
    ensures
        items.len() == 0 ==> render_text(items) == Seq::<u8>::empty(),
        items.len() == 1 ==> render_text(items) == render_expr(items[0]),
        items.len() == 2 ==> render_text(items) == render_expr(items[0]) + bytes_of(" + ")
            + render_expr(items[1]),
        items.len() > 0 ==> render_text(items).len()
            == rendered_len(items, items.len()) + 3 * (items.len() - 1),
{
    reveal_strlit(" + ");
    lemma_ascii_bytes(" + "@);
    lemma_joined_len(items, items.len(), bytes_of(" + "));
    assert((items.len() - 1) * 3 == 3 * (items.len() - 1));
    reveal_with_fuel(render_joined, 3);
}

/// An array literal stands between its brackets and a call's arguments between
/// its parentheses, however many items there are, none included.
pub proof fn lemma_list_is_wrapped(helper: RuntimeHelper, items: Vec<JsExpr<'_>>)
    ensures
        render_expr(JsExpr::Array(items)) == bytes_of("[") + render_comma_separated(items@)
            + bytes_of("]"),
        render_expr(JsExpr::Array(items)).first() == 0x5b,
        render_expr(JsExpr::Array(items)).last() == 0x5d,
        render_expr(JsExpr::Call(helper, items)) == render_helper(helper) + bytes_of("(")
            + render_comma_separated(items@) + bytes_of(")"),
        render_expr(JsExpr::Call(helper, items))[render_helper(helper).len() as int] == 0x28,
        render_expr(JsExpr::Call(helper, items)).last() == 0x29,
{
    reveal_strlit("[");
    reveal_strlit("]");
    reveal_strlit("(");
    reveal_strlit(")");
    lemma_ascii_bytes("["@);
    lemma_ascii_bytes("]"@);
    lemma_ascii_bytes("("@);
    lemma_ascii_bytes(")"@);
}

/// A helper is written with the marker `_` before its name exactly once: the
/// first byte is the marker, the name follows it whole, and the name does not
/// begin with the marker. This holds of a reference to the helper and of a call
/// of it alike.
pub proof fn lemma_helper_marked_once(helper: RuntimeHelper, args: Vec<JsExpr<'_>>)
    ensures
        render_helper(helper).len() == 1 + helper.name().len(),
        render_helper(helper)[0] == 0x5f,
        render_helper(helper)[1] != 0x5f,
        render_helper(helper).skip(1) == encode_utf8(helper.name()),
        render_expr(JsExpr::Symbol(helper)) == render_helper(helper),
        render_expr(JsExpr::Call(helper, args)).take(render_helper(helper).len() as int)
            == render_helper(helper),
{
    reveal_strlit("_");
    lemma_ascii_bytes("_"@);
    helper.lemma_name_shape();
    lemma_ascii_bytes(helper.name());
    assert(render_helper(helper).skip(1) =~= encode_utf8(helper.name()));
    assert(render_expr(JsExpr::Call(helper, args)).take(render_helper(helper).len() as int)
        =~= render_helper(helper));
}

/// A root with an empty body is rendered as a function that returns the empty
/// literal `null`; nothing else of the input, and nothing of the configuration,
/// enters the output.
pub proof fn lemma_empty_root(root: BaseRoot<'_>, depth: nat)
    requires
        root.body@.len() == 0,
    ensures
        render_root(root, depth) == prologue_text(depth) + bytes_of("null") + epilogue_text(
            depth + 2,
        ),
{
}

/// How often `b` stands among the first `n` of `bytes`.
pub open spec fn occurrences(bytes: Seq<u8>, n: nat, b: u8) -> nat
    decreases n,
{
    if n == 0 || n > bytes.len() {
        0
    } else {
        occurrences(bytes, (n - 1) as nat, b) + if bytes[n - 1] == b {
            1nat
        } else {
            0nat
        }
    }
}

/// How often `b` stands in `bytes`.
pub open spec fn count(bytes: Seq<u8>, b: u8) -> nat {
    occurrences(bytes, bytes.len(), b)
}

proof fn lemma_occurrences_prefix(x: Seq<u8>, y: Seq<u8>, n: nat, b: u8)
    requires
        n <= x.len(),
    ensures
        occurrences(x + y, n, b) == occurrences(x, n, b),
    decreases n,
{
    if n > 0 {
        lemma_occurrences_prefix(x, y, (n - 1) as nat, b);
    }
}

proof fn lemma_occurrences_suffix(x: Seq<u8>, y: Seq<u8>, m: nat, b: u8)
    requires
        m <= y.len(),
    ensures
        occurrences(x + y, x.len() + m, b) == count(x, b) + occurrences(y, m, b),
    decreases m,
{
    if m == 0 {
        lemma_occurrences_prefix(x, y, x.len(), b);
    } else {
        lemma_occurrences_suffix(x, y, (m - 1) as nat, b);
        assert((x + y)[x.len() + m - 1] == y[m - 1]);
    }
}

/// Counting in a concatenation is counting in its parts.
pub proof fn lemma_count_concat(x: Seq<u8>, y: Seq<u8>, b: u8)
    ensures
        count(x + y, b) == count(x, b) + count(y, b),
{
    lemma_occurrences_suffix(x, y, y.len(), b);
}

/// The byte `{`, which opens a block.
pub const OPEN: u8 = 0x7b;

/// The byte `}`, which closes a block.
pub const CLOSE: u8 = 0x7d;

proof fn lemma_pad_braces()
    ensures
        count(bytes_of("  "), OPEN) == 0,
        count(bytes_of("  "), CLOSE) == 0,
{
    reveal_strlit("  ");
    lemma_ascii_bytes("  "@);
    reveal_with_fuel(occurrences, 3);
}

proof fn lemma_line_feed_braces()
    ensures
        count(bytes_of("\n"), OPEN) == 0,
        count(bytes_of("\n"), CLOSE) == 0,
{
    reveal_strlit("\n");
    lemma_ascii_bytes("\n"@);
    reveal_with_fuel(occurrences, 2);
}

proof fn lemma_closing_brace()
    ensures
        count(bytes_of("}"), OPEN) == 0,
        count(bytes_of("}"), CLOSE) == 1,
{
    reveal_strlit("}");
    lemma_ascii_bytes("}"@);
    reveal_with_fuel(occurrences, 2);
}

/// The padding of a line holds no brace.
pub proof fn lemma_padding_has_no_brace(depth: nat)
    ensures
        count(padding(depth), OPEN) == 0,
        count(padding(depth), CLOSE) == 0,
    decreases depth,
{
    if depth > 0 {
        lemma_padding_has_no_brace((depth - 1) as nat);
        lemma_pad_braces();
        lemma_count_concat(padding((depth - 1) as nat), bytes_of("  "), OPEN);
        lemma_count_concat(padding((depth - 1) as nat), bytes_of("  "), CLOSE);
    }
}

/// The start of a line holds no brace.
pub proof fn lemma_line_break_has_no_brace(depth: nat)
    ensures
        count(line_break(depth), OPEN) == 0,
        count(line_break(depth), CLOSE) == 0,
{
    lemma_line_feed_braces();
    lemma_padding_has_no_brace(depth);
    lemma_count_concat(bytes_of("\n"), padding(depth), OPEN);
    lemma_count_concat(bytes_of("\n"), padding(depth), CLOSE);
}

/// What closes `open_blocks` blocks holds `open_blocks` closing braces and no
/// opening brace.
pub proof fn lemma_epilogue_closes(open_blocks: nat)
    ensures
        count(epilogue_text(open_blocks), CLOSE) == open_blocks,
        count(epilogue_text(open_blocks), OPEN) == 0,
    decreases open_blocks,
{
    if open_blocks > 0 {
        let rest = epilogue_text((open_blocks - 1) as nat);
        let line = line_break((open_blocks - 1) as nat);
        lemma_epilogue_closes((open_blocks - 1) as nat);
        lemma_line_break_has_no_brace((open_blocks - 1) as nat);
        lemma_closing_brace();
        lemma_count_concat(line, bytes_of("}"), CLOSE);
        lemma_count_concat(line, bytes_of("}"), OPEN);
        lemma_count_concat(line + bytes_of("}"), rest, CLOSE);
        lemma_count_concat(line + bytes_of("}"), rest, OPEN);
    }
}

proof fn lemma_signature_braces()
    ensures
        count(bytes_of("function render(_ctx, _cache) {"), OPEN) == 1,
        count(bytes_of("function render(_ctx, _cache) {"), CLOSE) == 0,
{
    reveal_strlit("function render(_ctx, _cache) {");
    lemma_ascii_bytes("function render(_ctx, _cache) {"@);
    reveal_with_fuel(occurrences, 32);
}

proof fn lemma_scope_braces()
    ensures
        count(bytes_of("with (_ctx) {"), OPEN) == 1,
        count(bytes_of("with (_ctx) {"), CLOSE) == 0,
{
    reveal_strlit("with (_ctx) {");
    lemma_ascii_bytes("with (_ctx) {"@);
    reveal_with_fuel(occurrences, 14);
}

proof fn lemma_return_braces()
    ensures
        count(bytes_of("return "), OPEN) == 0,
        count(bytes_of("return "), CLOSE) == 0,
{
    reveal_strlit("return ");
    lemma_ascii_bytes("return "@);
    reveal_with_fuel(occurrences, 8);
}

/// What opens the function holds two opening braces, one for each block that
/// it opens, and no closing brace.
pub proof fn lemma_prologue_opens(depth: nat)
    ensures
        count(prologue_text(depth), OPEN) == 2,
        count(prologue_text(depth), CLOSE) == 0,
{
    lemma_signature_braces();
    lemma_scope_braces();
    lemma_return_braces();
    lemma_line_break_has_no_brace(depth + 1);
    lemma_line_break_has_no_brace(depth + 2);
    let a = bytes_of("return ");
    let b = a + bytes_of("function render(_ctx, _cache) {");
    let c = b + line_break(depth + 1);
    let d = c + bytes_of("with (_ctx) {");
    let e = d + line_break(depth + 2);
    lemma_count_concat(a, bytes_of("function render(_ctx, _cache) {"), OPEN);
    lemma_count_concat(a, bytes_of("function render(_ctx, _cache) {"), CLOSE);
    lemma_count_concat(b, line_break(depth + 1), OPEN);
    lemma_count_concat(b, line_break(depth + 1), CLOSE);
    lemma_count_concat(c, bytes_of("with (_ctx) {"), OPEN);
    lemma_count_concat(c, bytes_of("with (_ctx) {"), CLOSE);
    lemma_count_concat(d, line_break(depth + 2), OPEN);
    lemma_count_concat(d, line_break(depth + 2), CLOSE);
    lemma_count_concat(e, bytes_of("return "), OPEN);
    lemma_count_concat(e, bytes_of("return "), CLOSE);
}

/// The structure around the returned expression is balanced: a generation that
/// starts with no block open closes as many blocks as it opens.
pub proof fn lemma_structure_balanced(depth: nat)
    ensures
        count(prologue_text(depth), OPEN) == count(epilogue_text(2), CLOSE),
        count(prologue_text(depth), CLOSE) == count(epilogue_text(2), OPEN),
{
    lemma_prologue_opens(depth);
    lemma_epilogue_closes(2);
}

} // verus!
