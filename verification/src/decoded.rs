//! Text after entity decoding.

use crate::escape::{escaped, lemma_escaped_concat, push_escaped, quoted, QUOTE};
use smallvec::SmallVec;
use std::borrow::Cow;
use vstd::prelude::*;
use vstd::utf8::encode_utf8;

verus! {

/// Text after entity decoding: one or more fragments which, read in order,
/// make up the literal text of a node.
///
/// A fragment is either a slice borrowed from the template source, where the
/// source held no entity, or an owned string that a decoder produced. The
/// fragments are kept in a small vector, so that the common case of one
/// borrowed fragment allocates nothing.
#[verifier::external_body]
#[derive(Debug)]
pub struct DecodedStr<'a>(SmallVec<[Cow<'a, str>; 1]>);

/// The fragments that a decoded text holds, in order.
pub uninterp spec fn decoded_fragments(d: DecodedStr<'_>) -> Seq<Cow<'_, str>>;

/// `SmallVec::from_buf` on a one-element array: the vector holds that element
/// and nothing else.
#[verifier::external_body]
fn single_fragment<'a>(fragment: Cow<'a, str>) -> (d: DecodedStr<'a>)
    ensures
        decoded_fragments(d) == seq![fragment],
{
    DecodedStr(SmallVec::from_buf([fragment]))
}

/// `SmallVec::push`: the element is appended after those already held.
#[verifier::external_body]
fn push_fragment<'a>(d: &mut DecodedStr<'a>, fragment: Cow<'a, str>)
    ensures
        decoded_fragments(*final(d)) == decoded_fragments(*old(d)).push(fragment),
{
    d.0.push(fragment)
}

/// `SmallVec::as_slice`: a slice of the whole vector, in order.
#[verifier::external_body]
fn fragment_slice<'b, 'a>(d: &'b DecodedStr<'a>) -> (s: &'b [Cow<'a, str>])
    ensures
        s@ == decoded_fragments(*d),
{
    d.0.as_slice()
}

/// The bytes of the text that the fragments make up: their UTF-8 encodings,
/// one after the other.
pub open spec fn decoded_text(fragments: Seq<Cow<'_, str>>) -> Seq<u8>
    decreases fragments.len(),
{
    if fragments.len() == 0 {
        Seq::empty()
    } else {
        decoded_text(fragments.drop_last()) + encode_utf8(fragments.last()@)
    }
}

impl<'a> DecodedStr<'a> {
    /// The fragments, in order.
    pub fn as_fragments(&self) -> (fragments: &[Cow<'a, str>])
        ensures
            fragments@ == decoded_fragments(*self),
    {
        fragment_slice(self)
    }

    /// Appends a fragment after those already held.
    pub fn push(&mut self, fragment: Cow<'a, str>)
        ensures
            decoded_fragments(*final(self)) == decoded_fragments(*old(self)).push(fragment),
    {
        push_fragment(self, fragment)
    }

    /// The string literal of the generated language that denotes this text.
    pub fn to_js_string(&self) -> (lit: Vec<u8>)
        ensures
            lit@ == quoted(decoded_text(decoded_fragments(*self))),
    {
        let fragments = self.as_fragments();
        let mut lit: Vec<u8> = Vec::new();
        lit.push(QUOTE);
        let mut i: usize = 0;
        while i < fragments.len()
            invariant
                i <= fragments.len(),
                lit@ == seq![QUOTE] + escaped(decoded_text(fragments@.take(i as int))),
            decreases fragments.len() - i,
        {
            let text: &str = match &fragments[i] {
                Cow::Borrowed(s) => s,
                Cow::Owned(s) => s.as_str(),
            };
            proof {
                let done = fragments@.take(i as int);
                assert(fragments@.take(i + 1).drop_last() =~= done);
                assert(fragments@.take(i + 1).last() == fragments@[i as int]);
                lemma_escaped_concat(decoded_text(done), encode_utf8(text@));
            }
            push_escaped(&mut lit, text.as_bytes());
            assert(lit@ =~= seq![QUOTE] + escaped(
                decoded_text(fragments@.take(i + 1)),
            ));
            i += 1;
        }
        assert(fragments@.take(i as int) =~= fragments@);
        lit.push(QUOTE);
        assert(lit@ =~= quoted(decoded_text(fragments@)));
        lit
    }
}

impl<'a> From<&'a str> for DecodedStr<'a> {
    /// Text that held no entity: one fragment, borrowed from the input.
    fn from(decoded: &'a str) -> (d: Self)
        ensures
            decoded_fragments(d) == seq![Cow::<'a, str>::Borrowed(decoded)],
    {
        single_fragment(Cow::Borrowed(decoded))
    }
}

/// A decoded text is known by its fragments alone, so there is no value to
/// name as the result of the conversion: what `from` returns is stated on `from`
/// itself.
impl<'a> vstd::std_specs::convert::FromSpecImpl<&'a str> for DecodedStr<'a> {
    open spec fn obeys_from_spec() -> bool {
        false
    }

    open spec fn from_spec(decoded: &'a str) -> Self {
        arbitrary()
    }
}

/// A decoder of character references, supplied by whoever builds the
/// intermediate representation.
pub trait EntityDecoder {
    /// Decodes `text`. `as_attr` is the decode mode: whether the text is the
    /// value of an attribute. Text that is not empty decodes to at least one
    /// fragment.
    fn decode<'a>(&self, text: &'a str, as_attr: bool) -> (decoded: DecodedStr<'a>)
        ensures
            text@.len() > 0 ==> decoded_fragments(decoded).len() > 0,
    ;
}

/// The decoder that decodes nothing: it hands the text on as it is.
pub struct Passthrough;

impl EntityDecoder for Passthrough {
    /// One fragment, borrowed from `text`, in either mode.
    fn decode<'a>(&self, text: &'a str, as_attr: bool) -> (decoded: DecodedStr<'a>)
        ensures
            decoded_fragments(decoded) == seq![Cow::<'a, str>::Borrowed(text)],
    {
        DecodedStr::from(text)
    }
}

} // verus!
