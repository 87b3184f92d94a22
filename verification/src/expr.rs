//! The expressions that the generator can write.

use crate::decoded::DecodedStr;
use crate::helper::RuntimeHelper;
use vstd::prelude::*;

verus! {

/// One entry of a properties object: its key and its value.
pub type Prop<'a> = (JsExpr<'a>, JsExpr<'a>);

/// An expression of the generated language.
///
/// The set is closed, and [`crate::render::render_expr`] says for each variant
/// which bytes stand for it.
#[derive(Debug)]
pub enum JsExpr<'a> {
    /// Source text that is written as it is.
    Src(&'a str),
    /// Decoded text, written as a quoted and escaped string literal.
    StrLit(DecodedStr<'a>),
    /// An expression that an earlier stage has lowered, written as it is.
    Simple(&'a str),
    /// A reference to a runtime helper.
    Symbol(RuntimeHelper),
    /// An object literal. An entry whose key is a string literal has a static
    /// key; any other key is computed.
    Props(Vec<Prop<'a>>),
    /// Expressions written one after the other, with nothing between them.
    Compound(Vec<JsExpr<'a>>),
    /// An array literal.
    Array(Vec<JsExpr<'a>>),
    /// A call of a runtime helper.
    Call(RuntimeHelper, Vec<JsExpr<'a>>),
}

} // verus!
