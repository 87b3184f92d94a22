//! What the generator writes, as functions from values to bytes.
//!
//! The contracts of the emitters in [`crate::generator`] are stated over these
//! functions: each emitter appends to the sink exactly the bytes given here.

use crate::decoded::{decoded_fragments, decoded_text};
use crate::escape::quoted;
use crate::expr::{JsExpr, Prop};
use crate::helper::RuntimeHelper;
use crate::ir::{text_items, BaseNode, BaseRoot, IRNode};
use vstd::prelude::*;
use vstd::utf8::encode_utf8;

verus! {

/// The bytes of a string: its UTF-8 encoding.
pub open spec fn bytes_of(s: &str) -> Seq<u8> {
    encode_utf8(s@)
}

/// A reference to a runtime helper: the helper marker `_`, then the helper's
/// name.
pub open spec fn render_helper(helper: RuntimeHelper) -> Seq<u8> {
    bytes_of("_") + encode_utf8(helper.name())
}

/// The bytes that stand for an expression.
pub open spec fn render_expr(expr: JsExpr<'_>) -> Seq<u8>
    decreases expr,
{
    match expr {
        JsExpr::Src(s) => bytes_of(s),
        JsExpr::StrLit(text) => quoted(decoded_text(decoded_fragments(text))),
        JsExpr::Simple(s) => bytes_of(s),
        JsExpr::Symbol(helper) => render_helper(helper),
        JsExpr::Props(props) => bytes_of("{") + render_props(props@, props@.len()) + bytes_of("}"),
        JsExpr::Compound(parts) => render_joined(parts@, parts@.len(), Seq::empty()),
        JsExpr::Array(items) => bytes_of("[") + render_joined(
            items@,
            items@.len(),
            bytes_of(", "),
        ) + bytes_of("]"),
        JsExpr::Call(helper, args) => render_helper(helper) + bytes_of("(") + render_joined(
            args@,
            args@.len(),
            bytes_of(", "),
        ) + bytes_of(")"),
    }
}

/// The first `n` of `exprs`, each rendered, with `sep` between neighbours and
/// nowhere else.
pub open spec fn render_joined(exprs: Seq<JsExpr<'_>>, n: nat, sep: Seq<u8>) -> Seq<u8>
    decreases exprs, n,
{
    if n == 0 || n > exprs.len() {
        Seq::empty()
    } else if n == 1 {
        render_expr(exprs[0])
    } else {
        render_joined(exprs, (n - 1) as nat, sep) + sep + render_expr(exprs[n - 1])
    }
}

/// One entry of an object literal: a static key is written as the string
/// literal it is, a computed key between square brackets; then a colon, a space
/// and the value.
pub open spec fn render_prop(prop: Prop<'_>) -> Seq<u8>
    decreases prop,
{
    let key = if prop.0 is StrLit {
        render_expr(prop.0)
    } else {
        bytes_of("[") + render_expr(prop.0) + bytes_of("]")
    };
    key + bytes_of(": ") + render_expr(prop.1)
}

/// The first `n` entries of an object literal, separated by a comma and a
/// space.
pub open spec fn render_props(props: Seq<Prop<'_>>, n: nat) -> Seq<u8>
    decreases props, n,
{
    if n == 0 || n > props.len() {
        Seq::empty()
    } else if n == 1 {
        render_prop(props[0])
    } else {
        render_props(props, (n - 1) as nat) + bytes_of(", ") + render_prop(props[n - 1])
    }
}

/// A list of expressions separated by a comma and a space.
pub open spec fn render_comma_separated(exprs: Seq<JsExpr<'_>>) -> Seq<u8> {
    render_joined(exprs, exprs.len(), bytes_of(", "))
}

/// The expressions of a text node, joined by the concatenation operator.
pub open spec fn render_text(items: Seq<JsExpr<'_>>) -> Seq<u8> {
    render_joined(items, items.len(), bytes_of(" + "))
}

/// The bytes that stand for a node.
///
/// A conditional is a choice expression. A loop, an element, a slot outlet, a
/// slot definition and a comment are each a call of one helper with its
/// arguments in a fixed order; a list of nodes that is handed to a helper is
/// an array, and one that is rendered on demand stands in a function without
/// parameters.
pub open spec fn render_node(node: BaseNode<'_>) -> Seq<u8>
    decreases node,
{
    match node {
        IRNode::TextCall(text) => render_text(text_items(text)),
        IRNode::If(i) => render_expr(i.condition) + bytes_of(" ? ") + render_node(*i.consequent)
            + bytes_of(" : ") + render_node(*i.alternate),
        IRNode::For(f) => render_helper(RuntimeHelper::RenderList) + bytes_of("(") + render_expr(
            f.source,
        ) + bytes_of(", (") + render_comma_separated(f.params@) + bytes_of(") => ") + render_node(
            *f.child,
        ) + bytes_of(")"),
        IRNode::VNodeCall(v) => render_helper(RuntimeHelper::CreateVNode) + bytes_of("(")
            + render_expr(v.tag) + bytes_of(", ") + render_expr(v.props) + bytes_of(", [")
            + render_nodes(v.children@, v.children@.len()) + bytes_of("], ") + render_expr(v.flags)
            + bytes_of(")"),
        IRNode::RenderSlotCall(r) => render_helper(RuntimeHelper::RenderSlot) + bytes_of("(")
            + render_expr(r.slot_name) + bytes_of(", () => [") + render_nodes(
            r.fallbacks@,
            r.fallbacks@.len(),
        ) + bytes_of("])"),
        IRNode::VSlotUse(s) => render_helper(RuntimeHelper::WithCtx) + bytes_of("(") + render_expr(
            s.slot_name,
        ) + bytes_of(", () => [") + render_nodes(s.body@, s.body@.len()) + bytes_of("])"),
        IRNode::AlterableSlot(_) => Seq::empty(),
        IRNode::CommentCall(c) => render_helper(RuntimeHelper::CreateComment) + bytes_of("(")
            + quoted(bytes_of(c)) + bytes_of(")"),
        IRNode::GenericExpression(e) => render_expr(e),
    }
}

/// The first `n` of `nodes`, each rendered, separated by a comma and a space.
pub open spec fn render_nodes(nodes: Seq<BaseNode<'_>>, n: nat) -> Seq<u8>
    decreases nodes, n,
{
    if n == 0 || n > nodes.len() {
        Seq::empty()
    } else if n == 1 {
        render_node(nodes[0])
    } else {
        render_nodes(nodes, (n - 1) as nat) + bytes_of(", ") + render_node(nodes[n - 1])
    }
}

/// The padding of a line at the given depth: two spaces for each level.
pub open spec fn padding(depth: nat) -> Seq<u8>
    decreases depth,
{
    if depth == 0 {
        Seq::empty()
    } else {
        padding((depth - 1) as nat) + bytes_of("  ")
    }
}

/// The start of a new line at the given depth: a line feed, then the padding.
pub open spec fn line_break(depth: nat) -> Seq<u8> {
    bytes_of("\n") + padding(depth)
}

/// The start of a new line at the given depth where one is asked for, and
/// nothing where none is.
pub open spec fn line_break_if(with_new_line: bool, depth: nat) -> Seq<u8> {
    if with_new_line {
        line_break(depth)
    } else {
        Seq::empty()
    }
}

/// What comes before the returned expression, written from the given depth: the
/// opening of the render function and of the block that brings the context's
/// members into scope, each followed by a line one level deeper, and the start
/// of the return statement.
pub open spec fn prologue_text(depth: nat) -> Seq<u8> {
    bytes_of("return ") + bytes_of("function render(_ctx, _cache) {") + line_break(depth + 1)
        + bytes_of("with (_ctx) {") + line_break(depth + 2) + bytes_of("return ")
}

/// What closes `open_blocks` blocks, innermost first: for each block a new line
/// one level less deep, and a closing brace.
pub open spec fn epilogue_text(open_blocks: nat) -> Seq<u8>
    decreases open_blocks,
{
    if open_blocks == 0 {
        Seq::empty()
    } else {
        line_break((open_blocks - 1) as nat) + bytes_of("}") + epilogue_text(
            (open_blocks - 1) as nat,
        )
    }
}

/// The expression that the render function returns: the empty literal for an
/// empty body, the node itself where there is one, and an array of the nodes
/// where there are several.
pub open spec fn render_body(body: Seq<BaseNode<'_>>) -> Seq<u8> {
    if body.len() == 0 {
        bytes_of("null")
    } else if body.len() == 1 {
        render_node(body[0])
    } else {
        bytes_of("[") + render_nodes(body, body.len()) + bytes_of("]")
    }
}

/// The whole output for a root, written from the given depth.
pub open spec fn render_root(root: BaseRoot<'_>, depth: nat) -> Seq<u8> {
    prologue_text(depth) + render_body(root.body@) + epilogue_text(depth + 2)
}

} // verus!
