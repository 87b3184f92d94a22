//! The intermediate representation that the generator consumes.

use crate::expr::JsExpr;
use core::marker::PhantomData;
use smallvec::SmallVec;
use vstd::prelude::*;

verus! {

/// The types that one flavour of the intermediate representation uses for its
/// leaves.
pub trait ConvertInfo {
    /// The payload of a text node.
    type TextType;

    /// The payload of a comment node.
    type CommentType;

    /// An expression of the output language.
    type JsExpression;
}

/// A conditional: one of two nodes, chosen by a condition.
pub struct IfNodeIR<T: ConvertInfo> {
    pub condition: T::JsExpression,
    pub consequent: Box<IRNode<T>>,
    pub alternate: Box<IRNode<T>>,
}

/// A loop: a node produced once for each item of a source.
pub struct ForNodeIR<T: ConvertInfo> {
    /// What is iterated over.
    pub source: T::JsExpression,
    /// The parameters that the body binds for each item.
    pub params: Vec<T::JsExpression>,
    /// What is produced for each item.
    pub child: Box<IRNode<T>>,
}

/// The construction of an element or of a component.
pub struct VNodeIR<T: ConvertInfo> {
    pub tag: T::JsExpression,
    pub props: T::JsExpression,
    pub children: Vec<IRNode<T>>,
    pub flags: T::JsExpression,
}

/// A slot outlet: the place where content handed in from outside is rendered.
pub struct RenderSlotIR<T: ConvertInfo> {
    pub slot_name: T::JsExpression,
    /// What is rendered where no content is handed in.
    pub fallbacks: Vec<IRNode<T>>,
}

/// A slot definition: content to be rendered at the outlet of that name.
pub struct VSlotIR<T: ConvertInfo> {
    pub slot_name: T::JsExpression,
    pub body: Vec<IRNode<T>>,
}

/// A node of the intermediate representation.
pub enum IRNode<T: ConvertInfo> {
    /// Text, or an interpolation.
    TextCall(T::TextType),
    /// A conditional.
    If(IfNodeIR<T>),
    /// A loop.
    For(ForNodeIR<T>),
    /// An element or a component.
    VNodeCall(VNodeIR<T>),
    /// A slot outlet.
    RenderSlotCall(RenderSlotIR<T>),
    /// A slot definition.
    VSlotUse(VSlotIR<T>),
    /// A slot definition that still awaits resolution by an earlier pass. The
    /// generator never takes one.
    AlterableSlot(VSlotIR<T>),
    /// A comment.
    CommentCall(T::CommentType),
    /// An expression that stands for itself.
    GenericExpression(T::JsExpression),
}

/// The root of a template: its body nodes, in document order.
pub struct IRRoot<T: ConvertInfo> {
    pub body: Vec<IRNode<T>>,
}

/// The expressions of a text node, kept in a small vector: most text nodes
/// hold exactly one.
#[verifier::external_body]
#[derive(Debug)]
pub struct TextList<'a>(SmallVec<[JsExpr<'a>; 1]>);

/// The expressions that a text node holds, in order.
pub uninterp spec fn text_items(t: TextList<'_>) -> Seq<JsExpr<'_>>;

/// `SmallVec::from_vec`: the vector's elements, in the same order.
#[verifier::external_body]
fn small_from_vec<'a>(items: Vec<JsExpr<'a>>) -> (t: TextList<'a>)
    ensures
        text_items(t) == items@,
{
    TextList(SmallVec::from_vec(items))
}

/// `SmallVec::into_vec`: the elements, in the same order.
#[verifier::external_body]
fn small_into_vec<'a>(t: TextList<'a>) -> (items: Vec<JsExpr<'a>>)
    ensures
        items@ == text_items(t),
{
    t.0.into_vec()
}

impl<'a> TextList<'a> {
    /// A text node's payload that holds `items`, in order.
    pub fn from_vec(items: Vec<JsExpr<'a>>) -> (t: Self)
        ensures
            text_items(t) == items@,
    {
        small_from_vec(items)
    }

    /// The expressions, in order.
    pub fn into_vec(self) -> (items: Vec<JsExpr<'a>>)
        ensures
            items@ == text_items(self),
    {
        small_into_vec(self)
    }
}

/// The flavour of the representation whose expressions are [`JsExpr`].
pub struct BaseConvertInfo<'a> {
    pub marker: PhantomData<&'a ()>,
}

impl<'a> ConvertInfo for BaseConvertInfo<'a> {
    type TextType = TextList<'a>;

    type CommentType = &'a str;

    type JsExpression = JsExpr<'a>;
}

pub type BaseIf<'a> = IfNodeIR<BaseConvertInfo<'a>>;

pub type BaseFor<'a> = ForNodeIR<BaseConvertInfo<'a>>;

pub type BaseVNode<'a> = VNodeIR<BaseConvertInfo<'a>>;

pub type BaseRenderSlot<'a> = RenderSlotIR<BaseConvertInfo<'a>>;

pub type BaseVSlot<'a> = VSlotIR<BaseConvertInfo<'a>>;

pub type BaseNode<'a> = IRNode<BaseConvertInfo<'a>>;

pub type BaseRoot<'a> = IRRoot<BaseConvertInfo<'a>>;

/// Whether the generator takes the node: no slot definition that awaits
/// resolution stands in it, at any depth.
pub open spec fn emittable(node: BaseNode<'_>) -> bool
    decreases node,
{
    match node {
        IRNode::TextCall(_) => true,
        IRNode::If(i) => emittable(*i.consequent) && emittable(*i.alternate),
        IRNode::For(f) => emittable(*f.child),
        IRNode::VNodeCall(v) => all_emittable(v.children@, v.children@.len()),
        IRNode::RenderSlotCall(r) => all_emittable(r.fallbacks@, r.fallbacks@.len()),
        IRNode::VSlotUse(s) => all_emittable(s.body@, s.body@.len()),
        IRNode::AlterableSlot(_) => false,
        IRNode::CommentCall(_) => true,
        IRNode::GenericExpression(_) => true,
    }
}

/// Whether the generator takes each of the first `n` nodes.
pub open spec fn all_emittable(nodes: Seq<BaseNode<'_>>, n: nat) -> bool
    decreases nodes, n,
{
    if n == 0 || n > nodes.len() {
        true
    } else {
        all_emittable(nodes, (n - 1) as nat) && emittable(nodes[n - 1])
    }
}

/// Every node among the first `n` is taken exactly when the first `n` are.
pub proof fn lemma_all_emittable(nodes: Seq<BaseNode<'_>>, n: nat)
    requires
        n <= nodes.len(),
    ensures
        all_emittable(nodes, n) <==> forall|i: int| 0 <= i < n ==> emittable(#[trigger] nodes[i]),
    decreases n,
{
    if n > 0 {
        lemma_all_emittable(nodes, (n - 1) as nat);
    }
}

/// Whether the generator takes the node. See [`emittable`].
pub fn is_emittable<'a>(node: &BaseNode<'a>) -> (r: bool)
    ensures
        r == emittable(*node),
    decreases node,
{
    match node {
        IRNode::If(i) => is_emittable(&*i.consequent) && is_emittable(&*i.alternate),
        IRNode::For(f) => is_emittable(&*f.child),
        IRNode::VNodeCall(v) => are_emittable(&v.children),
        IRNode::RenderSlotCall(r) => are_emittable(&r.fallbacks),
        IRNode::VSlotUse(s) => are_emittable(&s.body),
        IRNode::AlterableSlot(_) => false,
        IRNode::TextCall(_) | IRNode::CommentCall(_) | IRNode::GenericExpression(_) => true,
    }
}

/// Whether the generator takes every one of the nodes.
pub fn are_emittable<'a>(nodes: &Vec<BaseNode<'a>>) -> (r: bool)
    ensures
        r == all_emittable(nodes@, nodes@.len()),
    decreases nodes,
{
    let mut i: usize = 0;
    while i < nodes.len()
        invariant
            i <= nodes.len(),
            all_emittable(nodes@, i as nat),
        decreases nodes.len() - i,
    {
        if !is_emittable(&nodes[i]) {
            proof {
                lemma_all_emittable(nodes@, nodes@.len());
            }
            return false;
        }
        i += 1;
    }
    true
}

} // verus!
