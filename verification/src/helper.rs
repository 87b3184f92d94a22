//! The runtime helpers that generated code may call, and their names.

use vstd::prelude::*;
use vstd::utf8::is_ascii_chars;

verus! {

/// A function of the runtime that generated code refers to.
///
/// The front end and the generator share this table: a helper is written into
/// the output under the name given by [`RuntimeHelper::helper_str`], behind the
/// helper marker.
#[derive(Clone, Copy, Debug, PartialEq, Eq)]
pub enum RuntimeHelper {
    Fragment,
    OpenBlock,
    CreateBlock,
    CreateVNode,
    CreateComment,
    CreateText,
    ResolveComponent,
    RenderList,
    RenderSlot,
    WithCtx,
    ToDisplayString,
    MergeProps,
}

impl RuntimeHelper {
    /// The helper's canonical name.
    pub open spec fn name(self) -> Seq<char> {
        match self {
            RuntimeHelper::Fragment => "Fragment"@,
            RuntimeHelper::OpenBlock => "openBlock"@,
            RuntimeHelper::CreateBlock => "createBlock"@,
            RuntimeHelper::CreateVNode => "createVNode"@,
            RuntimeHelper::CreateComment => "createCommentVNode"@,
            RuntimeHelper::CreateText => "createTextVNode"@,
            RuntimeHelper::ResolveComponent => "resolveComponent"@,
            RuntimeHelper::RenderList => "renderList"@,
            RuntimeHelper::RenderSlot => "renderSlot"@,
            RuntimeHelper::WithCtx => "withCtx"@,
            RuntimeHelper::ToDisplayString => "toDisplayString"@,
            RuntimeHelper::MergeProps => "mergeProps"@,
        }
    }

    /// The helper's canonical name.
    pub fn helper_str(&self) -> (name: &'static str)
        ensures
            name@ == self.name(),
    {
        match self {
            RuntimeHelper::Fragment => "Fragment",
            RuntimeHelper::OpenBlock => "openBlock",
            RuntimeHelper::CreateBlock => "createBlock",
            RuntimeHelper::CreateVNode => "createVNode",
            RuntimeHelper::CreateComment => "createCommentVNode",
            RuntimeHelper::CreateText => "createTextVNode",
            RuntimeHelper::ResolveComponent => "resolveComponent",
            RuntimeHelper::RenderList => "renderList",
            RuntimeHelper::RenderSlot => "renderSlot",
            RuntimeHelper::WithCtx => "withCtx",
            RuntimeHelper::ToDisplayString => "toDisplayString",
            RuntimeHelper::MergeProps => "mergeProps",
        }
    }

    /// Every name is a non-empty run of ASCII letters; none begins with the
    /// helper marker `_`.
    pub proof fn lemma_name_shape(self)
        ensures
            self.name().len() > 0,
            is_ascii_chars(self.name()),
            self.name()[0] != '_',
    {
        reveal_strlit("Fragment");
        reveal_strlit("openBlock");
        reveal_strlit("createBlock");
        reveal_strlit("createVNode");
        reveal_strlit("createCommentVNode");
        reveal_strlit("createTextVNode");
        reveal_strlit("resolveComponent");
        reveal_strlit("renderList");
        reveal_strlit("renderSlot");
        reveal_strlit("withCtx");
        reveal_strlit("toDisplayString");
        reveal_strlit("mergeProps");
    }
}

} // verus!
