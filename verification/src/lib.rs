//! Code generation for compiled UI templates.
//!
//! The generator walks the intermediate representation of a template and
//! writes the source text of a render function to a byte sink. What it writes
//! is given by the functions of [`render`], from values to bytes; every emitter
//! of [`generator`] is proved to append exactly those bytes to the sink, to
//! succeed whenever the sink takes every write, and to leave the depth and the
//! count of open blocks as its contract says.

pub mod decoded;
pub mod escape;
pub mod expr;
pub mod generator;
pub mod helper;
pub mod ir;
pub mod laws;
pub mod render;
pub mod sink;

pub use decoded::{DecodedStr, EntityDecoder, Passthrough};
pub use expr::{JsExpr, Prop};
pub use generator::{CodeGenerateOption, CodeGenerator, CodeWriter, CoreCodeGenerator};
pub use helper::RuntimeHelper;
pub use ir::{
    are_emittable, is_emittable, BaseConvertInfo, BaseFor, BaseIf, BaseNode, BaseRenderSlot,
    BaseRoot, BaseVNode, BaseVSlot, ConvertInfo, ForNodeIR, IRNode, IRRoot, IfNodeIR, RenderSlotIR,
    TextList, VNodeIR, VSlotIR,
};
pub use sink::CodeGenWrite;
