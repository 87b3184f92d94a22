//! The generator: a walk over the intermediate representation that writes the
//! source text of a render function to a sink.

use crate::decoded::{EntityDecoder, Passthrough};
use crate::escape::quote;
use crate::expr::{JsExpr, Prop};
use crate::helper::RuntimeHelper;
use crate::ir::{
    all_emittable, emittable, text_items, BaseConvertInfo, BaseFor, BaseIf, BaseNode, BaseRenderSlot,
    BaseRoot, BaseVNode, BaseVSlot, ConvertInfo, ForNodeIR, IRNode, IRRoot, IfNodeIR, RenderSlotIR,
    TextList, VNodeIR, VSlotIR,
};
use crate::render::{
    bytes_of, epilogue_text, line_break, line_break_if, padding, prologue_text, render_body,
    render_comma_separated, render_expr, render_helper, render_joined, render_node, render_nodes,
    render_prop, render_props, render_root, render_text,
};
use crate::sink::CodeGenWrite;
use core::marker::PhantomData;
use vstd::pervasive::unreached;
use vstd::prelude::*;

verus! {

/// Something that turns an intermediate representation into code.
pub trait CodeGenerator {
    /// What is consumed.
    type IR;

    /// What comes of it: the code itself, or the outcome of writing it.
    type Output;

    /// What the generator asks of itself and of the node before it starts:
    /// nothing, unless an implementation says otherwise.
    open spec fn can_generate(&self, node: Self::IR) -> bool {
        true
    }

    /// Generates the code for `node`.
    fn generate(&mut self, node: Self::IR) -> Self::Output
        requires
            old(self).can_generate(node),
    ;
}

/// One operation for each kind of node, and one each for what surrounds the
/// body. A walk over the representation needs nothing else of its target.
pub trait CoreCodeGenerator<T: ConvertInfo> {
    /// The outcome of one operation.
    type Written;

    /// Whether the opening of the function can be written in this state.
    open spec fn can_open(&self) -> bool {
        true
    }

    /// Whether the blocks that are open can be closed in this state.
    open spec fn can_close(&self) -> bool {
        true
    }

    /// Whether the node can be written in this state.
    open spec fn can_emit(&self, node: IRNode<T>) -> bool {
        true
    }

    /// Writes what comes before the body of the root.
    fn generate_prologue(&mut self, t: &IRRoot<T>) -> Self::Written
        requires
            old(self).can_open(),
    ;

    /// Writes what comes after the body of the root.
    fn generate_epilogue(&mut self) -> Self::Written
        requires
            old(self).can_close(),
    ;

    /// Writes a text node.
    fn generate_text(&mut self, t: T::TextType) -> Self::Written
        requires
            old(self).can_emit(IRNode::TextCall(t)),
    ;

    /// Writes a conditional.
    fn generate_if(&mut self, i: IfNodeIR<T>) -> Self::Written
        requires
            old(self).can_emit(IRNode::If(i)),
    ;

    /// Writes a loop.
    fn generate_for(&mut self, f: ForNodeIR<T>) -> Self::Written
        requires
            old(self).can_emit(IRNode::For(f)),
    ;

    /// Writes the construction of an element or of a component.
    fn generate_vnode(&mut self, v: VNodeIR<T>) -> Self::Written
        requires
            old(self).can_emit(IRNode::VNodeCall(v)),
    ;

    /// Writes a slot outlet.
    fn generate_slot_outlet(&mut self, r: RenderSlotIR<T>) -> Self::Written
        requires
            old(self).can_emit(IRNode::RenderSlotCall(r)),
    ;

    /// Writes a slot definition.
    fn generate_v_slot(&mut self, s: VSlotIR<T>) -> Self::Written
        requires
            old(self).can_emit(IRNode::VSlotUse(s)),
    ;

    /// Writes an expression.
    fn generate_js_expr(&mut self, e: T::JsExpression) -> Self::Written
        requires
            old(self).can_emit(IRNode::GenericExpression(e)),
    ;

    /// Writes a comment.
    fn generate_comment(&mut self, c: T::CommentType) -> Self::Written
        requires
            old(self).can_emit(IRNode::CommentCall(c)),
    ;
}

/// What one generation is configured with. The generator reads none of it while
/// it writes: the output depends on the root alone.
pub struct CodeGenerateOption<D: EntityDecoder = Passthrough> {
    /// Whether the output is the dialect with type annotations.
    pub is_ts: bool,
    /// Whether a source map accompanies the output.
    pub source_map: bool,
    /// The file name that a source map attributes the output to.
    pub filename: String,
    /// The decoder of character references.
    pub decode_entities: D,
}

impl Default for CodeGenerateOption<Passthrough> {
    /// The plain dialect, no source map, no file name, and the decoder that
    /// hands text on as it is.
    fn default() -> (option: Self)
        ensures
            !option.is_ts,
            !option.source_map,
            option.filename@ == Seq::<char>::empty(),
    {
        CodeGenerateOption {
            is_ts: false,
            source_map: false,
            filename: String::new(),
            decode_entities: Passthrough,
        }
    }
}

/// A generator that writes to a sink as it walks.
pub struct CodeWriter<'a, T: CodeGenWrite, D: EntityDecoder = Passthrough> {
    /// Where the output goes.
    pub writer: T,
    /// What the generation is configured with.
    pub option: CodeGenerateOption<D>,
    /// The depth of the line that is being written.
    pub indent_level: usize,
    /// The number of blocks that have been opened and not yet closed.
    pub closing_brackets: usize,
    /// Whether the sink has rejected a write of this writer.
    pub failed: Ghost<bool>,
    /// Ties the writer to the lifetime of the roots that it generates for.
    pub p: PhantomData<&'a ()>,
}

impl<'w, T: CodeGenWrite, D: EntityDecoder> CodeWriter<'w, T, D> {
    /// A writer at depth zero with no block open, which has written nothing
    /// yet.
    pub fn new(writer: T, option: CodeGenerateOption<D>) -> (w: Self)
        ensures
            w.writer == writer,
            w.option == option,
            w.indent_level == 0,
            w.closing_brackets == 0,
            w.ready(),
    {
        CodeWriter {
            writer,
            option,
            indent_level: 0,
            closing_brackets: 0,
            failed: Ghost(false),
            p: PhantomData,
        }
    }

    /// Whether the sink has taken every write so far. Every operation asks for
    /// this: once a write has failed the walk is over, and nothing more is
    /// written.
    pub open spec fn ready(&self) -> bool {
        !self.failed@
    }

    /// `self` is what `before` has become by an operation that ended in `r` and
    /// was to write `bytes`: if it succeeded, the sink holds what it held and
    /// then `bytes`, and depth and open blocks are `depth` and `blocks`; it
    /// failed exactly if the sink rejected a write, which a reliable sink does
    /// not do.
    pub open spec fn wrote_to(
        &self,
        before: Self,
        r: Result<(), T::Error>,
        bytes: Seq<u8>,
        depth: int,
        blocks: int,
    ) -> bool {
        &&& r is Ok ==> self.writer.written() == before.writer.written() + bytes
        &&& r is Ok ==> self.writer.reliable() == before.writer.reliable()
        &&& r is Err <==> self.failed@
        &&& before.writer.reliable() ==> r is Ok
        &&& r is Ok ==> self.indent_level == depth
        &&& r is Ok ==> self.closing_brackets == blocks
    }

    /// As [`Self::wrote_to`], for an operation that leaves depth and open blocks
    /// as they were, whether it succeeds or not.
    pub open spec fn wrote(&self, before: Self, r: Result<(), T::Error>, bytes: Seq<u8>) -> bool {
        &&& self.wrote_to(before, r, bytes, before.indent_level as int, before.closing_brackets as int)
        &&& self.indent_level == before.indent_level
        &&& self.closing_brackets == before.closing_brackets
    }

    /// Hands bytes to the sink, and records it if the sink rejects them.
    fn write_bytes(&mut self, bytes: &[u8]) -> (r: Result<(), T::Error>)
        requires
            old(self).ready(),
        ensures
            final(self).wrote(*old(self), r, bytes@),
    {
        let r = self.writer.write_all(bytes);
        self.failed = Ghost(r is Err);
        r
    }

    /// Writes a string as it is.
    fn write_str(&mut self, s: &str) -> (r: Result<(), T::Error>)
        requires
            old(self).ready(),
        ensures
            final(self).wrote(*old(self), r, bytes_of(s)),
    {
        self.write_bytes(s.as_bytes())
    }

    /// Writes a reference to a helper: the marker, then the helper's name.
    pub fn generate_helper(&mut self, helper: RuntimeHelper) -> (r: Result<(), T::Error>)
        requires
            old(self).ready(),
        ensures
            final(self).wrote(*old(self), r, render_helper(helper)),
    {
        self.write_str("_")?;
        let r = self.write_str(helper.helper_str());
        assert(old(self).writer.written() + bytes_of("_") + vstd::utf8::encode_utf8(helper.name())
            =~= old(self).writer.written() + render_helper(helper));
        r
    }

    /// Starts a new line at the current depth.
    pub fn newline(&mut self) -> (r: Result<(), T::Error>)
        requires
            old(self).ready(),
        ensures
            final(self).wrote(*old(self), r, line_break(old(self).indent_level as nat)),
    {
        self.write_str("\n")?;
        let mut i: usize = 0;
        while i < self.indent_level
            invariant
                i <= self.indent_level,
                self.wrote(*old(self), Ok(()), bytes_of("\n") + padding(i as nat)),
            decreases self.indent_level - i,
        {
            self.write_str("  ")?;
            i += 1;
            assert(self.writer.written() =~= old(self).writer.written() + (bytes_of("\n") + padding(
                i as nat,
            )));
        }
        Ok(())
    }

    /// Goes one level deeper, then starts a new line there.
    pub fn indent(&mut self) -> (r: Result<(), T::Error>)
        requires
            old(self).ready(),
            old(self).indent_level < usize::MAX,
        ensures
            final(self).wrote_to(
                *old(self),
                r,
                line_break((old(self).indent_level + 1) as nat),
                old(self).indent_level + 1,
                old(self).closing_brackets as int,
            ),
            final(self).indent_level == old(self).indent_level + 1,
            final(self).closing_brackets == old(self).closing_brackets,
    {
        self.indent_level += 1;
        self.newline()
    }

    /// Goes one level back up, and starts a new line there if asked to.
    pub fn deindent(&mut self, with_new_line: bool) -> (r: Result<(), T::Error>)
        requires
            old(self).ready(),
            old(self).indent_level > 0,
        ensures
            final(self).wrote_to(
                *old(self),
                r,
                line_break_if(with_new_line, (old(self).indent_level - 1) as nat),
                old(self).indent_level - 1,
                old(self).closing_brackets as int,
            ),
            final(self).indent_level == old(self).indent_level - 1,
            final(self).closing_brackets == old(self).closing_brackets,
            !with_new_line ==> r is Ok,
    {
        self.indent_level -= 1;
        if with_new_line {
            self.newline()
        } else {
            assert(self.writer.written() =~= old(self).writer.written() + Seq::<u8>::empty());
            Ok(())
        }
    }

    /// What stands before the function: the `return` that hands it to whoever
    /// evaluates the output.
    pub fn generate_preamble(&mut self) -> (r: Result<(), T::Error>)
        requires
            old(self).ready(),
        ensures
            final(self).wrote(*old(self), r, bytes_of("return ")),
    {
        self.write_str("return ")
    }

    /// Opens the render function, which takes the context and the cache.
    pub fn generate_function_signature(&mut self) -> (r: Result<(), T::Error>)
        requires
            old(self).ready(),
            old(self).indent_level < usize::MAX,
            old(self).closing_brackets < usize::MAX,
        ensures
            final(self).wrote_to(
                *old(self),
                r,
                bytes_of("function render(_ctx, _cache) {") + line_break(
                    (old(self).indent_level + 1) as nat,
                ),
                old(self).indent_level + 1,
                old(self).closing_brackets + 1,
            ),
    {
        self.write_str("function render(_ctx, _cache) {")?;
        self.closing_brackets += 1;
        let r = self.indent();
        assert(r is Ok ==> self.writer.written() =~= old(self).writer.written() + (bytes_of(
            "function render(_ctx, _cache) {",
        ) + line_break((old(self).indent_level + 1) as nat)));
        r
    }

    /// Opens the block that brings the members of the context into scope.
    pub fn generate_with_block(&mut self) -> (r: Result<(), T::Error>)
        requires
            old(self).ready(),
            old(self).indent_level < usize::MAX,
            old(self).closing_brackets < usize::MAX,
        ensures
            final(self).wrote_to(
                *old(self),
                r,
                bytes_of("with (_ctx) {") + line_break((old(self).indent_level + 1) as nat),
                old(self).indent_level + 1,
                old(self).closing_brackets + 1,
            ),
    {
        self.write_str("with (_ctx) {")?;
        self.closing_brackets += 1;
        let r = self.indent();
        assert(r is Ok ==> self.writer.written() =~= old(self).writer.written() + (bytes_of(
            "with (_ctx) {",
        ) + line_break((old(self).indent_level + 1) as nat)));
        r
    }

    /// The statements that resolve components and directives inside the
    /// function: there are none.
    pub fn generate_assets(&mut self) -> (r: Result<(), T::Error>)
        ensures
            r is Ok,
            *final(self) == *old(self),
    {
        Ok(())
    }

    /// Writes the whole render function for a root: what opens it, the
    /// expression that it returns, and what closes it.
    pub fn generate_root<'a>(&mut self, root: BaseRoot<'a>) -> (r: Result<(), T::Error>)
        requires
            old(self).can_open(),
            old(self).can_close(),
            all_emittable(root.body@, root.body@.len()),
        ensures
            final(self).wrote_to(
                *old(self),
                r,
                render_root(root, old(self).indent_level as nat),
                0,
                0,
            ),
    {
        let ghost body = root.body@;
        self.generate_prologue(&root)?;
        let count = root.body.len();
        if count == 0 {
            self.write_str("null")?;
        } else if count == 1 {
            self.generate_nodes(root.body)?;
        } else {
            self.write_str("[")?;
            self.generate_nodes(root.body)?;
            self.write_str("]")?;
        }
        assert(self.writer.written() =~= old(self).writer.written() + (prologue_text(
            old(self).indent_level as nat,
        ) + render_body(body)));
        let r = self.generate_epilogue();
        assert(r is Ok ==> self.writer.written() =~= old(self).writer.written() + render_root(
            root,
            old(self).indent_level as nat,
        ));
        r
    }

    /// Writes one node, by the operation for its kind.
    pub fn generate_node<'a>(&mut self, node: BaseNode<'a>) -> (r: Result<(), T::Error>)
        requires
            old(self).ready(),
            emittable(node),
        ensures
            final(self).wrote(*old(self), r, render_node(node)),
        decreases node, 1nat,
    {
        match node {
            IRNode::TextCall(t) => self.generate_text(t),
            IRNode::If(v_if) => self.generate_if(v_if),
            IRNode::For(v_for) => self.generate_for(v_for),
            IRNode::VNodeCall(vnode) => self.generate_vnode(vnode),
            IRNode::RenderSlotCall(outlet) => self.generate_slot_outlet(outlet),
            IRNode::VSlotUse(slot) => self.generate_v_slot(slot),
            IRNode::CommentCall(c) => self.generate_comment(c),
            IRNode::GenericExpression(e) => self.generate_js_expr(e),
            IRNode::AlterableSlot(_) => unreached(),
        }
    }

    /// Writes a list of nodes separated by a comma and a space; nothing for an
    /// empty list.
    pub fn generate_nodes<'a>(&mut self, nodes: Vec<BaseNode<'a>>) -> (r: Result<(), T::Error>)
        requires
            old(self).ready(),
            all_emittable(nodes@, nodes@.len()),
        ensures
            final(self).wrote(*old(self), r, render_nodes(nodes@, nodes@.len())),
        decreases nodes, 0nat,
    {
        let ghost ns = nodes@;
        let ghost start = *self;
        let mut first = true;
        proof {
            crate::ir::lemma_all_emittable(ns, ns.len());
        }
        assert forall|i: int| 0 <= i < ns.len() implies decreases_to!(nodes => #[trigger] ns[i]) by {
            assert(decreases_to!(nodes => nodes[i]));
        }
        for node in it: nodes
            invariant
                it.seq() == ns,
                start == *old(self),
                forall|i: int| 0 <= i < ns.len() ==> decreases_to!(nodes => #[trigger] ns[i]),
                forall|i: int| 0 <= i < ns.len() ==> emittable(#[trigger] ns[i]),
                first <==> it.index() == 0,
                self.wrote(start, Ok(()), render_nodes(ns, it.index() as nat)),
        {
            if !first {
                self.write_str(", ")?;
            }
            first = false;
            self.generate_node(node)?;
            assert(self.writer.written() =~= start.writer.written() + render_nodes(
                ns,
                (it.index() + 1) as nat,
            ));
        }
        Ok(())
    }

    /// Writes a call of `helper` whose last argument is a function without
    /// parameters that returns the nodes as an array, and whose first is `name`.
    fn generate_thunk_call<'a>(
        &mut self,
        helper: RuntimeHelper,
        name: JsExpr<'a>,
        nodes: Vec<BaseNode<'a>>,
    ) -> (r: Result<(), T::Error>)
        requires
            old(self).ready(),
            all_emittable(nodes@, nodes@.len()),
        ensures
            final(self).wrote(
                *old(self),
                r,
                render_helper(helper) + bytes_of("(") + render_expr(name) + bytes_of(", () => [")
                    + render_nodes(nodes@, nodes@.len()) + bytes_of("])"),
            ),
        decreases nodes, 1nat,
    {
        let ghost ns = nodes@;
        self.generate_helper(helper)?;
        self.write_str("(")?;
        self.generate_js_expr(name)?;
        self.write_str(", () => [")?;
        self.generate_nodes(nodes)?;
        let r = self.write_str("])");
        assert(r is Ok ==> self.writer.written() =~= old(self).writer.written() + (render_helper(
            helper,
        ) + bytes_of("(") + render_expr(name) + bytes_of(", () => [") + render_nodes(ns, ns.len())
            + bytes_of("])")));
        r
    }

    /// Writes the expressions in order, with the separator, where there is one,
    /// between neighbours and nowhere else.
    fn gen_joined<'a>(&mut self, exprs: Vec<JsExpr<'a>>, sep: Option<&'static str>) -> (r: Result<
        (),
        T::Error,
    >)
        requires
            old(self).ready(),
        ensures
            final(self).wrote(*old(self), r, render_joined(exprs@, exprs@.len(), sep_bytes(sep))),
        decreases exprs, 0nat,
    {
        let ghost es = exprs@;
        let ghost start = *self;
        let mut first = true;
        assert forall|i: int| 0 <= i < es.len() implies decreases_to!(exprs => #[trigger] es[i]) by {
            assert(decreases_to!(exprs => exprs[i]));
        }
        for e in it: exprs
            invariant
                it.seq() == es,
                start == *old(self),
                forall|i: int| 0 <= i < es.len() ==> decreases_to!(exprs => #[trigger] es[i]),
                first <==> it.index() == 0,
                self.wrote(
                    start,
                    Ok(()),
                    render_joined(es, it.index() as nat, sep_bytes(sep)),
                ),
        {
            if !first {
                if let Some(s) = sep {
                    self.write_str(s)?;
                }
            }
            first = false;
            self.generate_js_expr(e)?;
            assert(self.writer.written() =~= start.writer.written() + render_joined(
                es,
                (it.index() + 1) as nat,
                sep_bytes(sep),
            ));
        }
        Ok(())
    }

    /// Writes a list of expressions separated by a comma and a space; nothing
    /// for an empty list.
    pub fn gen_comma_separated<'a>(&mut self, exprs: Vec<JsExpr<'a>>) -> (r: Result<(), T::Error>)
        requires
            old(self).ready(),
        ensures
            final(self).wrote(*old(self), r, render_comma_separated(exprs@)),
        decreases exprs, 1nat,
    {
        self.gen_joined(exprs, Some(", "))
    }

    /// Writes one entry of an object literal.
    fn generate_prop<'a>(&mut self, prop: Prop<'a>) -> (r: Result<(), T::Error>)
        requires
            old(self).ready(),
        ensures
            final(self).wrote(*old(self), r, render_prop(prop)),
        decreases prop, 0nat,
    {
        let (key, value) = prop;
        let is_static = match &key {
            JsExpr::StrLit(_) => true,
            _ => false,
        };
        if is_static {
            self.generate_js_expr(key)?;
        } else {
            self.write_str("[")?;
            self.generate_js_expr(key)?;
            self.write_str("]")?;
        }
        self.write_str(": ")?;
        let r = self.generate_js_expr(value);
        assert(r is Ok ==> self.writer.written() =~= old(self).writer.written() + render_prop(prop));
        r
    }

    /// Writes the entries of an object literal, separated by a comma and a
    /// space.
    fn generate_props<'a>(&mut self, props: Vec<Prop<'a>>) -> (r: Result<(), T::Error>)
        requires
            old(self).ready(),
        ensures
            final(self).wrote(*old(self), r, render_props(props@, props@.len())),
        decreases props, 0nat,
    {
        let ghost ps = props@;
        let ghost start = *self;
        let mut first = true;
        assert forall|i: int| 0 <= i < ps.len() implies decreases_to!(props => #[trigger] ps[i]) by {
            assert(decreases_to!(props => props[i]));
        }
        for prop in it: props
            invariant
                it.seq() == ps,
                start == *old(self),
                forall|i: int| 0 <= i < ps.len() ==> decreases_to!(props => #[trigger] ps[i]),
                first <==> it.index() == 0,
                self.wrote(start, Ok(()), render_props(ps, it.index() as nat)),
        {
            if !first {
                self.write_str(", ")?;
            }
            first = false;
            self.generate_prop(prop)?;
            assert(self.writer.written() =~= start.writer.written() + render_props(
                ps,
                (it.index() + 1) as nat,
            ));
        }
        Ok(())
    }
}

/// Appending to what has been appended: `(w + a) + b` is `w + (a + b)`.
proof fn lemma_appended(w: Seq<u8>, a: Seq<u8>, b: Seq<u8>)
    ensures
        (w + a) + b == w + (a + b),
{
    assert((w + a) + b =~= w + (a + b));
}

/// The bytes of a separator; none where there is no separator.
pub open spec fn sep_bytes(sep: Option<&'static str>) -> Seq<u8> {
    match sep {
        Some(s) => bytes_of(s),
        None => Seq::empty(),
    }
}

impl<'a, T: CodeGenWrite, D: EntityDecoder> CodeGenerator for CodeWriter<'a, T, D> {
    type IR = BaseRoot<'a>;

    type Output = Result<(), T::Error>;

    /// The sink has taken every write so far, the writer can open the function
    /// and close what is open, and the generator takes every node of the body.
    open spec fn can_generate(&self, root: BaseRoot<'a>) -> bool {
        &&& self.ready()
        &&& self.can_open()
        &&& self.can_close()
        &&& all_emittable(root.body@, root.body@.len())
    }

    /// Writes the whole render function for `root`. See
    /// [`CodeWriter::generate_root`].
    fn generate(&mut self, root: BaseRoot<'a>) -> (r: Result<(), T::Error>)
        ensures
            final(self).wrote_to(
                *old(self),
                r,
                render_root(root, old(self).indent_level as nat),
                0,
                0,
            ),
    {
        self.generate_root(root)
    }
}

impl<'a, 'w, T: CodeGenWrite, D: EntityDecoder> CoreCodeGenerator<BaseConvertInfo<'a>> for CodeWriter<
    'w,
    T,
    D,
> {
    type Written = Result<(), T::Error>;

    /// The sink has taken every write so far, and two more blocks can be
    /// counted.
    open spec fn can_open(&self) -> bool {
        &&& self.ready()
        &&& self.indent_level <= usize::MAX - 2
        &&& self.closing_brackets <= usize::MAX - 2
    }

    /// The sink has taken every write so far, and the depth is the number of
    /// open blocks, so that closing them all brings it back to zero.
    open spec fn can_close(&self) -> bool {
        &&& self.ready()
        &&& self.indent_level == self.closing_brackets
    }

    /// The sink has taken every write so far, and the generator takes the
    /// node.
    open spec fn can_emit(&self, node: BaseNode<'a>) -> bool {
        &&& self.ready()
        &&& emittable(node)
    }

    /// Writes what comes before the returned expression, and counts the two
    /// blocks that it opens.
    fn generate_prologue(&mut self, root: &BaseRoot<'a>) -> (r: Result<(), T::Error>)
        ensures
            final(self).wrote_to(
                *old(self),
                r,
                prologue_text(old(self).indent_level as nat),
                old(self).indent_level + 2,
                old(self).closing_brackets + 2,
            ),
    {
        self.generate_preamble()?;
        self.generate_function_signature()?;
        self.generate_with_block()?;
        self.generate_assets()?;
        let r = self.write_str("return ");
        assert(r is Ok ==> self.writer.written() =~= old(self).writer.written() + prologue_text(
            old(self).indent_level as nat,
        ));
        r
    }

    /// Closes every open block, innermost first, until none is open and the
    /// depth is zero again.
    fn generate_epilogue(&mut self) -> (r: Result<(), T::Error>)
        ensures
            final(self).wrote_to(
                *old(self),
                r,
                epilogue_text(old(self).closing_brackets as nat),
                0,
                0,
            ),
    {
        let ghost target = old(self).writer.written() + epilogue_text(
            old(self).closing_brackets as nat,
        );
        assert(epilogue_text(0) =~= Seq::<u8>::empty());
        while self.closing_brackets > 0
            invariant
                self.indent_level == self.closing_brackets,
                self.ready(),
                self.writer.reliable() == old(self).writer.reliable(),
                self.writer.written() + epilogue_text(self.closing_brackets as nat) == target,
            decreases self.closing_brackets,
        {
            let ghost before = self.writer.written();
            let ghost open = self.closing_brackets as nat;
            self.deindent(true)?;
            self.write_str("}")?;
            self.closing_brackets -= 1;
            assert(self.writer.written() + epilogue_text((open - 1) as nat) =~= before
                + epilogue_text(open));
        }
        assert(self.writer.written() =~= target);
        Ok(())
    }

    /// Writes the expressions of a text node, joined by the concatenation
    /// operator; a single expression stands alone.
    fn generate_text(&mut self, t: TextList<'a>) -> (r: Result<(), T::Error>)
        ensures
            final(self).wrote(*old(self), r, render_text(text_items(t))),
    {
        self.gen_joined(t.into_vec(), Some(" + "))
    }

    /// Writes a conditional as a choice expression: the condition, then the
    /// node for when it holds, then the node for when it does not.
    fn generate_if(&mut self, i: BaseIf<'a>) -> (r: Result<(), T::Error>)
        ensures
            final(self).wrote(*old(self), r, render_node(IRNode::If(i))),
        decreases i, 0nat,
    {
        let IfNodeIR { condition, consequent, alternate } = i;
        self.generate_js_expr(condition)?;
        self.write_str(" ? ")?;
        self.generate_node(*consequent)?;
        self.write_str(" : ")?;
        let r = self.generate_node(*alternate);
        assert(r is Ok ==> self.writer.written() =~= old(self).writer.written() + render_node(
            IRNode::If(i),
        ));
        r
    }

    /// Writes a loop as a call of the list helper with the source and a
    /// function from the loop's parameters to the node.
    fn generate_for(&mut self, f: BaseFor<'a>) -> (r: Result<(), T::Error>)
        ensures
            final(self).wrote(*old(self), r, render_node(IRNode::For(f))),
        decreases f, 0nat,
    {
        let ForNodeIR { source, params, child } = f;
        let ghost w = old(self).writer.written();
        let ghost head1 = render_helper(RuntimeHelper::RenderList) + bytes_of("(");
        let ghost head2 = head1 + render_expr(source);
        let ghost head3 = head2 + bytes_of(", (");
        let ghost head4 = head3 + render_comma_separated(params@);
        let ghost head5 = head4 + bytes_of(") => ");
        let ghost head6 = head5 + render_node(*child);
        self.generate_helper(RuntimeHelper::RenderList)?;
        self.write_str("(")?;
        proof {
            lemma_appended(w, render_helper(RuntimeHelper::RenderList), bytes_of("("));
        }
        self.generate_js_expr(source)?;
        proof {
            lemma_appended(w, head1, render_expr(source));
        }
        self.write_str(", (")?;
        proof {
            lemma_appended(w, head2, bytes_of(", ("));
        }
        self.gen_comma_separated(params)?;
        proof {
            lemma_appended(w, head3, render_comma_separated(params@));
        }
        self.write_str(") => ")?;
        proof {
            lemma_appended(w, head4, bytes_of(") => "));
        }
        self.generate_node(*child)?;
        proof {
            lemma_appended(w, head5, render_node(*child));
        }
        let r = self.write_str(")");
        proof {
            lemma_appended(w, head6, bytes_of(")"));
        }
        r
    }

    /// Writes the construction of an element or a component as a call of the
    /// node helper with tag, properties, children and flags, in that order.
    fn generate_vnode(&mut self, v: BaseVNode<'a>) -> (r: Result<(), T::Error>)
        ensures
            final(self).wrote(*old(self), r, render_node(IRNode::VNodeCall(v))),
        decreases v, 0nat,
    {
        let VNodeIR { tag, props, children, flags } = v;
        let ghost w = old(self).writer.written();
        let ghost head1 = render_helper(RuntimeHelper::CreateVNode) + bytes_of("(");
        let ghost head2 = head1 + render_expr(tag);
        let ghost head3 = head2 + bytes_of(", ");
        let ghost head4 = head3 + render_expr(props);
        let ghost head5 = head4 + bytes_of(", [");
        let ghost head6 = head5 + render_nodes(children@, children@.len());
        let ghost head7 = head6 + bytes_of("], ");
        let ghost head8 = head7 + render_expr(flags);
        self.generate_helper(RuntimeHelper::CreateVNode)?;
        self.write_str("(")?;
        proof {
            lemma_appended(w, render_helper(RuntimeHelper::CreateVNode), bytes_of("("));
        }
        self.generate_js_expr(tag)?;
        proof {
            lemma_appended(w, head1, render_expr(tag));
        }
        self.write_str(", ")?;
        proof {
            lemma_appended(w, head2, bytes_of(", "));
        }
        self.generate_js_expr(props)?;
        proof {
            lemma_appended(w, head3, render_expr(props));
        }
        self.write_str(", [")?;
        proof {
            lemma_appended(w, head4, bytes_of(", ["));
        }
        self.generate_nodes(children)?;
        proof {
            lemma_appended(w, head5, render_nodes(children@, children@.len()));
        }
        self.write_str("], ")?;
        proof {
            lemma_appended(w, head6, bytes_of("], "));
        }
        self.generate_js_expr(flags)?;
        proof {
            lemma_appended(w, head7, render_expr(flags));
        }
        let r = self.write_str(")");
        proof {
            lemma_appended(w, head8, bytes_of(")"));
        }
        r
    }

    /// Writes a slot outlet as a call of the outlet helper with the slot's name
    /// and a function that returns the fallback nodes.
    fn generate_slot_outlet(&mut self, outlet: BaseRenderSlot<'a>) -> (r: Result<(), T::Error>)
        ensures
            final(self).wrote(*old(self), r, render_node(IRNode::RenderSlotCall(outlet))),
        decreases outlet, 0nat,
    {
        let RenderSlotIR { slot_name, fallbacks } = outlet;
        self.generate_thunk_call(RuntimeHelper::RenderSlot, slot_name, fallbacks)
    }

    /// Writes a slot definition as a call of the context helper with the slot's
    /// name and a function that returns the slot's nodes.
    fn generate_v_slot(&mut self, s: BaseVSlot<'a>) -> (r: Result<(), T::Error>)
        ensures
            final(self).wrote(*old(self), r, render_node(IRNode::VSlotUse(s))),
        decreases s, 0nat,
    {
        let VSlotIR { slot_name, body } = s;
        self.generate_thunk_call(RuntimeHelper::WithCtx, slot_name, body)
    }

    /// Writes an expression: each variant in the one way that
    /// [`render_expr`] gives for it.
    fn generate_js_expr(&mut self, expr: JsExpr<'a>) -> (r: Result<(), T::Error>)
        ensures
            final(self).wrote(*old(self), r, render_expr(expr)),
        decreases expr, 0nat,
    {
        match expr {
            JsExpr::Src(s) => self.write_str(s),
            JsExpr::StrLit(text) => {
                let lit = text.to_js_string();
                self.write_bytes(lit.as_slice())
            },
            JsExpr::Simple(e) => self.write_str(e),
            JsExpr::Symbol(helper) => self.generate_helper(helper),
            JsExpr::Props(props) => {
                self.write_str("{")?;
                self.generate_props(props)?;
                let r = self.write_str("}");
                assert(r is Ok ==> self.writer.written() =~= old(self).writer.written()
                    + render_expr(expr));
                r
            },
            JsExpr::Compound(parts) => self.gen_joined(parts, None),
            JsExpr::Array(items) => {
                self.write_str("[")?;
                self.gen_comma_separated(items)?;
                let r = self.write_str("]");
                assert(r is Ok ==> self.writer.written() =~= old(self).writer.written()
                    + render_expr(expr));
                r
            },
            JsExpr::Call(helper, args) => {
                self.generate_helper(helper)?;
                self.write_str("(")?;
                self.gen_comma_separated(args)?;
                let r = self.write_str(")");
                assert(r is Ok ==> self.writer.written() =~= old(self).writer.written()
                    + render_expr(expr));
                r
            },
        }
    }

    /// Writes a comment as a call of the comment helper with the comment's
    /// text as a string literal.
    fn generate_comment(&mut self, c: &'a str) -> (r: Result<(), T::Error>)
        ensures
            final(self).wrote(*old(self), r, render_node(IRNode::CommentCall(c))),
    {
        self.generate_helper(RuntimeHelper::CreateComment)?;
        self.write_str("(")?;
        let lit = quote(c.as_bytes());
        self.write_bytes(lit.as_slice())?;
        let r = self.write_str(")");
        assert(r is Ok ==> self.writer.written() =~= old(self).writer.written() + render_node(
            IRNode::CommentCall(c),
        ));
        r
    }
}

} // verus!
