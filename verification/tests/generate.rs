use template_codegen::{
    BaseNode, BaseRoot, CodeGenWrite, CodeGenerateOption, CodeGenerator, CodeWriter,
    CoreCodeGenerator, DecodedStr, IRNode, IRRoot, JsExpr, Passthrough, RuntimeHelper, TextList,
};

const OPENING: &str = "return function render(_ctx, _cache) {\n  with (_ctx) {\n    return ";
const CLOSING: &str = "\n  }\n}";

fn writer() -> CodeWriter<'static, Vec<u8>> {
    CodeWriter::new(vec![], CodeGenerateOption::default())
}

fn lit(s: &str) -> JsExpr<'_> {
    JsExpr::StrLit(DecodedStr::from(s))
}

fn text<'a>(items: Vec<JsExpr<'a>>) -> BaseNode<'a> {
    IRNode::TextCall(TextList::from_vec(items))
}

fn generated(root: BaseRoot<'_>) -> String {
    let mut w = writer();
    w.generate_root(root).unwrap();
    String::from_utf8(w.writer).unwrap()
}

fn written(w: CodeWriter<'_, Vec<u8>>) -> String {
    String::from_utf8(w.writer).unwrap()
}

/// What the front end does to text before it reaches the generator: every run
/// of white space becomes one space.
fn compress_whitespace(s: &str) -> String {
    let mut out = String::new();
    let mut in_space = false;
    for c in s.chars() {
        if c.is_whitespace() {
            if !in_space {
                out.push(' ');
            }
            in_space = true;
        } else {
            out.push(c);
            in_space = false;
        }
    }
    out
}

fn base_gen(s: &str) -> String {
    let normalized = compress_whitespace(s);
    let root = IRRoot { body: vec![text(vec![lit(&normalized)])] };
    generated(root)
}

#[test]
fn test_text() {
    let s = base_gen("hello       world");
    assert!(s.contains("\"hello world\""));
}

#[test]
fn text_root_exact_output() {
    let s = base_gen("hello       world");
    assert_eq!(s, format!("{}\"hello world\"{}", OPENING, CLOSING));
}

#[test]
fn text_concatenates_two_literals() {
    let mut w = writer();
    w.generate_text(TextList::from_vec(vec![lit("hello"), lit("world")])).unwrap();
    assert_eq!(written(w), "\"hello\" + \"world\"");
}

#[test]
fn text_single_expression_has_no_operator() {
    let mut w = writer();
    w.generate_text(TextList::from_vec(vec![lit("hello")])).unwrap();
    let s = written(w);
    assert_eq!(s, "\"hello\"");
    assert!(!s.contains('+'));
}

#[test]
fn text_three_expressions_two_operators() {
    let mut w = writer();
    w.generate_text(TextList::from_vec(vec![lit("a"), JsExpr::Simple("b"), lit("c")])).unwrap();
    let s = written(w);
    assert_eq!(s, "\"a\" + b + \"c\"");
    assert_eq!(s.matches(" + ").count(), 2);
}

#[test]
fn text_empty_writes_nothing() {
    let mut w = writer();
    w.generate_text(TextList::from_vec(vec![])).unwrap();
    assert_eq!(written(w), "");
}

#[test]
fn empty_root_returns_null() {
    let root: BaseRoot<'static> = IRRoot { body: vec![] };
    assert_eq!(generated(root), format!("{}null{}", OPENING, CLOSING));
}

#[test]
fn empty_root_ignores_configuration() {
    for (is_ts, source_map, filename) in
        [(false, false, ""), (true, false, "a.vue"), (false, true, "b.vue"), (true, true, "c.vue")]
    {
        let option = CodeGenerateOption {
            is_ts,
            source_map,
            filename: filename.to_string(),
            decode_entities: Passthrough,
        };
        let mut w = CodeWriter::new(Vec::<u8>::new(), option);
        let root: BaseRoot<'static> = IRRoot { body: vec![] };
        w.generate_root(root).unwrap();
        assert_eq!(String::from_utf8(w.writer).unwrap(), format!("{}null{}", OPENING, CLOSING));
    }
}

#[test]
fn default_option_is_plain() {
    let option = CodeGenerateOption::default();
    assert!(!option.is_ts);
    assert!(!option.source_map);
    assert_eq!(option.filename, "");
}

#[test]
fn generation_leaves_structure_balanced() {
    let mut w = writer();
    let root = IRRoot { body: vec![text(vec![lit("x")])] };
    w.generate_root(root).unwrap();
    assert_eq!(w.indent_level, 0);
    assert_eq!(w.closing_brackets, 0);
    let s = String::from_utf8(w.writer).unwrap();
    assert_eq!(s.matches('{').count(), 2);
    assert_eq!(s.matches('}').count(), 2);
}

#[test]
fn generate_through_the_trait() {
    let mut w = writer();
    let root = IRRoot { body: vec![IRNode::GenericExpression(JsExpr::Simple("count + 1"))] };
    CodeGenerator::generate(&mut w, root).unwrap();
    assert_eq!(written(w), format!("{}count + 1{}", OPENING, CLOSING));
}

#[test]
fn several_root_nodes_become_one_array() {
    let root = IRRoot {
        body: vec![
            text(vec![lit("a")]),
            IRNode::GenericExpression(JsExpr::Src("b")),
            IRNode::CommentCall("c"),
        ],
    };
    assert_eq!(
        generated(root),
        format!("{}[\"a\", b, _createCommentVNode(\"c\")]{}", OPENING, CLOSING)
    );
}

#[test]
fn new_writer_starts_at_depth_zero() {
    let w = writer();
    assert_eq!(w.indent_level, 0);
    assert_eq!(w.closing_brackets, 0);
    assert!(w.writer.is_empty());
}

#[test]
fn prologue_opens_two_blocks() {
    let mut w = writer();
    let root: BaseRoot<'static> = IRRoot { body: vec![] };
    w.generate_prologue(&root).unwrap();
    assert_eq!(w.indent_level, 2);
    assert_eq!(w.closing_brackets, 2);
    assert_eq!(written(w), OPENING);
}

#[test]
fn epilogue_closes_what_is_open() {
    let mut w = writer();
    w.indent_level = 3;
    w.closing_brackets = 3;
    w.generate_epilogue().unwrap();
    assert_eq!(w.indent_level, 0);
    assert_eq!(w.closing_brackets, 0);
    assert_eq!(written(w), "\n    }\n  }\n}");
}

#[test]
fn epilogue_with_nothing_open_writes_nothing() {
    let mut w = writer();
    w.generate_epilogue().unwrap();
    assert_eq!(written(w), "");
}

#[test]
fn nested_generation_is_indented_deeper() {
    let mut w = writer();
    w.indent_level = 1;
    w.closing_brackets = 1;
    let root: BaseRoot<'static> = IRRoot { body: vec![] };
    w.generate_root(root).unwrap();
    assert_eq!(w.indent_level, 0);
    assert_eq!(
        written(w),
        "return function render(_ctx, _cache) {\n    with (_ctx) {\n      return null\n    }\n  }\n}"
    );
}

#[test]
fn signature_and_scope_blocks() {
    let mut w = writer();
    w.generate_preamble().unwrap();
    w.generate_function_signature().unwrap();
    assert_eq!((w.indent_level, w.closing_brackets), (1, 1));
    w.generate_with_block().unwrap();
    assert_eq!((w.indent_level, w.closing_brackets), (2, 2));
    w.generate_assets().unwrap();
    assert_eq!(
        written(w),
        "return function render(_ctx, _cache) {\n  with (_ctx) {\n    "
    );
}

#[test]
fn newline_pads_two_spaces_per_level() {
    let mut w = writer();
    w.newline().unwrap();
    w.indent_level = 3;
    w.newline().unwrap();
    assert_eq!(written(w), "\n\n      ");
}

#[test]
fn indent_and_deindent_are_matched() {
    let mut w = writer();
    w.indent().unwrap();
    assert_eq!(w.indent_level, 1);
    w.indent().unwrap();
    assert_eq!(w.indent_level, 2);
    w.deindent(true).unwrap();
    assert_eq!(w.indent_level, 1);
    w.deindent(false).unwrap();
    assert_eq!(w.indent_level, 0);
    assert_eq!(w.closing_brackets, 0);
    assert_eq!(written(w), "\n  \n    \n  ");
}

/// A sink that takes a given number of writes and rejects every later one.
struct Closing {
    left: usize,
    calls: usize,
    taken: Vec<u8>,
}

impl CodeGenWrite for Closing {
    type Error = String;

    fn write_all(&mut self, buf: &[u8]) -> Result<(), String> {
        self.calls += 1;
        if self.left == 0 {
            return Err(format!("closed at write {}", self.calls));
        }
        self.left -= 1;
        self.taken.extend_from_slice(buf);
        Ok(())
    }
}

fn closing_writer(left: usize) -> CodeWriter<'static, Closing> {
    CodeWriter::new(Closing { left, calls: 0, taken: vec![] }, CodeGenerateOption::default())
}

#[test]
fn sink_failure_is_propagated_at_once() {
    let mut w = closing_writer(0);
    let root = IRRoot { body: vec![text(vec![lit("x")])] };
    let r = w.generate_root(root);
    assert_eq!(r, Err("closed at write 1".to_string()));
    assert_eq!(w.writer.calls, 1);
    assert!(w.writer.taken.is_empty());
}

#[test]
fn sink_failure_in_the_middle_stops_the_walk() {
    let mut w = closing_writer(2);
    let r = w.generate_js_expr(JsExpr::Array(vec![
        JsExpr::Src("a"),
        JsExpr::Src("b"),
        JsExpr::Src("c"),
    ]));
    assert_eq!(r, Err("closed at write 3".to_string()));
    assert_eq!(w.writer.calls, 3);
    assert_eq!(w.writer.taken, b"[a".to_vec());
}

#[test]
fn sink_that_takes_everything_gets_the_same_bytes() {
    let mut w = closing_writer(usize::MAX);
    let root = IRRoot { body: vec![text(vec![lit("hello"), lit("world")])] };
    w.generate_root(root).unwrap();
    assert_eq!(
        String::from_utf8(w.writer.taken).unwrap(),
        format!("{}\"hello\" + \"world\"{}", OPENING, CLOSING)
    );
}

#[test]
fn helper_symbol_in_root() {
    let root = IRRoot { body: vec![IRNode::GenericExpression(JsExpr::Symbol(RuntimeHelper::Fragment))] };
    assert_eq!(generated(root), format!("{}_Fragment{}", OPENING, CLOSING));
}
