use std::borrow::Cow;
use template_codegen::escape::{push_escaped, push_escaped_byte, quote};
use template_codegen::{
    are_emittable, is_emittable, BaseNode, CodeGenerateOption, CodeWriter, CoreCodeGenerator,
    DecodedStr, EntityDecoder, ForNodeIR, IRNode, IfNodeIR, JsExpr, Passthrough, RenderSlotIR,
    RuntimeHelper, TextList, VNodeIR, VSlotIR,
};

fn writer() -> CodeWriter<'static, Vec<u8>> {
    CodeWriter::new(vec![], CodeGenerateOption::default())
}

fn lit(s: &str) -> JsExpr<'_> {
    JsExpr::StrLit(DecodedStr::from(s))
}

fn expr(e: JsExpr<'_>) -> String {
    let mut w = writer();
    w.generate_js_expr(e).unwrap();
    assert_eq!((w.indent_level, w.closing_brackets), (0, 0));
    String::from_utf8(w.writer).unwrap()
}

fn node(n: BaseNode<'_>) -> String {
    let mut w = writer();
    w.generate_node(n).unwrap();
    assert_eq!((w.indent_level, w.closing_brackets), (0, 0));
    String::from_utf8(w.writer).unwrap()
}

fn text<'a>(items: Vec<JsExpr<'a>>) -> BaseNode<'a> {
    IRNode::TextCall(TextList::from_vec(items))
}

#[test]
fn source_is_copied() {
    assert_eq!(expr(JsExpr::Src("a.b(\"c\")")), "a.b(\"c\")");
}

#[test]
fn lowered_expression_is_copied() {
    assert_eq!(expr(JsExpr::Simple("foo ? 1 : 2")), "foo ? 1 : 2");
}

#[test]
fn string_literal_is_quoted() {
    assert_eq!(expr(lit("hello world")), "\"hello world\"");
}

#[test]
fn string_literal_is_escaped() {
    assert_eq!(expr(lit("say \"hi\"\\\n")), "\"say \\\"hi\\\"\\\\\\n\"");
}

#[test]
fn string_literal_keeps_non_ascii_text() {
    assert_eq!(expr(lit("gr\u{fc}\u{df} \u{4f60}\u{597d}")), "\"gr\u{fc}\u{df} \u{4f60}\u{597d}\"");
}

#[test]
fn string_literal_of_several_fragments() {
    let mut d = DecodedStr::from("a ");
    d.push(Cow::Owned("<\"b\">".to_string()));
    d.push(Cow::Borrowed(" c"));
    assert_eq!(expr(JsExpr::StrLit(d)), "\"a <\\\"b\\\"> c\"");
}

#[test]
fn quote_short_escapes() {
    assert_eq!(quote(b"\x08\t\n\x0c\r"), b"\"\\b\\t\\n\\f\\r\"".to_vec());
}

#[test]
fn quote_other_control_bytes_as_hex() {
    assert_eq!(quote(b"\x00\x01\x1f\x0b"), b"\"\\u0000\\u0001\\u001f\\u000b\"".to_vec());
}

#[test]
fn quote_leaves_printable_and_high_bytes() {
    assert_eq!(quote(b" ~\x7f\xc3\xa9"), b"\" ~\x7f\xc3\xa9\"".to_vec());
}

#[test]
fn quote_empty_text() {
    assert_eq!(quote(b""), b"\"\"".to_vec());
}

#[test]
fn push_escaped_appends() {
    let mut out = b"x=".to_vec();
    push_escaped(&mut out, b"a\"b");
    push_escaped_byte(&mut out, b'\\');
    assert_eq!(out, b"x=a\\\"b\\\\".to_vec());
}

#[test]
fn helper_symbol_is_marked_once() {
    assert_eq!(expr(JsExpr::Symbol(RuntimeHelper::Fragment)), "_Fragment");
    assert_eq!(expr(JsExpr::Symbol(RuntimeHelper::CreateVNode)), "_createVNode");
}

#[test]
fn helper_names() {
    let table = [
        (RuntimeHelper::Fragment, "Fragment"),
        (RuntimeHelper::OpenBlock, "openBlock"),
        (RuntimeHelper::CreateBlock, "createBlock"),
        (RuntimeHelper::CreateVNode, "createVNode"),
        (RuntimeHelper::CreateComment, "createCommentVNode"),
        (RuntimeHelper::CreateText, "createTextVNode"),
        (RuntimeHelper::ResolveComponent, "resolveComponent"),
        (RuntimeHelper::RenderList, "renderList"),
        (RuntimeHelper::RenderSlot, "renderSlot"),
        (RuntimeHelper::WithCtx, "withCtx"),
        (RuntimeHelper::ToDisplayString, "toDisplayString"),
        (RuntimeHelper::MergeProps, "mergeProps"),
    ];
    for (helper, name) in table {
        assert_eq!(helper.helper_str(), name);
        assert!(!name.starts_with('_'));
        let mut w = writer();
        w.generate_helper(helper).unwrap();
        assert_eq!(String::from_utf8(w.writer).unwrap(), format!("_{}", name));
    }
}

#[test]
fn call_is_marked_once_and_wrapped() {
    assert_eq!(
        expr(JsExpr::Call(RuntimeHelper::ToDisplayString, vec![JsExpr::Simple("msg")])),
        "_toDisplayString(msg)"
    );
    assert_eq!(expr(JsExpr::Call(RuntimeHelper::OpenBlock, vec![])), "_openBlock()");
    assert_eq!(
        expr(JsExpr::Call(
            RuntimeHelper::ResolveComponent,
            vec![lit("comp"), JsExpr::Src("true")]
        )),
        "_resolveComponent(\"comp\", true)"
    );
}

#[test]
fn array_has_one_separator_less_than_items() {
    let names = ["a", "b", "c", "d"];
    for n in 0..=names.len() {
        let items: Vec<JsExpr<'static>> = names[..n].iter().map(|s| JsExpr::Src(s)).collect();
        let s = expr(JsExpr::Array(items));
        assert_eq!(s, format!("[{}]", names[..n].join(", ")));
        assert_eq!(s.matches(", ").count(), n.saturating_sub(1));
        assert!(s.starts_with('[') && s.ends_with(']'));
    }
}

#[test]
fn comma_separated_list() {
    let mut w = writer();
    w.gen_comma_separated(vec![]).unwrap();
    assert!(w.writer.is_empty());
    w.gen_comma_separated(vec![JsExpr::Src("x")]).unwrap();
    assert_eq!(w.writer, b"x".to_vec());
    let mut w = writer();
    w.gen_comma_separated(vec![JsExpr::Src("x"), lit("y"), JsExpr::Src("z")]).unwrap();
    assert_eq!(w.writer, b"x, \"y\", z".to_vec());
}

#[test]
fn compound_has_no_separator() {
    assert_eq!(
        expr(JsExpr::Compound(vec![JsExpr::Src("a"), JsExpr::Src("."), JsExpr::Src("b")])),
        "a.b"
    );
    assert_eq!(expr(JsExpr::Compound(vec![])), "");
}

#[test]
fn nested_expressions() {
    let e = JsExpr::Array(vec![
        JsExpr::Call(RuntimeHelper::MergeProps, vec![JsExpr::Array(vec![]), lit("x")]),
        JsExpr::Compound(vec![JsExpr::Src("a"), JsExpr::Array(vec![JsExpr::Src("0")])]),
    ]);
    assert_eq!(expr(e), "[_mergeProps([], \"x\"), a[0]]");
}

#[test]
fn props_empty_object() {
    assert_eq!(expr(JsExpr::Props(vec![])), "{}");
}

#[test]
fn props_static_and_computed_keys() {
    let e = JsExpr::Props(vec![
        (lit("id"), lit("app")),
        (JsExpr::Simple("key"), JsExpr::Simple("value")),
        (lit("on-click"), JsExpr::Src("handler")),
    ]);
    assert_eq!(expr(e), "{\"id\": \"app\", [key]: value, \"on-click\": handler}");
}

#[test]
fn props_nested_value() {
    let e = JsExpr::Props(vec![(lit("style"), JsExpr::Props(vec![(lit("color"), lit("red"))]))]);
    assert_eq!(expr(e), "{\"style\": {\"color\": \"red\"}}");
}

#[test]
fn conditional_is_a_choice_expression() {
    let n = IRNode::If(IfNodeIR {
        condition: JsExpr::Simple("ok"),
        consequent: Box::new(text(vec![lit("yes")])),
        alternate: Box::new(IRNode::CommentCall("v-if")),
    });
    assert_eq!(node(n), "ok ? \"yes\" : _createCommentVNode(\"v-if\")");
}

#[test]
fn conditional_chain() {
    let n = IRNode::If(IfNodeIR {
        condition: JsExpr::Simple("a"),
        consequent: Box::new(IRNode::GenericExpression(JsExpr::Src("1"))),
        alternate: Box::new(IRNode::If(IfNodeIR {
            condition: JsExpr::Simple("b"),
            consequent: Box::new(IRNode::GenericExpression(JsExpr::Src("2"))),
            alternate: Box::new(IRNode::GenericExpression(JsExpr::Src("3"))),
        })),
    });
    assert_eq!(node(n), "a ? 1 : b ? 2 : 3");
}

#[test]
fn loop_is_a_list_helper_call() {
    let n = IRNode::For(ForNodeIR {
        source: JsExpr::Simple("items"),
        params: vec![JsExpr::Src("item"), JsExpr::Src("index")],
        child: Box::new(text(vec![JsExpr::Simple("item")])),
    });
    assert_eq!(node(n), "_renderList(items, (item, index) => item)");
}

#[test]
fn loop_without_parameters() {
    let n = IRNode::For(ForNodeIR {
        source: JsExpr::Src("3"),
        params: vec![],
        child: Box::new(text(vec![lit("x")])),
    });
    assert_eq!(node(n), "_renderList(3, () => \"x\")");
}

#[test]
fn element_is_a_node_helper_call() {
    let n = IRNode::VNodeCall(VNodeIR {
        tag: lit("div"),
        props: JsExpr::Props(vec![(lit("id"), lit("app"))]),
        children: vec![
            text(vec![lit("hello "), JsExpr::Simple("name")]),
            IRNode::VNodeCall(VNodeIR {
                tag: lit("br"),
                props: JsExpr::Src("null"),
                children: vec![],
                flags: JsExpr::Src("0"),
            }),
        ],
        flags: JsExpr::Src("1"),
    });
    assert_eq!(
        node(n),
        "_createVNode(\"div\", {\"id\": \"app\"}, [\"hello \" + name, _createVNode(\"br\", null, [], 0)], 1)"
    );
}

#[test]
fn slot_outlet_carries_name_and_fallback() {
    let n = IRNode::RenderSlotCall(RenderSlotIR {
        slot_name: lit("default"),
        fallbacks: vec![text(vec![lit("none")]), IRNode::CommentCall("end")],
    });
    assert_eq!(
        node(n),
        "_renderSlot(\"default\", () => [\"none\", _createCommentVNode(\"end\")])"
    );
}

#[test]
fn slot_outlet_without_fallback() {
    let n = IRNode::RenderSlotCall(RenderSlotIR { slot_name: lit("header"), fallbacks: vec![] });
    assert_eq!(node(n), "_renderSlot(\"header\", () => [])");
}

#[test]
fn slot_definition_carries_name_and_content() {
    let n = IRNode::VSlotUse(VSlotIR {
        slot_name: lit("footer"),
        body: vec![text(vec![lit("bye")])],
    });
    assert_eq!(node(n), "_withCtx(\"footer\", () => [\"bye\"])");
}

#[test]
fn comment_text_is_quoted() {
    assert_eq!(node(IRNode::CommentCall(" a \"b\" ")), "_createCommentVNode(\" a \\\"b\\\" \")");
}

#[test]
fn node_list_is_comma_separated() {
    let mut w = writer();
    w.generate_nodes(vec![]).unwrap();
    assert!(w.writer.is_empty());
    w.generate_nodes(vec![
        IRNode::GenericExpression(JsExpr::Src("a")),
        IRNode::GenericExpression(JsExpr::Src("b")),
        IRNode::GenericExpression(JsExpr::Src("c")),
    ])
    .unwrap();
    assert_eq!(w.writer, b"a, b, c".to_vec());
}

fn alterable() -> BaseNode<'static> {
    IRNode::AlterableSlot(VSlotIR { slot_name: lit("s"), body: vec![] })
}

#[test]
fn alterable_slot_is_not_taken() {
    assert!(!is_emittable(&alterable()));
    assert!(!are_emittable(&vec![text(vec![lit("a")]), alterable()]));
}

#[test]
fn alterable_slot_is_found_at_any_depth() {
    let in_if = IRNode::If(IfNodeIR {
        condition: JsExpr::Src("c"),
        consequent: Box::new(text(vec![])),
        alternate: Box::new(alterable()),
    });
    assert!(!is_emittable(&in_if));
    let in_for = IRNode::For(ForNodeIR {
        source: JsExpr::Src("s"),
        params: vec![],
        child: Box::new(in_if),
    });
    assert!(!is_emittable(&in_for));
    let in_element = IRNode::VNodeCall(VNodeIR {
        tag: lit("p"),
        props: JsExpr::Src("null"),
        children: vec![IRNode::CommentCall("c"), in_for],
        flags: JsExpr::Src("0"),
    });
    assert!(!is_emittable(&in_element));
    let in_outlet =
        IRNode::RenderSlotCall(RenderSlotIR { slot_name: lit("n"), fallbacks: vec![in_element] });
    assert!(!is_emittable(&in_outlet));
    let in_slot = IRNode::VSlotUse(VSlotIR { slot_name: lit("n"), body: vec![in_outlet] });
    assert!(!is_emittable(&in_slot));
}

#[test]
fn resolved_nodes_are_taken() {
    let n = IRNode::VNodeCall(VNodeIR {
        tag: lit("p"),
        props: JsExpr::Src("null"),
        children: vec![
            text(vec![lit("a")]),
            IRNode::VSlotUse(VSlotIR { slot_name: lit("n"), body: vec![IRNode::CommentCall("c")] }),
            IRNode::GenericExpression(JsExpr::Src("x")),
        ],
        flags: JsExpr::Src("0"),
    });
    assert!(is_emittable(&n));
    assert!(are_emittable(&vec![]));
    assert!(are_emittable(&vec![n]));
}

#[test]
fn decoding_without_entities_borrows_the_input() {
    let input = String::from("plain text");
    let d = DecodedStr::from(input.as_str());
    let fragments = d.as_fragments();
    assert_eq!(fragments.len(), 1);
    match &fragments[0] {
        Cow::Borrowed(s) => {
            assert_eq!(*s, "plain text");
            assert_eq!(s.as_ptr(), input.as_ptr());
        }
        Cow::Owned(_) => panic!("the fragment was copied"),
    }
}

#[test]
fn passthrough_decoder_borrows_in_both_modes() {
    let input = String::from("a &amp; b");
    for as_attr in [false, true] {
        let d = Passthrough.decode(&input, as_attr);
        let fragments = d.as_fragments();
        assert_eq!(fragments.len(), 1);
        assert!(matches!(fragments[0], Cow::Borrowed("a &amp; b")));
    }
}

#[test]
fn decoded_text_keeps_the_order_of_fragments() {
    let mut d = DecodedStr::from("a");
    d.push(Cow::Owned("&".to_string()));
    d.push(Cow::Borrowed("b"));
    let fragments = d.as_fragments();
    assert_eq!(fragments.len(), 3);
    assert!(matches!(fragments[0], Cow::Borrowed("a")));
    assert!(matches!(&fragments[1], Cow::Owned(s) if s == "&"));
    assert!(matches!(fragments[2], Cow::Borrowed("b")));
    assert_eq!(d.to_js_string(), b"\"a&b\"".to_vec());
}

#[test]
fn text_list_keeps_order() {
    let t = TextList::from_vec(vec![JsExpr::Src("a"), JsExpr::Src("b"), JsExpr::Src("c")]);
    let back = t.into_vec();
    assert_eq!(back.len(), 3);
    assert!(matches!(back[0], JsExpr::Src("a")));
    assert!(matches!(back[1], JsExpr::Src("b")));
    assert!(matches!(back[2], JsExpr::Src("c")));
}

/// A decoder that knows one entity.
struct Ampersand;

impl EntityDecoder for Ampersand {
    fn decode<'a>(&self, text: &'a str, _as_attr: bool) -> DecodedStr<'a> {
        match text.find("&amp;") {
            None => DecodedStr::from(text),
            Some(at) => {
                let mut d = DecodedStr::from(&text[..at]);
                d.push(Cow::Owned("&".to_string()));
                d.push(Cow::Borrowed(&text[at + 5..]));
                d
            }
        }
    }
}

#[test]
fn a_decoder_can_be_plugged_in() {
    let option = CodeGenerateOption {
        is_ts: false,
        source_map: false,
        filename: String::new(),
        decode_entities: Ampersand,
    };
    let decoded = option.decode_entities.decode("a &amp; b", false);
    let mut w = CodeWriter::new(Vec::<u8>::new(), option);
    w.generate_js_expr(JsExpr::StrLit(decoded)).unwrap();
    assert_eq!(w.writer, b"\"a & b\"".to_vec());
}
