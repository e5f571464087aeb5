use dashboard_proto::dispatch::resolve_template_in;
use dashboard_proto::json::Json;
use dashboard_proto::layout::{decode, encode, Layout, LayoutEnvelope};
use dashboard_proto::pointer::{parse_index, parse_tokens};
use dashboard_proto::sync::{apply_patch, DashboarRx, ReceiveError, Receiver};
use dashboard_proto::ui::{
    BoolButton, BoolButtonState, Button, ButtonState, CheckBoxInputField, DashboarTx, Form, Heading,
    HeadingFormat,
    InlineStyle, InputField, TextInputField, Ui,
};
use dashboard_proto::value::{resolve, ResolutionFailure, Value};

fn s(t: &str) -> String {
    t.to_string()
}

fn obj(members: Vec<(&str, Json)>) -> Json {
    Json::Object(members.into_iter().map(|(k, v)| (s(k), v)).collect())
}

fn num(n: i64) -> Json {
    Json::Number(serde_json::Number::from(n))
}

fn op(text: &str) -> json_patch::PatchOperation {
    serde_json::from_str(text).unwrap()
}

fn pointer(p: &str) -> Json {
    obj(vec![("pointer", Json::Str(s(p)))])
}

fn toggle() -> BoolButton {
    BoolButton::builder()
        .pointer(s("/active"))
        .state(
            BoolButtonState::builder()
                .on(ButtonState::builder().value(Value::Fixed(s("ON"))).color(s("green")).build())
                .off(ButtonState::builder().value(Value::Fixed(s("OFF"))).color(s("red")).build())
                .build(),
        )
}

#[test]
fn inline_style_maps_to_its_element() {
    assert_eq!(InlineStyle::Bold.to_node(), "strong");
    assert_eq!(InlineStyle::Kbd.to_node(), "kbd");
    assert_eq!(InlineStyle::Unstyled.to_node(), "text");
    assert_eq!(InlineStyle::StrikeThrough.to_node(), "s");
    assert_eq!(InlineStyle::Highlighted.to_node(), "mark");
}

#[test]
fn style_names_are_lower_case() {
    assert_eq!(HeadingFormat::H3.as_str(), "h3");
}

#[test]
fn input_field_name() {
    let f = InputField::Text(TextInputField { name: s("email"), label: s("E-mail") });
    assert_eq!(f.name(), "email");
}

#[test]
fn fixed_value_ignores_document() {
    let doc = Json::Null;
    assert_eq!(resolve(Value::Fixed(s("hello")), &doc).unwrap(), "hello");
    assert_eq!(resolve(Value::Fixed(true), &doc).unwrap(), true);
}

#[test]
fn pointer_reads_nested_values() {
    let doc = obj(vec![
        ("user", obj(vec![("name", Json::Str(s("ada"))), ("a/b", num(1)), ("m~n", num(2))])),
        ("list", Json::Array(vec![Json::Str(s("x")), Json::Str(s("y"))])),
    ]);
    assert_eq!(resolve::<String>(Value::Pointer(s("/user/name")), &doc).unwrap(), "ada");
    assert_eq!(resolve::<String>(Value::Pointer(s("/list/1")), &doc).unwrap(), "y");
    let n = resolve::<serde_json::Number>(Value::Pointer(s("/user/a~1b")), &doc).unwrap();
    assert_eq!(n, serde_json::Number::from(1));
    let n = resolve::<serde_json::Number>(Value::Pointer(s("/user/m~0n")), &doc).unwrap();
    assert_eq!(n, serde_json::Number::from(2));
}

#[test]
fn pointer_failures_are_reported() {
    let doc = obj(vec![("list", Json::Array(vec![num(5)])), ("flag", Json::Bool(true))]);
    let e = resolve::<String>(Value::Pointer(s("/flag")), &doc).unwrap_err();
    assert_eq!(e.reason, ResolutionFailure::WrongType);
    assert_eq!(e.path, "/flag");
    let e = resolve::<bool>(Value::Pointer(s("/missing")), &doc).unwrap_err();
    assert_eq!(e.reason, ResolutionFailure::Absent);
    let e = resolve::<bool>(Value::Pointer(s("/list/01")), &doc).unwrap_err();
    assert_eq!(e.reason, ResolutionFailure::Absent);
    let e = resolve::<bool>(Value::Pointer(s("/list/1")), &doc).unwrap_err();
    assert_eq!(e.reason, ResolutionFailure::Absent);
    let e = resolve::<bool>(Value::Pointer(s("flag")), &doc).unwrap_err();
    assert_eq!(e.reason, ResolutionFailure::Malformed);
    let e = resolve::<bool>(Value::Pointer(s("/fl~2ag")), &doc).unwrap_err();
    assert_eq!(e.reason, ResolutionFailure::Malformed);
}

#[test]
fn pointer_tokens_are_unescaped() {
    assert_eq!(parse_tokens("").unwrap(), Vec::<String>::new());
    assert_eq!(parse_tokens("/").unwrap(), vec![s("")]);
    assert_eq!(parse_tokens("/a~1b/c~0d/").unwrap(), vec![s("a/b"), s("c~d"), s("")]);
    assert!(parse_tokens("a").is_none());
    assert!(parse_tokens("/a~").is_none());
    assert_eq!(parse_index(&s("12"), 13), Some(12));
    assert_eq!(parse_index(&s("12"), 12), None);
    assert_eq!(parse_index(&s("0"), 1), Some(0));
    assert_eq!(parse_index(&s("-"), 5), None);
    assert_eq!(parse_index(&s("99999999999999999999999"), 5), None);
}

#[test]
fn layout_round_trip() {
    let nodes = vec![Heading::builder().value(Value::Fixed(s("Title"))).build_ui()];
    let expected = vec![Heading::builder().value(Value::Fixed(s("Title"))).build_ui()];
    let envelope = encode(nodes).to_envelope();
    assert_eq!(envelope.version, "v0");
    assert_eq!(decode(envelope).unwrap(), Layout::V0(expected));
}

#[test]
fn unknown_layout_version_is_refused() {
    let mut rx = Receiver::new();
    let first = LayoutEnvelope { version: s("v0"), layout: vec![Heading::builder().build_ui()] };
    assert!(rx.receive_envelope(first).is_ok());
    let other = LayoutEnvelope { version: s("v7"), layout: vec![] };
    let e = rx.receive_envelope(other).unwrap_err();
    assert_eq!(e.version, "v7");
    assert_eq!(rx.layout, Some(Layout::V0(vec![Heading::builder().build_ui()])));
    let e = decode(LayoutEnvelope { version: s("v7"), layout: vec![] }).unwrap_err();
    assert_eq!(e.version, "v7");
}

#[test]
fn layout_message_replaces_tree_only() {
    let mut rx = Receiver::new();
    rx.receive(DashboarRx::DataSnapshot(num(1))).unwrap();
    rx.receive(DashboarRx::Layout(Layout::V0(vec![]))).unwrap();
    assert_eq!(rx.layout, Some(Layout::V0(vec![])));
    assert_eq!(rx.document, Some(num(1)));
}

#[test]
fn snapshot_twice_keeps_document() {
    let mut rx = Receiver::new();
    let d = obj(vec![("a", num(1))]);
    rx.receive(DashboarRx::DataSnapshot(d.clone())).unwrap();
    assert_eq!(rx.document, Some(d.clone()));
    rx.receive(DashboarRx::DataSnapshot(d.clone())).unwrap();
    assert_eq!(rx.document, Some(d));
}

#[test]
fn patch_before_snapshot_is_an_ordering_error() {
    let mut rx = Receiver::new();
    let r = rx.receive(DashboarRx::DataPatch(vec![op(r#"{"op":"add","path":"/a","value":1}"#)]));
    assert_eq!(r, Err(ReceiveError::ProtocolOrdering));
    assert_eq!(rx.document, None);
}

#[test]
fn failed_patch_leaves_document_unchanged() {
    let mut rx = Receiver::new();
    let d = obj(vec![("a", num(1))]);
    rx.receive(DashboarRx::DataSnapshot(d.clone())).unwrap();
    let ops = vec![
        op(r#"{"op":"replace","path":"/a","value":2}"#),
        op(r#"{"op":"add","path":"/b","value":3}"#),
        op(r#"{"op":"test","path":"/a","value":7}"#),
    ];
    match rx.receive(DashboarRx::DataPatch(ops)) {
        Err(ReceiveError::PatchApplication(e)) => assert_eq!(e.operation, 2),
        other => panic!("unexpected {:?}", other),
    }
    assert_eq!(rx.document, Some(d));
}

#[test]
fn remove_of_missing_member_fails() {
    let d = obj(vec![("a", num(1))]);
    let e = apply_patch(&d, &vec![op(r#"{"op":"remove","path":"/zz"}"#)]).unwrap_err();
    assert_eq!(e.operation, 0);
}

#[test]
fn patches_in_order_equal_their_concatenation() {
    let d0 = obj(vec![("a", num(1)), ("list", Json::Array(vec![]))]);
    let first = vec![op(r#"{"op":"add","path":"/list/-","value":"x"}"#), op(r#"{"op":"copy","from":"/a","path":"/b"}"#)];
    let second = vec![op(r#"{"op":"move","from":"/b","path":"/c"}"#), op(r#"{"op":"remove","path":"/a"}"#)];
    let mut one = Receiver::new();
    one.receive(DashboarRx::DataSnapshot(d0.clone())).unwrap();
    one.receive(DashboarRx::DataPatch(first.clone())).unwrap();
    one.receive(DashboarRx::DataPatch(second.clone())).unwrap();
    let mut two = Receiver::new();
    two.receive(DashboarRx::DataSnapshot(d0)).unwrap();
    let mut joined = first;
    joined.extend(second);
    two.receive(DashboarRx::DataPatch(joined)).unwrap();
    assert_eq!(one.document, two.document);
    let expected = obj(vec![("c", num(1)), ("list", Json::Array(vec![Json::Str(s("x"))]))]);
    assert_eq!(one.document, Some(expected));
}

#[test]
fn toggle_shows_off_then_on() {
    let mut rx = Receiver::new();
    rx.receive(DashboarRx::DataSnapshot(obj(vec![("active", Json::Bool(false))]))).unwrap();
    let b = toggle();
    let shown = b.displayed_state(rx.document.as_ref().unwrap()).unwrap();
    assert_eq!(shown.value, Value::Fixed(s("OFF")));
    assert_eq!(shown.color, "red");
    rx.receive(DashboarRx::DataPatch(vec![op(r#"{"op":"replace","path":"/active","value":true}"#)]))
        .unwrap();
    let shown = b.displayed_state(rx.document.as_ref().unwrap()).unwrap();
    assert_eq!(shown.value, Value::Fixed(s("ON")));
    assert_eq!(shown.color, "green");
}

#[test]
fn toggle_without_states_shows_default() {
    let b = BoolButton::builder().pointer(s("/on"));
    let shown = b.displayed_state(&obj(vec![("on", Json::Bool(true))])).unwrap();
    assert_eq!(shown.value, Value::Fixed(s("")));
    assert_eq!(shown.color, "var(--secondary)");
    let e = b.displayed_state(&obj(vec![("on", num(1))])).unwrap_err();
    assert_eq!(e.reason, ResolutionFailure::WrongType);
}

#[test]
fn button_dispatch_resolves_pointers() {
    let template = obj(vec![("action", Json::Str(s("save"))), ("id", pointer("/current_id"))]);
    let button = Button::builder()
        .value(Value::Fixed(s("Save")))
        .on_click(DashboarTx::Msg { template });
    let doc = obj(vec![("current_id", num(42))]);
    let sent = button.on_click.as_ref().unwrap().resolve(&doc).unwrap();
    let expected = obj(vec![("action", Json::Str(s("save"))), ("id", num(42))]);
    assert_eq!(sent, DashboarTx::Msg { template: expected });
    match button.build_ui() {
        Ui::Button(b) => assert_eq!(b.value, Some(Value::Fixed(s("Save")))),
        _ => panic!("not a button"),
    }
}

#[test]
fn dispatch_aborts_on_unresolved_pointer() {
    let template = Json::Array(vec![num(1), obj(vec![("deep", pointer("/nope"))])]);
    let e = resolve_template_in(&template, &obj(vec![])).unwrap_err();
    assert_eq!(e.path, "/nope");
    assert_eq!(e.reason, ResolutionFailure::Absent);
}

#[test]
fn template_without_pointers_is_unchanged() {
    let template = obj(vec![("pointer", num(3)), ("k", Json::Array(vec![Json::Null]))]);
    let r = resolve_template_in(&template, &Json::Null).unwrap();
    assert_eq!(r, template);
}

#[test]
fn form_submission_merges_entered_values() {
    let fields = vec![
        InputField::Text(TextInputField { name: s("email"), label: s("E-mail") }),
        InputField::CheckBox(CheckBoxInputField { name: s("agree"), label: s("Agree") }),
    ];
    let template = obj(vec![("action", Json::Str(s("signup"))), ("email", Json::Null), ("who", pointer("/user"))]);
    let form = Form::builder().fields(fields).on_submit(DashboarTx::Msg { template });
    let values = obj(vec![("email", Json::Str(s("a@b.c"))), ("agree", Json::Bool(true))]);
    let doc = obj(vec![("user", num(7))]);
    let sent = form.submission(&values, &doc).unwrap().unwrap();
    let expected = obj(vec![
        ("action", Json::Str(s("signup"))),
        ("email", Json::Str(s("a@b.c"))),
        ("who", num(7)),
        ("agree", Json::Bool(true)),
    ]);
    assert_eq!(sent, DashboarTx::Msg { template: expected });
    assert_eq!(Form::builder().submission(&values, &doc).unwrap(), None);
}

#[test]
fn empty_condition_is_refused() {
    assert_eq!(dashboard_proto::ui::Disabled::condition(s("")), None);
    assert_eq!(
        dashboard_proto::ui::Disabled::condition(s("/busy")),
        Some(dashboard_proto::ui::Disabled::Condition(s("/busy")))
    );
}
