use std::sync::Arc;
use thirtyfour::alert::Alert;
use thirtyfour::command::{Command, Method, RequestData};
use thirtyfour::error::{Shape, WebDriverError, WebDriverResult};
use thirtyfour::json::{object_to_text, take_member, Json};
use thirtyfour::keys::{Key, TypingData, TypingUnit};
use thirtyfour::session::{Reply, SessionHandle};

fn handle() -> SessionHandle {
    SessionHandle::new("http://localhost:4444", "abc123")
}

fn obj(members: Vec<(&str, Json)>) -> Json {
    Json::Object(members.into_iter().map(|(k, v)| (k.to_string(), v)).collect())
}

fn s(t: &str) -> Json {
    Json::Str(t.to_string())
}

fn ok_reply(value: Json) -> Reply {
    Reply::Received { status: 200, body: Some(obj(vec![("value", value)])) }
}

fn no_such_alert() -> Reply {
    Reply::Received {
        status: 404,
        body: Some(obj(vec![(
            "value",
            obj(vec![("error", s("no such alert")), ("message", s("no alert open"))]),
        )])),
    }
}

fn dbg<T: std::fmt::Debug>(r: &WebDriverResult<T>) -> String {
    format!("{:?}", r)
}

fn assert_no_such_alert<T: std::fmt::Debug>(r: WebDriverResult<T>) {
    match r {
        Err(WebDriverError::Protocol { status, error, message }) => {
            assert_eq!(status, 404);
            assert_eq!(error, "no such alert");
            assert_eq!(message, Some("no alert open".to_string()));
        }
        other => panic!("expected a protocol error, got {:?}", other),
    }
}

#[test]
fn get_alert_text_request_is_a_get_without_body() {
    let r = handle().cmd(&Command::GetAlertText);
    assert_eq!(r.method, Method::Get);
    assert_eq!(r.path, "/session/abc123/alert/text");
    assert_eq!(r.body, None);
}

#[test]
fn dismiss_and_accept_post_empty_objects() {
    let d = handle().cmd(&Command::DismissAlert);
    assert_eq!(d.method, Method::Post);
    assert_eq!(d.path, "/session/abc123/alert/dismiss");
    assert_eq!(d.body, Some("{}".to_string()));
    let a = handle().cmd(&Command::AcceptAlert);
    assert_eq!(a.method, Method::Post);
    assert_eq!(a.path, "/session/abc123/alert/accept");
    assert_eq!(a.body, Some("{}".to_string()));
}

#[test]
fn send_hello_is_sent_verbatim() {
    let r = handle().cmd(&Command::SendAlertText(TypingData::from_text("hello")));
    assert_eq!(r.method, Method::Post);
    assert_eq!(r.path, "/session/abc123/alert/text");
    assert_eq!(r.body, Some("{\"text\":\"hello\"}".to_string()));
}

#[test]
fn control_then_a_renders_marker_first() {
    let mut keys = TypingData::from_key(Key::Control);
    keys.push_text("a");
    assert_eq!(keys.units(), &vec![TypingUnit::Press(Key::Control), TypingUnit::Text('a')]);
    assert_eq!(keys.render(), "\u{E009}a");
    let r = handle().cmd(&Command::SendAlertText(keys));
    assert_eq!(r.body, Some("{\"text\":\"\u{E009}a\"}".to_string()));
}

#[test]
fn key_codes_follow_the_protocol_table() {
    assert_eq!(Key::Null.code(), '\u{E000}');
    assert_eq!(Key::Enter.code(), '\u{E007}');
    assert_eq!(Key::Shift.code(), '\u{E008}');
    assert_eq!(Key::Alt.code(), '\u{E00A}');
    assert_eq!(Key::Delete.code(), '\u{E017}');
    assert_eq!(Key::Meta.code(), '\u{E03D}');
}

#[test]
fn plain_text_never_becomes_key_actions() {
    let keys = TypingData::from_text("\u{E009}x");
    assert_eq!(keys.units(), &vec![TypingUnit::Text('\u{E009}'), TypingUnit::Text('x')]);
    assert_eq!(TypingData::new().render(), "");
}

#[test]
fn body_text_escapes_quotes_and_controls() {
    let r = handle().cmd(&Command::SendAlertText(TypingData::from_text("a\"b\\c\nd\t\u{1}\u{1f}")));
    assert_eq!(
        r.body,
        Some("{\"text\":\"a\\\"b\\\\c\\nd\\t\\u0001\\u001f\"}".to_string())
    );
}

#[test]
fn object_text_joins_members_in_order() {
    let ms = vec![("a".to_string(), "1".to_string()), ("b".to_string(), "2".to_string())];
    assert_eq!(object_to_text(&ms), "{\"a\":\"1\",\"b\":\"2\"}");
    assert_eq!(object_to_text(&Vec::new()), "{}");
}

#[test]
fn url_joins_server_and_path() {
    let h = handle();
    let r = h.cmd(&Command::AcceptAlert);
    assert_eq!(h.url_of(&r), "http://localhost:4444/session/abc123/alert/accept");
    assert_eq!(h.session_id(), "abc123");
    assert_eq!(h.server_url(), "http://localhost:4444");
}

#[test]
fn alert_text_is_read_from_value() {
    let r = handle().get_alert_text(ok_reply(s("Are you sure?")));
    assert_eq!(r.unwrap(), "Are you sure?");
}

#[test]
fn null_value_is_a_decode_error() {
    let r = handle().get_alert_text(ok_reply(Json::Null));
    assert!(matches!(
        r,
        Err(WebDriverError::Decode { expected: Shape::Text, found: Some(Json::Null) })
    ));
}

#[test]
fn number_value_is_a_decode_error() {
    let r = handle().get_alert_text(ok_reply(Json::Number("42".to_string())));
    match r {
        Err(WebDriverError::Decode { expected: Shape::Text, found: Some(Json::Number(n)) }) => {
            assert_eq!(n, "42")
        }
        other => panic!("expected a decode error, got {:?}", other),
    }
}

#[test]
fn missing_value_is_a_decode_error() {
    let r = handle().get_alert_text(Reply::Received { status: 200, body: Some(obj(vec![])) });
    assert!(matches!(r, Err(WebDriverError::Decode { expected: Shape::Text, found: None })));
}

#[test]
fn unit_operations_accept_any_value() {
    let h = handle();
    assert!(h.dismiss_alert(Reply::Received { status: 200, body: Some(obj(vec![])) }).is_ok());
    assert!(h.accept_alert(ok_reply(Json::Null)).is_ok());
    assert!(h.send_alert_text(ok_reply(Json::Bool(true))).is_ok());
    assert!(h.dismiss_alert(Reply::Received { status: 204, body: Some(Json::Array(vec![])) }).is_ok());
}

#[test]
fn driver_error_surfaces_from_every_operation() {
    let h = handle();
    assert_no_such_alert(h.get_alert_text(no_such_alert()));
    assert_no_such_alert(h.dismiss_alert(no_such_alert()));
    assert_no_such_alert(h.accept_alert(no_such_alert()));
    assert_no_such_alert(h.send_alert_text(no_such_alert()));
}

#[test]
fn error_object_without_message() {
    let reply = Reply::Received {
        status: 200,
        body: Some(obj(vec![("value", obj(vec![("error", s("unexpected alert open"))]))])),
    };
    match handle().accept_alert(reply) {
        Err(WebDriverError::Protocol { status, error, message }) => {
            assert_eq!(status, 200);
            assert_eq!(error, "unexpected alert open");
            assert_eq!(message, None);
        }
        other => panic!("expected a protocol error, got {:?}", other),
    }
}

#[test]
fn transport_failure_is_kept() {
    let r = handle().get_alert_text(Reply::Failed("connection refused".to_string()));
    match r {
        Err(WebDriverError::Transport(m)) => assert_eq!(m, "connection refused"),
        other => panic!("expected a transport error, got {:?}", other),
    }
}

#[test]
fn unusable_replies_are_malformed() {
    let h = handle();
    let r = h.dismiss_alert(Reply::Received { status: 200, body: None });
    assert!(matches!(r, Err(WebDriverError::MalformedResponse { status: 200 })));
    let r = h.accept_alert(Reply::Received { status: 500, body: Some(obj(vec![("value", Json::Null)])) });
    assert!(matches!(r, Err(WebDriverError::MalformedResponse { status: 500 })));
}

#[test]
fn complete_hands_back_the_value() {
    let v = handle().complete(ok_reply(Json::Bool(false))).unwrap();
    assert!(matches!(v, Some(Json::Bool(false))));
}

#[test]
fn first_member_of_a_name_wins() {
    let o = obj(vec![("k", s("first")), ("k", s("second"))]);
    assert!(matches!(take_member(o, "k"), Some(Json::Str(t)) if t == "first"));
    assert!(take_member(Json::Null, "k").is_none());
}

#[test]
fn facade_matches_handle() {
    let shared = Arc::new(handle());
    let alert = Alert::new(shared.clone());
    let replies = || vec![ok_reply(s("Are you sure?")), ok_reply(Json::Null), no_such_alert(), Reply::Failed("reset".to_string())];
    for (a, b) in replies().into_iter().zip(replies()) {
        assert_eq!(dbg(&alert.text(a)), dbg(&shared.get_alert_text(b)));
    }
    for (a, b) in replies().into_iter().zip(replies()) {
        assert_eq!(dbg(&alert.dismiss(a)), dbg(&shared.dismiss_alert(b)));
    }
    for (a, b) in replies().into_iter().zip(replies()) {
        assert_eq!(dbg(&alert.accept(a)), dbg(&shared.accept_alert(b)));
    }
    for (a, b) in replies().into_iter().zip(replies()) {
        assert_eq!(dbg(&alert.send_keys(a)), dbg(&shared.send_alert_text(b)));
    }
    let same = |r: RequestData, c: Command| assert_eq!(r, shared.cmd(&c));
    same(alert.text_request(), Command::GetAlertText);
    same(alert.dismiss_request(), Command::DismissAlert);
    same(alert.accept_request(), Command::AcceptAlert);
    same(
        alert.send_keys_request(TypingData::from_text("selenium")),
        Command::SendAlertText(TypingData::from_text("selenium")),
    );
}

#[test]
fn replies_on_one_handle_stay_apart() {
    let shared = Arc::new(handle());
    let first = Alert::new(shared.clone());
    let second = Alert::new(shared.clone());
    let a = first.text(ok_reply(s("one")));
    let b = second.text(ok_reply(s("two")));
    assert_eq!(a.unwrap(), "one");
    assert_eq!(b.unwrap(), "two");
}
