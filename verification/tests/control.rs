use groket_hud::control::{
    default_socket_path, initialize, initialize_notify, is_transient_control_error,
    is_transient_failure, is_transient_io_error, listener_next, notes_list, notification_of,
    read_notification, read_reply, reply_of, request_line, session_get, session_list, session_open,
    session_overview, session_timeline, session_turns, session_usage, socket_name, step_failed,
    Backoff, ConnectLoop, ControlError, IoKind, IoStep, ListenerAction, ListenerEvent, NextTry,
    RequestLoop, SocketPath, CONNECT_BUDGET_MS, LISTENER_CONNECT_PAUSE_MS, LISTENER_PAUSE_MS,
    REQUEST_BUDGET_MS,
};
use groket_hud::json;
use serde_json::Value;
use std::io::{Error, ErrorKind};

fn parsed(text: &str) -> Value {
    serde_json::from_str(text).expect("JSON")
}

fn message(err: ControlError) -> String {
    match err {
        ControlError::Message(m) => m,
        ControlError::Io(e) => panic!("unexpected {e}"),
        ControlError::Json(e) => panic!("unexpected {e}"),
    }
}

#[test]
fn eagain_os_error_35_is_transient() {
    let err = Error::from_raw_os_error(35);
    assert!(is_transient_io_error(&err));
}

#[test]
fn connection_refused_is_transient() {
    let err = Error::new(ErrorKind::ConnectionRefused, "refused");
    assert!(is_transient_io_error(&err));
}

#[test]
fn permission_denied_is_not_transient() {
    let err = Error::new(ErrorKind::PermissionDenied, "denied");
    assert!(!is_transient_io_error(&err));
}

#[test]
fn resource_temporarily_unavailable_message_is_transient() {
    let err = Error::new(
        ErrorKind::Other,
        "Resource temporarily unavailable (os error 35)",
    );
    assert!(is_transient_io_error(&err));
    let wrapped = ControlError::Message(
        "read initialize from /tmp/x: Resource temporarily unavailable (os error 35)".into(),
    );
    assert!(is_transient_control_error(&wrapped));
}

#[test]
fn every_transient_kind_is_worth_a_retry() {
    for kind in [
        ErrorKind::WouldBlock,
        ErrorKind::ConnectionRefused,
        ErrorKind::ConnectionReset,
        ErrorKind::ConnectionAborted,
        ErrorKind::NotFound,
        ErrorKind::Interrupted,
        ErrorKind::TimedOut,
        ErrorKind::BrokenPipe,
    ] {
        assert!(is_transient_io_error(&Error::new(kind, "x")), "{kind:?}");
    }
    for kind in [
        ErrorKind::PermissionDenied,
        ErrorKind::NotConnected,
        ErrorKind::InvalidData,
        ErrorKind::UnexpectedEof,
        ErrorKind::AddrInUse,
        ErrorKind::Other,
    ] {
        assert!(!is_transient_io_error(&Error::new(kind, "x")), "{kind:?}");
    }
    assert!(is_transient_failure(IoKind::BrokenPipe, None, "x"));
    assert!(!is_transient_failure(IoKind::PermissionDenied, None, "x"));
}

#[test]
fn codes_and_words_decide_when_the_kind_does_not() {
    for code in [2, 4, 11, 35, 54, 61, 104, 111] {
        assert!(is_transient_failure(IoKind::Other, Some(code), "x"), "{code}");
    }
    assert!(!is_transient_failure(IoKind::Other, Some(13), "permission denied"));
    assert!(is_transient_failure(IoKind::Other, Some(13), "BROKEN pipe"));
    for words in ["connection refused", "Connection reset by peer", "No such file or directory"] {
        assert!(is_transient_failure(IoKind::Other, None, words));
    }
    assert!(!is_transient_failure(IoKind::Other, None, "timed out"));
}

#[test]
fn messages_of_failed_requests_are_judged_by_their_words() {
    for words in [
        "empty control response for session/list (/tmp/x)",
        "TIMED OUT",
        "x (os error 35)",
        "x (os error 11)",
        "connection reset",
    ] {
        assert!(is_transient_control_error(&ControlError::Message(words.into())), "{words}");
    }
    assert!(!is_transient_control_error(&ControlError::Message("no such session".into())));
    assert!(is_transient_control_error(&ControlError::Io(Error::from_raw_os_error(35))));
    let bad = serde_json::from_str::<Value>("{").expect_err("not JSON");
    assert!(!is_transient_control_error(&ControlError::Json(bad)));
}

#[test]
fn errors_have_their_text() {
    assert_eq!(ControlError::Message("m".into()).to_text(), "m");
    assert_eq!(ControlError::Io(Error::new(ErrorKind::Other, "io")).to_text(), "io");
    let bad = serde_json::from_str::<Value>("{").expect_err("not JSON");
    let text = bad.to_string();
    assert_eq!(json::describe_error(&bad), text);
    assert_eq!(ControlError::Json(bad).to_text(), text);
}

#[test]
fn requests_have_their_method_and_parameters() {
    let call = initialize();
    assert_eq!(call.method, "initialize");
    assert_eq!(
        call.params,
        parsed(r#"{"protocolVersion":1,"clientInfo":{"name":"groket-hud"}}"#)
    );
    assert_eq!(
        initialize_notify().params,
        parsed(r#"{"protocolVersion":1,"clientInfo":{"name":"groket-hud-notify"}}"#)
    );
    let call = session_list("", 80);
    assert_eq!(call.method, "session/list");
    assert_eq!(call.params, parsed(r#"{"limit":80}"#));
    assert_eq!(session_list("fox", 5).params, parsed(r#"{"limit":5,"query":"fox"}"#));
    let call = session_open("/s/a", Some(3));
    assert_eq!(call.method, "session/open");
    assert_eq!(call.params, parsed(r#"{"session":"/s/a","promptIndex":3}"#));
    assert_eq!(
        session_open("/s/a", None).params,
        parsed(r#"{"session":"/s/a","promptIndex":null}"#)
    );
    let call = session_timeline("/s/a", 40, 20);
    assert_eq!(call.method, "session/timeline");
    assert_eq!(
        call.params,
        parsed(r#"{"session":"/s/a","limit":20,"offset":40,"contentChars":12000}"#)
    );
    let about = parsed(r#"{"session":"/s/a"}"#);
    for (call, method) in [
        (session_get("/s/a"), "session/get"),
        (session_overview("/s/a"), "session/overview"),
        (session_turns("/s/a"), "session/turns"),
        (notes_list("/s/a"), "notes/list"),
        (session_usage("/s/a"), "session/usage"),
    ] {
        assert_eq!(call.method, method);
        assert_eq!(call.params, about);
    }
}

#[test]
fn a_request_is_one_line() {
    let line = request_line(&session_get("s")).ok().expect("line");
    assert!(line.ends_with('\n'));
    assert_eq!(line.matches('\n').count(), 1);
    assert_eq!(
        parsed(line.trim()),
        parsed(r#"{"jsonrpc":"2.0","id":1,"method":"session/get","params":{"session":"s"}}"#)
    );
}

#[test]
fn a_reply_is_its_result_or_its_error() {
    let ok = read_reply("m", "/p", "{\"result\":{\"a\":1}}\n").ok().expect("result");
    assert_eq!(ok, parsed(r#"{"a":1}"#));
    assert_eq!(read_reply("m", "/p", "{}\n").ok(), Some(Value::Null));
    let err = read_reply("m", "/p", r#"{"error":{"message":"no such session"},"result":1}"#);
    assert_eq!(message(err.expect_err("error")), "no such session");
    let err = reply_of(&parsed(r#"{"error":{"message":7}}"#));
    assert_eq!(message(err.expect_err("error")), "control error");
    let err = reply_of(&parsed(r#"{"error":null}"#));
    assert_eq!(message(err.expect_err("error")), "control error");
    let err = read_reply("session/list", "/run/c.sock", " \n");
    assert_eq!(
        message(err.expect_err("blank")),
        "empty control response for session/list (/run/c.sock)"
    );
    let err = read_reply("m", "/p", "not json\n").expect_err("bad line");
    assert!(matches!(err, ControlError::Json(_)));
}

#[test]
fn failed_steps_name_the_step() {
    let err = Error::new(ErrorKind::Other, "boom");
    for (step, text) in [
        (IoStep::SetReadTimeout, "set read timeout: boom"),
        (IoStep::SetWriteTimeout, "set write timeout: boom"),
        (IoStep::Write, "write m: boom"),
        (IoStep::Flush, "flush m: boom"),
        (IoStep::Read, "read m from /p: boom"),
    ] {
        assert_eq!(message(step_failed(step, "m", "/p", &err)), text);
    }
}

#[test]
fn pauses_double_up_to_the_longest() {
    let mut pauses = Backoff::new();
    let got: Vec<u64> = (0..6).map(|_| pauses.pause()).collect();
    assert_eq!(got, vec![25, 50, 100, 200, 250, 250]);
}

#[test]
fn connecting_is_retried_within_its_budget() {
    let mut attempts = ConnectLoop::new("/run/c.sock", 1_000);
    assert!(attempts.may_try(1_000));
    assert!(attempts.may_try(1_000 + CONNECT_BUDGET_MS - 1));
    assert!(!attempts.may_try(1_000 + CONNECT_BUDGET_MS));
    let again = attempts.failed(Error::new(ErrorKind::ConnectionRefused, "refused"));
    assert!(matches!(again, NextTry::Again { pause_ms: 25 }));
    let again = attempts.failed(Error::new(ErrorKind::NotFound, "missing"));
    assert!(matches!(again, NextTry::Again { pause_ms: 50 }));
    assert_eq!(
        message(attempts.give_up()),
        "connect /run/c.sock: missing (run: groket serve start -d)"
    );
    let mut attempts = ConnectLoop::new("/run/c.sock", 0);
    match attempts.failed(Error::new(ErrorKind::PermissionDenied, "denied")) {
        NextTry::Stop { error } => assert_eq!(
            message(error),
            "connect /run/c.sock: denied (run: groket serve start -d)"
        ),
        NextTry::Again { .. } => panic!("a denied socket is not tried again"),
    }
    assert_eq!(
        message(attempts.give_up()),
        "connect /run/c.sock: control socket connect budget exceeded (run: groket serve start -d)"
    );
}

#[test]
fn requests_are_retried_within_their_budget() {
    let mut attempts = RequestLoop::new("session/list", "/run/c.sock", 7);
    assert!(attempts.may_try(7 + REQUEST_BUDGET_MS - 1));
    assert!(!attempts.may_try(7 + REQUEST_BUDGET_MS));
    let again = attempts.failed(ControlError::Message("timed out".into()));
    assert!(matches!(again, NextTry::Again { pause_ms: 25 }));
    match attempts.failed(ControlError::Message("no such session".into())) {
        NextTry::Stop { error } => assert_eq!(message(error), "no such session"),
        NextTry::Again { .. } => panic!("a refusal is not tried again"),
    }
    assert_eq!(message(attempts.give_up()), "timed out");
    assert_eq!(
        message(RequestLoop::new("m", "/p", 0).give_up()),
        "control m timed out on /p (run: groket serve start -d)"
    );
}

#[test]
fn the_socket_is_where_the_settings_say() {
    match default_socket_path(Some(" /tmp/c.sock "), Some("/run/user/1"), true) {
        SocketPath::Given(p) => assert_eq!(p, "/tmp/c.sock"),
        _ => panic!("the setting counts first"),
    }
    let runtime = default_socket_path(Some("  "), Some("/run/user/1"), true);
    assert_eq!(runtime.below(), vec!["groket", "control.sock"]);
    match runtime {
        SocketPath::Runtime(dir) => assert_eq!(dir, "/run/user/1"),
        _ => panic!("the runtime directory counts next"),
    }
    let home = default_socket_path(None, Some(""), true);
    assert!(matches!(home, SocketPath::Home));
    assert_eq!(home.below(), vec![".groket", "run", "control.sock"]);
    let local = default_socket_path(None, None, false);
    assert!(matches!(local, SocketPath::Local));
    assert_eq!(local.below(), vec!["control.sock"]);
}

#[test]
fn the_socket_has_a_name() {
    assert_eq!(socket_name(Some("c.sock")), "c.sock");
    assert_eq!(socket_name(None), "control.sock");
}

#[test]
fn notifications_are_messages_with_a_method() {
    let n = read_notification(" {\"method\":\"hud/show\",\"params\":{\"a\":2}}\n").expect("one");
    assert_eq!(n.method, "hud/show");
    assert_eq!(n.params, parsed(r#"{"a":2}"#));
    let n = notification_of(&parsed(r#"{"method":"x"}"#)).expect("one");
    assert_eq!(n.params, Value::Null);
    for line in ["", "  \n", "nonsense", "{\"id\":1}", "{\"method\":\"\"}", "{\"method\":4}"] {
        assert!(read_notification(line).is_none(), "{line}");
    }
}

#[test]
fn the_listener_keeps_a_quiet_stream_and_reopens_a_broken_one() {
    assert!(matches!(
        listener_next(ListenerEvent::ConnectFailed),
        ListenerAction::Reconnect { pause_ms: LISTENER_CONNECT_PAUSE_MS }
    ));
    for event in [
        ListenerEvent::SetupFailed,
        ListenerEvent::Closed,
        ListenerEvent::ReadFailed(Error::new(ErrorKind::InvalidData, "x")),
    ] {
        assert!(matches!(
            listener_next(event),
            ListenerAction::Reconnect { pause_ms: LISTENER_PAUSE_MS }
        ));
    }
    for event in [
        ListenerEvent::Ready,
        ListenerEvent::ReadFailed(Error::from_raw_os_error(35)),
        ListenerEvent::Line("\n".into()),
    ] {
        assert!(matches!(listener_next(event), ListenerAction::Listen));
    }
    match listener_next(ListenerEvent::Line("{\"method\":\"session/changed\"}\n".into())) {
        ListenerAction::Deliver(n) => assert_eq!(n.method, "session/changed"),
        _ => panic!("a notification is delivered"),
    }
}

#[test]
fn objects_and_arrays_are_built() {
    let object = json::object(vec![
        ("a".to_string(), Value::from(1)),
        ("b".to_string(), Value::Null),
        ("a".to_string(), Value::from(2)),
    ]);
    assert_eq!(object, parsed(r#"{"a":2,"b":null}"#));
    assert_eq!(json::integers(&vec![-3, 9]), parsed("[-3,9]"));
}
