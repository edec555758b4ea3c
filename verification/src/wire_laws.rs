//! What the control socket, the tray and the shell are for: what a request says, what a
//! reply is taken for, which failures are tried again, and what a click or a setting
//! stands for.

use vstd::prelude::*;
use serde_json::Value;

use crate::control::{
    connect_failed, default_socket_path, initialize, initialize_notify, judged_retry,
    judged_transient, listener_next, longer_sleep, names_below, notes_list, notification_of,
    read_notification, read_reply, reply_of, request_failed, request_line, request_tree,
    session_get, session_list, session_open, session_overview, session_timeline, session_turns,
    session_usage, sleep_at, socket_name, step_failed, told_code, told_kind, told_text,
    transient_failure, ConnectLoop, ControlError, IoKind, IoStep, ListenerAction, ListenerEvent,
    NextTry, Notification, RequestLoop, RpcCall, SocketPath,
};
use crate::json::{json_of, member, object_of, read_json, written_json, Json};
use crate::note_laws::lemma_member;
use crate::shell::{
    control_session_list, control_session_timeline, forward_notification, selection_of,
    startup_show_requested, toggle_palette, tray_menu_action, Forward, InitialSelection, Toggle,
};
use crate::text::{lowered, natural_value, occurs, trimmed};
use crate::tray::{
    action_from_click, action_from_menu_id, action_from_notify, argb_of, env_flag_enabled, menu,
    rgba_to_argb, tray_pixmap, usable_icon, MenuEntry, TrayAction, TrayButton, TrayClickState,
    TrayError,
};

verus! {

// ---------------------------------------------------------------------------
// Requests
// ---------------------------------------------------------------------------

/// The members of an object whose keys differ in length.
proof fn lemma_members(entries: Seq<(Seq<char>, Json)>)
    requires
        forall|i: int, j: int|
            0 <= i < j < entries.len() ==> (#[trigger] entries[i]).0.len() != (
            #[trigger] entries[j]).0.len(),
    ensures
        forall|i: int|
            0 <= i < entries.len() ==> member(object_of(entries), (#[trigger] entries[i]).0)
                == Some(entries[i].1),
{
    assert forall|i: int| 0 <= i < entries.len() implies member(
        object_of(entries),
        (#[trigger] entries[i]).0,
    ) == Some(entries[i].1) by {
        lemma_member(entries, i);
    }
}

proof fn lemma_no_member(entries: Seq<(Seq<char>, Json)>, key: Seq<char>)
    requires
        forall|i: int| 0 <= i < entries.len() ==> (#[trigger] entries[i]).0 != key,
    ensures
        member(object_of(entries), key) is None,
    decreases entries.len(),
{
    if entries.len() > 0 {
        let rest = entries.drop_last();
        assert forall|i: int| 0 <= i < rest.len() implies (#[trigger] rest[i]).0 != key by {
            assert(entries[i].0 != key);
        }
        lemma_no_member(rest, key);
        assert(entries[entries.len() - 1].0 != key);
    }
}

proof fn lemma_keys()
    ensures
        "session"@.len() == 7,
        "limit"@.len() == 5,
        "query"@.len() == 5,
        "limit"@ != "query"@,
        "offset"@.len() == 6,
        "contentChars"@.len() == 12,
        "promptIndex"@.len() == 11,
        "protocolVersion"@.len() == 15,
        "clientInfo"@.len() == 10,
        "name"@.len() == 4,
        "jsonrpc"@.len() == 7,
        "id"@.len() == 2,
        "method"@.len() == 6,
        "params"@.len() == 6,
        "method"@ != "params"@,
{
    reveal_strlit("session");
    reveal_strlit("limit");
    reveal_strlit("query");
    reveal_strlit("offset");
    reveal_strlit("contentChars");
    reveal_strlit("promptIndex");
    reveal_strlit("protocolVersion");
    reveal_strlit("clientInfo");
    reveal_strlit("name");
    reveal_strlit("jsonrpc");
    reveal_strlit("id");
    reveal_strlit("method");
    reveal_strlit("params");
    assert("limit"@[0] == 'l' && "query"@[0] == 'q');
    assert("method"@[0] == 'm' && "params"@[0] == 'p');
}

/// A request for the list names the limit, and the query unless it is empty.
pub proof fn law_a_list_request(query: &str, limit: u32, r: RpcCall)
    requires
        call_ensures(session_list, (query, limit), r),
    ensures
        r.method@ == "session/list"@,
        member(json_of(r.params), "limit"@) == Some(Json::Int(limit as int)),
        query@.len() > 0 ==> member(json_of(r.params), "query"@) == Some(Json::Text(query@)),
        query@.len() == 0 ==> member(json_of(r.params), "query"@) is None,
{
    lemma_keys();
    let limits = ("limit"@, Json::Int(limit as int));
    if query@.len() == 0 {
        lemma_member(seq![limits], 0);
        lemma_no_member(seq![limits], "query"@);
    } else {
        let entries = seq![limits, ("query"@, Json::Text(query@))];
        lemma_member(entries, 0);
        lemma_member(entries, 1);
    }
}

/// Requests about a session name it, each under a method of its own.
pub proof fn law_session_requests(session: &str, r: RpcCall)
    ensures
        call_ensures(session_get, (session,), r) ==> r.method@ == "session/get"@ && member(
            json_of(r.params),
            "session"@,
        ) == Some(Json::Text(session@)),
        call_ensures(session_overview, (session,), r) ==> r.method@ == "session/overview"@
            && member(json_of(r.params), "session"@) == Some(Json::Text(session@)),
        call_ensures(session_turns, (session,), r) ==> r.method@ == "session/turns"@ && member(
            json_of(r.params),
            "session"@,
        ) == Some(Json::Text(session@)),
        call_ensures(notes_list, (session,), r) ==> r.method@ == "notes/list"@ && member(
            json_of(r.params),
            "session"@,
        ) == Some(Json::Text(session@)),
        call_ensures(session_usage, (session,), r) ==> r.method@ == "session/usage"@ && member(
            json_of(r.params),
            "session"@,
        ) == Some(Json::Text(session@)),
{
    lemma_member(seq![("session"@, Json::Text(session@))], 0);
}

/// A request to open a session names it and the prompt, which is null when there is
/// none.
pub proof fn law_an_open_request(session: &str, prompt_index: Option<u32>, r: RpcCall)
    requires
        call_ensures(session_open, (session, prompt_index), r),
    ensures
        r.method@ == "session/open"@,
        member(json_of(r.params), "session"@) == Some(Json::Text(session@)),
        prompt_index is Some ==> member(json_of(r.params), "promptIndex"@) == Some(
            Json::Int(prompt_index->0 as int),
        ),
        prompt_index is None ==> member(json_of(r.params), "promptIndex"@) == Some(Json::Null),
{
    lemma_keys();
    let entries = seq![
        ("session"@, Json::Text(session@)),
        (
            "promptIndex"@,
            match prompt_index {
                Some(n) => Json::Int(n as int),
                None => Json::Null,
            },
        ),
    ];
    lemma_member(entries, 0);
    lemma_member(entries, 1);
}

/// A request for a page of the timeline names the session, where the page starts, how
/// many rows it may have and how much of each.
pub proof fn law_a_timeline_request(session: &str, offset: u32, limit: u32, r: RpcCall)
    requires
        call_ensures(session_timeline, (session, offset, limit), r),
    ensures
        r.method@ == "session/timeline"@,
        member(json_of(r.params), "session"@) == Some(Json::Text(session@)),
        member(json_of(r.params), "offset"@) == Some(Json::Int(offset as int)),
        member(json_of(r.params), "limit"@) == Some(Json::Int(limit as int)),
        member(json_of(r.params), "contentChars"@) == Some(Json::Int(12_000)),
{
    lemma_keys();
    let entries = seq![
        ("session"@, Json::Text(session@)),
        ("limit"@, Json::Int(limit as int)),
        ("offset"@, Json::Int(offset as int)),
        ("contentChars"@, Json::Int(12_000)),
    ];
    lemma_members(entries);
    assert(member(object_of(entries), entries[0].0) == Some(entries[0].1));
    assert(member(object_of(entries), entries[1].0) == Some(entries[1].1));
    assert(member(object_of(entries), entries[2].0) == Some(entries[2].1));
    assert(member(object_of(entries), entries[3].0) == Some(entries[3].1));
}

/// The greeting names the protocol and the client.
pub proof fn law_a_greeting(r: RpcCall)
    ensures
        call_ensures(initialize, (), r) ==> greets(r, "groket-hud"@),
        call_ensures(initialize_notify, (), r) ==> greets(r, "groket-hud-notify"@),
{
    lemma_greets(r, "groket-hud"@);
    lemma_greets(r, "groket-hud-notify"@);
}

/// `r` introduces the client `name`.
pub open spec fn greets(r: RpcCall, name: Seq<char>) -> bool {
    &&& r.method@ == "initialize"@
    &&& member(json_of(r.params), "protocolVersion"@) == Some(Json::Int(1))
    &&& member(json_of(r.params), "clientInfo"@) is Some
    &&& member(member(json_of(r.params), "clientInfo"@)->0, "name"@) == Some(Json::Text(name))
}

proof fn lemma_greets(r: RpcCall, name: Seq<char>)
    ensures
        crate::control::asks(r, "initialize"@, crate::control::client_params(name)) ==> greets(
            r,
            name,
        ),
{
    lemma_keys();
    let info = seq![("name"@, Json::Text(name))];
    let entries = seq![
        ("protocolVersion"@, Json::Int(1)),
        ("clientInfo"@, object_of(info)),
    ];
    lemma_member(info, 0);
    lemma_member(entries, 0);
    lemma_member(entries, 1);
}

/// A request is one line: the JSON of an object with the protocol, a number, the method
/// and the parameters, and a line end that occurs nowhere else in it.
pub proof fn law_a_request_line(call: &RpcCall, r: Result<String, ControlError>) -> (tree: Json)
    requires
        call_ensures(request_line, (call,), r),
    ensures
        r is Ok,
        r->Ok_0@ == written_json(tree) + "\n"@,
        forall|i: int| 0 <= i < r->Ok_0@.len() - 1 ==> #[trigger] r->Ok_0@[i] != '\n',
        member(tree, "jsonrpc"@) == Some(Json::Text("2.0"@)),
        member(tree, "id"@) == Some(Json::Int(1)),
        member(tree, "method"@) == Some(Json::Text(call.method@)),
        member(tree, "params"@) == Some(json_of(call.params)),
{
    lemma_keys();
    let entries = seq![
        ("jsonrpc"@, Json::Text("2.0"@)),
        ("id"@, Json::Int(1)),
        ("method"@, Json::Text(call.method@)),
        ("params"@, json_of(call.params)),
    ];
    lemma_member(entries, 0);
    lemma_member(entries, 1);
    lemma_member(entries, 2);
    lemma_member(entries, 3);
    request_tree(call.method@, json_of(call.params))
}

// ---------------------------------------------------------------------------
// Replies and notifications
// ---------------------------------------------------------------------------

/// `r` is what the reply `j` says: its result, null when it has none, or the message of
/// its error, which counts whatever else the reply holds.
pub open spec fn says(r: Result<Value, ControlError>, j: Json) -> bool {
    match member(j, "error"@) {
        Some(e) => {
            &&& r is Err && r->Err_0 is Message
            &&& match member(e, "message"@) {
                Some(Json::Text(s)) => r->Err_0->Message_0@ == s,
                _ => r->Err_0->Message_0@ == "control error"@,
            }
        },
        None => {
            &&& r is Ok
            &&& match member(j, "result"@) {
                Some(x) => json_of(r->Ok_0) == x,
                None => json_of(r->Ok_0) == Json::Null,
            }
        },
    }
}

/// A reply is its result or its error. A blank line is an error that names the request
/// and the socket, and a line that is no JSON is one too.
pub proof fn law_a_reply(
    value: &Value,
    method: &str,
    path: &str,
    line: &str,
    r: Result<Value, ControlError>,
)
    ensures
        call_ensures(reply_of, (value,), r) ==> says(r, json_of(*value)),
        call_ensures(read_reply, (method, path, line), r) ==> {
            &&& trimmed(line@).len() == 0 ==> r is Err && r->Err_0 is Message
                && r->Err_0->Message_0@ == "empty control response for "@ + method@ + " ("@ + path@
                + ")"@
            &&& trimmed(line@).len() > 0 && read_json(line@) is Some ==> says(
                r,
                read_json(line@)->0,
            )
            &&& trimmed(line@).len() > 0 && read_json(line@) is None ==> r is Err && r->Err_0
                is Json
        },
{
}

/// `r` is the notification in the message `j`, if it has a method: with its parameters,
/// or null.
pub open spec fn is_notification(r: Option<Notification>, j: Json) -> bool {
    match member(j, "method"@) {
        Some(Json::Text(s)) => {
            &&& s.len() == 0 ==> r is None
            &&& s.len() > 0 ==> r is Some && r->0.method@ == s && match member(j, "params"@) {
                Some(p) => json_of(r->0.params) == p,
                None => json_of(r->0.params) == Json::Null,
            }
        },
        _ => r is None,
    }
}

/// A line of the stream is a notification when it is JSON with a method; anything else
/// in the stream is passed over.
pub proof fn law_a_notification(value: &Value, line: &str, r: Option<Notification>)
    ensures
        call_ensures(notification_of, (value,), r) ==> is_notification(r, json_of(*value)),
        call_ensures(read_notification, (line,), r) ==> {
            &&& trimmed(line@).len() == 0 || read_json(trimmed(line@)) is None ==> r is None
            &&& trimmed(line@).len() > 0 && read_json(trimmed(line@)) is Some ==> is_notification(
                r,
                read_json(trimmed(line@))->0,
            )
        },
{
}

/// The listener hands on each notification and goes on listening. It opens the socket
/// again after a pause when that failed, when the stream ended, and when reading failed
/// in a way that a short wait does not cure.
pub proof fn law_the_listener_goes_on(event: ListenerEvent, r: ListenerAction)
    requires
        call_ensures(listener_next, (event,), r),
    ensures
        match event {
            ListenerEvent::ConnectFailed => r == (ListenerAction::Reconnect { pause_ms: 750 }),
            ListenerEvent::SetupFailed => r == (ListenerAction::Reconnect { pause_ms: 500 }),
            ListenerEvent::Closed => r == (ListenerAction::Reconnect { pause_ms: 500 }),
            ListenerEvent::Ready => r is Listen,
            ListenerEvent::Line(line) => {
                &&& r is Listen || r is Deliver
                &&& trimmed(line@).len() == 0 || read_json(trimmed(line@)) is None ==> r is Listen
                &&& trimmed(line@).len() > 0 && read_json(trimmed(line@)) is Some
                    ==> is_notification(
                    match r {
                        ListenerAction::Deliver(n) => Some(n),
                        _ => None,
                    },
                    read_json(trimmed(line@))->0,
                )
            },
            ListenerEvent::ReadFailed(err) => {
                ||| r is Listen && judged_transient(&err, true)
                ||| r == (ListenerAction::Reconnect { pause_ms: 500 }) && judged_transient(
                    &err,
                    false,
                )
            },
        },
{
}

// ---------------------------------------------------------------------------
// Trying again
// ---------------------------------------------------------------------------

/// Words that tell of a failure of the socket that passes.
pub open spec fn passing_words(s: Seq<char>) -> bool {
    let m = lowered(s);
    occurs(m, "resource temporarily unavailable"@) || occurs(m, "connection refused"@) || occurs(
        m,
        "connection reset"@,
    ) || occurs(m, "broken pipe"@) || occurs(m, "no such file"@)
}

/// Words of the control channel that tell of a failure that passes.
pub open spec fn passing_reply_words(s: Seq<char>) -> bool {
    let m = lowered(s);
    occurs(m, "empty control response"@) || occurs(m, "timed out"@) || occurs(m, "os error 35"@)
        || occurs(m, "os error 11"@)
}

/// A failure that passes: the socket is busy, refused, reset, aborted, missing or
/// broken, or the call was interrupted or timed out, as its kind, its code or its words
/// tell.
pub open spec fn passes(kind: IoKind, code: Option<i32>, words: Seq<char>) -> bool {
    ||| kind is WouldBlock || kind is ConnectionRefused || kind is ConnectionReset
    ||| kind is ConnectionAborted || kind is NotFound || kind is Interrupted || kind is TimedOut
    ||| kind is BrokenPipe
    ||| code is Some && (code->0 == 11 || code->0 == 35 || code->0 == 4 || code->0 == 61 || code->0
        == 111 || code->0 == 2 || code->0 == 54 || code->0 == 104)
    ||| passing_words(words)
}

/// A failure is tried again just when it passes, as the operating system tells of it; a
/// message of the control channel when its words tell so; JSON that cannot be read
/// never.
pub proof fn law_what_is_tried_again(
    kind: IoKind,
    code: Option<i32>,
    words: Seq<char>,
    e: &ControlError,
    r: bool,
)
    ensures
        transient_failure(kind, code, words) == passes(kind, code, words),
        judged_retry(e, r) ==> match e {
            ControlError::Message(m) => r == (passing_words(m@) || passing_reply_words(m@)),
            ControlError::Io(x) => judged_transient(x, r),
            ControlError::Json(_) => !r,
        },
{
}

/// Whether a failure of the operating system is tried again goes by what is told of its
/// kind, its code and its words.
pub proof fn law_what_the_judgement_goes_by(err: &std::io::Error, r: bool) -> (t: (
    IoKind,
    Option<i32>,
    String,
))
    requires
        judged_transient(err, r),
    ensures
        told_kind(err, t.0),
        told_code(err, t.1),
        told_text(err, t.2),
        r == passes(t.0, t.1, t.2@),
{
    choose|kind: IoKind, code: Option<i32>, words: String|
        #![trigger told_kind(err, kind), told_code(err, code), told_text(err, words)]
        told_kind(err, kind) && told_code(err, code) && told_text(err, words) && r
            == transient_failure(kind, code, words@)
}

/// The pauses between attempts start at 25 milliseconds and double, up to 250.
pub proof fn law_pauses_double(k: nat)
    ensures
        sleep_at(0) == 25,
        2 * sleep_at(k) <= 250 ==> sleep_at(k + 1) == 2 * sleep_at(k),
        2 * sleep_at(k) > 250 ==> sleep_at(k + 1) == 250,
        longer_sleep(sleep_at(k)) == sleep_at(k + 1),
{
}

/// After a failed attempt to open the socket there is a pause, and the next one will be
/// longer, when the failure passes; else an error that names the socket, says why, and
/// says what to run.
pub proof fn law_a_failed_connection(
    pre: ConnectLoop,
    err: std::io::Error,
    r: NextTry,
    post: ConnectLoop,
)
    requires
        connect_failed(pre, err, r, post),
    ensures
        post.path == pre.path,
        post.deadline_ms == pre.deadline_ms,
        r is Again ==> {
            &&& judged_transient(&err, true)
            &&& r->pause_ms == pre.backoff.sleep_ms
            &&& 2 * pre.backoff.sleep_ms <= 250 ==> post.backoff.sleep_ms == 2
                * pre.backoff.sleep_ms
            &&& 2 * pre.backoff.sleep_ms > 250 ==> post.backoff.sleep_ms == 250
            &&& post.last == Some(err)
        },
        r is Stop ==> {
            &&& judged_transient(&err, false)
            &&& post.last == pre.last
            &&& r->error is Message
            &&& exists|words: String| #[trigger]
                told_text(&err, words) && r->error->Message_0@ == "connect "@ + pre.path@ + ": "@
                    + words@ + " (run: groket serve start -d)"@
        },
{
}

/// After a failed attempt at a request there is a pause, and the next one will be longer,
/// when the failure passes; else the error itself is reported.
pub proof fn law_a_failed_request(
    pre: RequestLoop,
    err: ControlError,
    r: NextTry,
    post: RequestLoop,
)
    requires
        request_failed(pre, err, r, post),
    ensures
        post.method == pre.method,
        post.path == pre.path,
        post.deadline_ms == pre.deadline_ms,
        r is Again ==> {
            &&& judged_retry(&err, true)
            &&& r->pause_ms == pre.backoff.sleep_ms
            &&& 2 * pre.backoff.sleep_ms <= 250 ==> post.backoff.sleep_ms == 2
                * pre.backoff.sleep_ms
            &&& 2 * pre.backoff.sleep_ms > 250 ==> post.backoff.sleep_ms == 250
            &&& post.last == Some(err)
        },
        r is Stop ==> judged_retry(&err, false) && r->error == err && post.last == pre.last,
{
}

/// Attempts go on until the time is up: five seconds for a connection, thirty for a
/// request. Then the last error is reported, or that there was no attempt at all.
pub proof fn law_attempts_end(
    path: &str,
    method: &str,
    now_ms: u64,
    c: ConnectLoop,
    q: RequestLoop,
    again: bool,
    e: ControlError,
)
    ensures
        call_ensures(ConnectLoop::new, (path, now_ms), c) ==> c.path@ == path@ && c.deadline_ms
            == now_ms + 5_000 && c.backoff.sleep_ms == 25 && c.last is None,
        call_ensures(RequestLoop::new, (method, path, now_ms), q) ==> q.method@ == method@
            && q.path@ == path@ && q.deadline_ms == now_ms + 30_000 && q.backoff.sleep_ms == 25
            && q.last is None,
        call_ensures(ConnectLoop::may_try, (&c, now_ms), again) ==> again == (now_ms
            < c.deadline_ms),
        call_ensures(RequestLoop::may_try, (&q, now_ms), again) ==> again == (now_ms
            < q.deadline_ms),
        call_ensures(ConnectLoop::give_up, (c,), e) && c.last is None ==> e is Message
            && e->Message_0@ == "connect "@ + c.path@ + ": "@
            + "control socket connect budget exceeded"@ + " (run: groket serve start -d)"@,
        call_ensures(ConnectLoop::give_up, (c,), e) && c.last is Some ==> e is Message
            && exists|words: String| #[trigger]
            told_text(&c.last->0, words) && e->Message_0@ == "connect "@ + c.path@ + ": "@ + words@
                + " (run: groket serve start -d)"@,
        call_ensures(RequestLoop::give_up, (q,), e) && q.last is Some ==> e == q.last->0,
        call_ensures(RequestLoop::give_up, (q,), e) && q.last is None ==> e is Message
            && e->Message_0@ == "control "@ + q.method@ + " timed out on "@ + q.path@
            + " (run: groket serve start -d)"@,
{
}

/// A step of a request that fails says which one it was, of which request, and why.
pub proof fn law_a_failed_step(
    step: IoStep,
    method: &str,
    path: &str,
    err: &std::io::Error,
    r: ControlError,
) -> (words: String)
    requires
        call_ensures(step_failed, (step, method, path, err), r),
    ensures
        r is Message,
        told_text(err, words),
        match step {
            IoStep::SetReadTimeout => r->Message_0@ == "set read timeout: "@ + words@,
            IoStep::SetWriteTimeout => r->Message_0@ == "set write timeout: "@ + words@,
            IoStep::Write => r->Message_0@ == "write "@ + method@ + ": "@ + words@,
            IoStep::Flush => r->Message_0@ == "flush "@ + method@ + ": "@ + words@,
            IoStep::Read => r->Message_0@ == "read "@ + method@ + " from "@ + path@ + ": "@
                + words@,
        },
{
    choose|words: String| #[trigger]
        told_text(err, words) && r->Message_0@ == crate::control::step_text(
            step,
            method@,
            path@,
            words@,
        )
}

// ---------------------------------------------------------------------------
// The socket
// ---------------------------------------------------------------------------

/// A setting that holds more than white space.
pub open spec fn is_set(value: Option<&str>) -> bool {
    value is Some && trimmed(value->0@).len() > 0
}

/// The socket is where it is set to be; else below the runtime directory, below the home
/// directory, or in the working directory, whichever is there first.
pub proof fn law_where_the_socket_is(
    control_socket: Option<&str>,
    runtime_dir: Option<&str>,
    has_home: bool,
    r: SocketPath,
)
    requires
        call_ensures(default_socket_path, (control_socket, runtime_dir, has_home), r),
    ensures
        is_set(control_socket) ==> r is Given && r->Given_0@ == trimmed(control_socket->0@)
            && names_below(r).len() == 0,
        !is_set(control_socket) && is_set(runtime_dir) ==> r is Runtime && r->Runtime_0@ == trimmed(
            runtime_dir->0@,
        ) && names_below(r) == seq!["groket"@, "control.sock"@],
        !is_set(control_socket) && !is_set(runtime_dir) && has_home ==> r is Home && names_below(r)
            == seq![".groket"@, "run"@, "control.sock"@],
        !is_set(control_socket) && !is_set(runtime_dir) && !has_home ==> r is Local && names_below(
            r,
        ) == seq!["control.sock"@],
{
}

/// The socket goes by the name of its file, or by the usual one when it has none.
pub proof fn law_the_name_of_the_socket(file_name: Option<&str>, r: String)
    requires
        call_ensures(socket_name, (file_name,), r),
    ensures
        file_name is Some ==> r@ == file_name->0@,
        file_name is None ==> r@ == "control.sock"@,
{
}

// ---------------------------------------------------------------------------
// The tray
// ---------------------------------------------------------------------------

/// The left button shows the palette when it is let go, and so do the entry for it in
/// the menu and the notification; the other entry ends the process. Nothing else does
/// anything.
pub proof fn law_what_the_tray_does(
    id: &str,
    button: TrayButton,
    state: TrayClickState,
    r: Option<TrayAction>,
)
    ensures
        call_ensures(action_from_click, (button, state), r) ==> {
            &&& button is Left && state is Up ==> r == Some(TrayAction::Show)
            &&& !(button is Left && state is Up) ==> r is None
        },
        call_ensures(action_from_menu_id, (id,), r) ==> {
            &&& id@ == "show"@ ==> r == Some(TrayAction::Show)
            &&& id@ == "quit"@ ==> r == Some(TrayAction::Quit)
            &&& id@ != "show"@ && id@ != "quit"@ ==> r is None
        },
        call_ensures(action_from_notify, (id,), r) ==> {
            &&& id@ == "hud/show"@ ==> r == Some(TrayAction::Show)
            &&& id@ != "hud/show"@ ==> r is None
        },
{
    reveal_strlit("show");
    reveal_strlit("quit");
    assert("show"@[0] == 's' && "quit"@[0] == 'q');
}

/// The menu shows the palette or ends the process, in this order.
pub proof fn law_the_menu(r: Vec<MenuEntry>)
    requires
        call_ensures(menu, (), r),
    ensures
        r@.len() == 2,
        r@[0].action == TrayAction::Show,
        r@[0].label@ == "Show HUD"@,
        r@[1].action == TrayAction::Quit,
        r@[1].label@ == "Quit Groket HUD"@,
{
    reveal_strlit("show");
    reveal_strlit("quit");
    assert("show"@[0] == 's' && "quit"@[0] == 'q');
}

/// A flag is set by the words for it, whatever their case; so is the one for showing the
/// palette at the start.
pub proof fn law_a_flag(value: Option<&str>, r: bool)
    requires
        call_ensures(env_flag_enabled, (value,), r) || call_ensures(
            startup_show_requested,
            (value,),
            r,
        ),
    ensures
        value is None ==> !r,
        value is Some ==> {
            let word = lowered(trimmed(value->0@));
            r <==> word == "1"@ || word == "true"@ || word == "yes"@
        },
{
}

/// A picture for the tray has pixels, and four bytes for each. In the form for the host
/// each pixel keeps its place and its colours, and its opacity comes first.
pub proof fn law_the_tray_picture(rgba: &[u8], width: u32, height: u32, argb: Vec<u8>)
    ensures
        usable_icon(rgba@, width, height) <==> width > 0 && height > 0 && rgba@.len() == 4 * (width
            * height),
        call_ensures(rgba_to_argb, (rgba,), argb) ==> {
            &&& argb@.len() == rgba@.len()
            &&& forall|p: int|
                0 <= p && 4 * p + 4 <= rgba@.len() ==> {
                    &&& #[trigger] argb@[4 * p] == rgba@[4 * p + 3]
                    &&& argb@[4 * p + 1] == rgba@[4 * p]
                    &&& argb@[4 * p + 2] == rgba@[4 * p + 1]
                    &&& argb@[4 * p + 3] == rgba@[4 * p + 2]
                }
        },
{
    assert(width * height * 4 == 4 * (width * height)) by (nonlinear_arith);
    if call_ensures(rgba_to_argb, (rgba,), argb) {
        assert forall|p: int| 0 <= p && 4 * p + 4 <= rgba@.len() implies {
            &&& #[trigger] argb@[4 * p] == rgba@[4 * p + 3]
            &&& argb@[4 * p + 1] == rgba@[4 * p]
            &&& argb@[4 * p + 2] == rgba@[4 * p + 1]
            &&& argb@[4 * p + 3] == rgba@[4 * p + 2]
        } by {
            assert((4 * p) % 4 == 0 && (4 * p + 1) % 4 == 1 && (4 * p + 2) % 4 == 2 && (4 * p + 3)
                % 4 == 3);
        }
    }
}

/// A picture is handed to the tray's host when its sides fit.
pub proof fn law_the_tray_pixmap(
    rgba: &[u8],
    width: u32,
    height: u32,
    r: Result<(i32, i32, Vec<u8>), TrayError>,
)
    requires
        call_ensures(tray_pixmap, (rgba, width, height), r),
    ensures
        width <= 0x7fff_ffff && height <= 0x7fff_ffff ==> r is Ok && r->Ok_0.0 == width
            && r->Ok_0.1 == height && r->Ok_0.2@ == argb_of(rgba@),
        width > 0x7fff_ffff || height > 0x7fff_ffff ==> r is Err && r->Err_0 is BadIcon,
{
}

// ---------------------------------------------------------------------------
// The shell
// ---------------------------------------------------------------------------

/// The shell's menu shows the palette or ends the process, its shortcut hides a palette
/// that is known to be visible and shows any other, and a notification is told to the
/// web view; the one that asks for the palette shows it.
pub proof fn law_what_the_shell_does(
    id: &str,
    action: crate::shell::TrayAction,
    visible: Option<bool>,
    toggle: Toggle,
    params: &Value,
    forward: Forward,
)
    ensures
        call_ensures(tray_menu_action, (id,), action) ==> {
            &&& id@ == "show-hud"@ ==> action is Show
            &&& id@ == "quit-hud"@ ==> action is Quit
            &&& id@ != "show-hud"@ && id@ != "quit-hud"@ ==> action is Ignore
        },
        call_ensures(toggle_palette, (visible,), toggle) ==> (toggle is Hide <==> visible == Some(
            true,
        )),
        call_ensures(forward_notification, (id, params), forward) ==> {
            &&& forward.show <==> id@ == "hud/show"@
            &&& member(json_of(forward.payload), "method"@) == Some(Json::Text(id@))
            &&& member(json_of(forward.payload), "params"@) == Some(json_of(*params))
        },
{
    lemma_keys();
    reveal_strlit("show-hud");
    reveal_strlit("quit-hud");
    assert("show-hud"@[0] == 's' && "quit-hud"@[0] == 'q');
    let entries = seq![("method"@, Json::Text(id@)), ("params"@, json_of(*params))];
    lemma_member(entries, 0);
    lemma_member(entries, 1);
}

/// The first selection keeps the session's path, goes by the last name in it or else by
/// the whole path, and takes a prompt that is a number.
pub proof fn law_the_first_selection(
    session: &str,
    name: Option<&str>,
    prompt_index: Option<&str>,
    r: InitialSelection,
)
    requires
        call_ensures(selection_of, (session, name, prompt_index), r),
    ensures
        r.session@ == session@,
        name is Some ==> r.session_id@ == name->0@,
        name is None ==> r.session_id@ == session@,
        prompt_index is None ==> r.prompt_index is None,
        prompt_index is Some ==> match natural_value(trimmed(prompt_index->0@)) {
            Some(n) => if n <= u32::MAX {
                r.prompt_index is Some && r.prompt_index->0 == n
            } else {
                r.prompt_index is None
            },
            None => r.prompt_index is None,
        },
{
}

/// The shell asks for the list and the timeline as it is told, and else for the first
/// eighty rows of everything.
pub proof fn law_what_the_shell_asks_for(
    query: Option<String>,
    session: &str,
    offset: Option<u32>,
    limit: Option<u32>,
    r: RpcCall,
)
    ensures
        call_ensures(control_session_list, (query, limit), r) ==> {
            &&& r.method@ == "session/list"@
            &&& json_of(r.params) == crate::control::list_params(
                if query is Some {
                    query->0@
                } else {
                    seq![]
                },
                if limit is Some {
                    limit->0 as int
                } else {
                    80
                },
            )
        },
        call_ensures(control_session_timeline, (session, offset, limit), r) ==> {
            &&& r.method@ == "session/timeline"@
            &&& json_of(r.params) == crate::control::timeline_params(
                session@,
                if offset is Some {
                    offset->0 as int
                } else {
                    0
                },
                if limit is Some {
                    limit->0 as int
                } else {
                    80
                },
            )
        },
{
}

} // verus!
