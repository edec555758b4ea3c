//! The control channel: JSON-RPC requests over a local socket, one per line.
//!
//! This module frames requests, reads replies and notifications, and decides
//! when a failed attempt is tried again. Opening the socket, reading, writing
//! and sleeping are left to the caller.

use vstd::prelude::*;
use vstd::string::*;
use serde_json::Value;

use crate::json;
use crate::json::{
    json_of, member, object_of, read_json, text_in, told_json_error, written_json, Json,
};
use crate::text;
use crate::text::{lowered, occurs, trimmed};

verus! {

/// How long one request may take, all attempts together.
pub const REQUEST_BUDGET_MS: u64 = 30_000;

/// How long opening the socket may take, all attempts together.
pub const CONNECT_BUDGET_MS: u64 = 5_000;

/// The pause after the first failed attempt.
pub const RETRY_INITIAL_SLEEP_MS: u64 = 25;

/// The longest pause between two attempts.
pub const RETRY_MAX_SLEEP_MS: u64 = 250;

/// How long one read or write may block. Large catalogs can take more than ten
/// seconds on a cold disk.
pub const IO_TIMEOUT_MS: u64 = 45_000;

// ---------------------------------------------------------------------------
// Failures of the operating system
// ---------------------------------------------------------------------------

/// The error type of `std::io`.
#[verifier::external_type_specification]
#[verifier::external_body]
pub struct ExIoError(std::io::Error);

/// What kind of failure the operating system reported: the kinds that a
/// connection to a socket runs into, and one for all others.
#[derive(Clone, Copy, Debug, PartialEq, Eq, Structural)]
pub enum IoKind {
    WouldBlock,
    ConnectionRefused,
    ConnectionReset,
    ConnectionAborted,
    NotFound,
    Interrupted,
    TimedOut,
    BrokenPipe,
    PermissionDenied,
    NotConnected,
    InvalidData,
    UnexpectedEof,
    Other,
}

/// `std::io::Error::kind`, as an [`IoKind`]. Which kind an operating system code
/// has depends on the platform, so nothing is said of the result.
#[verifier::external_body]
pub(crate) fn io_kind(err: &std::io::Error) -> (r: IoKind)
{
    match err.kind() {
        std::io::ErrorKind::WouldBlock => IoKind::WouldBlock,
        std::io::ErrorKind::ConnectionRefused => IoKind::ConnectionRefused,
        std::io::ErrorKind::ConnectionReset => IoKind::ConnectionReset,
        std::io::ErrorKind::ConnectionAborted => IoKind::ConnectionAborted,
        std::io::ErrorKind::NotFound => IoKind::NotFound,
        std::io::ErrorKind::Interrupted => IoKind::Interrupted,
        std::io::ErrorKind::TimedOut => IoKind::TimedOut,
        std::io::ErrorKind::BrokenPipe => IoKind::BrokenPipe,
        std::io::ErrorKind::PermissionDenied => IoKind::PermissionDenied,
        std::io::ErrorKind::NotConnected => IoKind::NotConnected,
        std::io::ErrorKind::InvalidData => IoKind::InvalidData,
        std::io::ErrorKind::UnexpectedEof => IoKind::UnexpectedEof,
        _ => IoKind::Other,
    }
}

/// `std::io::Error::raw_os_error`: the code of the operating system, if the
/// error has one. Nothing is said of the result.
#[verifier::external_body]
pub(crate) fn io_code(err: &std::io::Error) -> (r: Option<i32>)
{
    err.raw_os_error()
}

/// `Display` of `std::io::Error`, through `to_string`. The text comes from the
/// operating system, so nothing is said of it.
#[verifier::external_body]
pub(crate) fn io_text(err: &std::io::Error) -> (r: String)
{
    err.to_string()
}

/// `r` is what one call of [`io_kind`] gave for `err`.
pub closed spec fn told_kind(err: &std::io::Error, r: IoKind) -> bool {
    call_ensures(io_kind, (err,), r)
}

/// `r` is what one call of [`io_code`] gave for `err`.
pub closed spec fn told_code(err: &std::io::Error, r: Option<i32>) -> bool {
    call_ensures(io_code, (err,), r)
}

/// `r` is what one call of [`io_text`] gave for `err`.
pub closed spec fn told_text(err: &std::io::Error, r: String) -> bool {
    call_ensures(io_text, (err,), r)
}

/// Kinds of failure that a short wait may cure.
pub open spec fn transient_kind(kind: IoKind) -> bool {
    match kind {
        IoKind::WouldBlock => true,
        IoKind::ConnectionRefused => true,
        IoKind::ConnectionReset => true,
        IoKind::ConnectionAborted => true,
        IoKind::NotFound => true,
        IoKind::Interrupted => true,
        IoKind::TimedOut => true,
        IoKind::BrokenPipe => true,
        _ => false,
    }
}

/// Codes of the operating system that a short wait may cure: a busy resource
/// (11 on Linux, 35 on macOS and the BSDs), an interrupted call, a refused
/// connection (111, 61), a missing path, a reset connection (104, 54).
pub open spec fn transient_code(code: Option<i32>) -> bool {
    match code {
        Some(n) => n == 11 || n == 35 || n == 4 || n == 61 || n == 111 || n == 2 || n == 54 || n
            == 104,
        None => false,
    }
}

/// Words in an error's text, whatever their case, that stand for a failure that
/// a short wait may cure.
pub open spec fn transient_words(s: Seq<char>) -> bool {
    let m = lowered(s);
    ||| occurs(m, "resource temporarily unavailable"@)
    ||| occurs(m, "connection refused"@)
    ||| occurs(m, "connection reset"@)
    ||| occurs(m, "broken pipe"@)
    ||| occurs(m, "no such file"@)
}

/// Words that count only in a message of the control channel itself.
pub open spec fn transient_reply_words(s: Seq<char>) -> bool {
    let m = lowered(s);
    ||| occurs(m, "empty control response"@)
    ||| occurs(m, "timed out"@)
    ||| occurs(m, "os error 35"@)
    ||| occurs(m, "os error 11"@)
}

/// A failure with this kind, code and text is worth another attempt.
pub open spec fn transient_failure(kind: IoKind, code: Option<i32>, s: Seq<char>) -> bool {
    transient_kind(kind) || transient_code(code) || transient_words(s)
}

fn has_transient_words(s: &str) -> (r: bool)
    ensures
        r == transient_words(s@),
{
    let m: String = text::lower(s);
    let m: &str = m.as_str();
    text::contains(m, "resource temporarily unavailable") || text::contains(
        m,
        "connection refused",
    ) || text::contains(m, "connection reset") || text::contains(m, "broken pipe")
        || text::contains(m, "no such file")
}

fn has_transient_reply_words(s: &str) -> (r: bool)
    ensures
        r == transient_reply_words(s@),
{
    let m: String = text::lower(s);
    let m: &str = m.as_str();
    text::contains(m, "empty control response") || text::contains(m, "timed out") || text::contains(
        m,
        "os error 35",
    ) || text::contains(m, "os error 11")
}

/// True when a failure with this kind, code and text is worth another attempt.
pub fn is_transient_failure(kind: IoKind, code: Option<i32>, words: &str) -> (r: bool)
    ensures
        r == transient_failure(kind, code, words@),
{
    match kind {
        IoKind::WouldBlock
        | IoKind::ConnectionRefused
        | IoKind::ConnectionReset
        | IoKind::ConnectionAborted
        | IoKind::NotFound
        | IoKind::Interrupted
        | IoKind::TimedOut
        | IoKind::BrokenPipe => {
            return true;
        },
        _ => {},
    }
    match code {
        Some(n) => {
            if n == 11 || n == 35 || n == 4 || n == 61 || n == 111 || n == 2 || n == 54
                || n == 104 {
                return true;
            }
        },
        None => {},
    }
    has_transient_words(words)
}

/// `r` says whether `err` is worth another attempt, going by what the operating
/// system told of it.
pub open spec fn judged_transient(err: &std::io::Error, r: bool) -> bool {
    exists|kind: IoKind, code: Option<i32>, words: String|
        #![trigger told_kind(err, kind), told_code(err, code), told_text(err, words)]
        told_kind(err, kind) && told_code(err, code) && told_text(err, words) && r
            == transient_failure(kind, code, words@)
}

/// Socket failures that succeed on a short retry.
///
/// macOS reports pressure on the listen queue and an expired receive timeout as
/// a busy resource (code 35), not always as `WouldBlock`. A refused connection
/// or a missing path is tried again too, while the owner of the socket starts.
pub fn is_transient_io_error(err: &std::io::Error) -> (r: bool)
    ensures
        judged_transient(err, r),
{
    let kind: IoKind = io_kind(err);
    let code: Option<i32> = io_code(err);
    let words: String = io_text(err);
    proof {
        assert(told_kind(err, kind) && told_code(err, code) && told_text(err, words));
    }
    is_transient_failure(kind, code, words.as_str())
}

// ---------------------------------------------------------------------------
// Errors of the control channel
// ---------------------------------------------------------------------------

/// Why a request on the control channel failed.
pub enum ControlError {
    Message(String),
    Io(std::io::Error),
    Json(serde_json::Error),
}

/// `r` is the text of `err`: the message itself, or what the underlying error
/// says.
pub open spec fn error_told(err: &ControlError, r: Seq<char>) -> bool {
    match err {
        ControlError::Message(m) => r == m@,
        ControlError::Io(e) => exists|t: String| #[trigger] told_text(e, t) && r == t@,
        ControlError::Json(e) => exists|t: String| #[trigger] told_json_error(e, t) && r == t@,
    }
}

/// `r` says whether a request that failed with `err` is worth another attempt.
pub open spec fn judged_retry(err: &ControlError, r: bool) -> bool {
    match err {
        ControlError::Message(m) => r == (transient_words(m@) || transient_reply_words(m@)),
        ControlError::Io(e) => judged_transient(e, r),
        ControlError::Json(_) => !r,
    }
}

impl ControlError {
    /// The text shown for this error.
    pub fn to_text(&self) -> (r: String)
        ensures
            error_told(self, r@),
    {
        match self {
            ControlError::Message(m) => m.clone(),
            ControlError::Io(e) => {
                let t: String = io_text(e);
                assert(told_text(e, t));
                t
            },
            ControlError::Json(e) => json::describe_error(e),
        }
    }
}

/// True when a request that failed with `err` is worth another attempt.
pub fn is_transient_control_error(err: &ControlError) -> (r: bool)
    ensures
        judged_retry(err, r),
{
    match err {
        ControlError::Io(e) => is_transient_io_error(e),
        ControlError::Message(m) => has_transient_words(m.as_str()) || has_transient_reply_words(
            m.as_str(),
        ),
        ControlError::Json(_) => false,
    }
}

// ---------------------------------------------------------------------------
// Requests
// ---------------------------------------------------------------------------

/// One request: a method and its parameters.
pub struct RpcCall {
    pub method: String,
    pub params: Value,
}

/// `call` asks for `method` with the parameters `params`.
pub open spec fn asks(call: RpcCall, method: Seq<char>, params: Json) -> bool {
    call.method@ == method && json_of(call.params) == params
}

/// The parameters that introduce a client of the given name.
pub open spec fn client_params(name: Seq<char>) -> Json {
    object_of(
        seq![
            ("protocolVersion"@, Json::Int(1)),
            ("clientInfo"@, object_of(seq![("name"@, Json::Text(name))])),
        ],
    )
}

/// The parameters that name a session.
pub open spec fn session_params(session: Seq<char>) -> Json {
    object_of(seq![("session"@, Json::Text(session))])
}

/// The parameters of a listing: the row limit, and the query unless it is empty.
pub open spec fn list_params(query: Seq<char>, limit: int) -> Json {
    if query.len() == 0 {
        object_of(seq![("limit"@, Json::Int(limit))])
    } else {
        object_of(seq![("limit"@, Json::Int(limit)), ("query"@, Json::Text(query))])
    }
}

/// The parameters that open a session, at a prompt if one is given.
pub open spec fn open_params(session: Seq<char>, prompt_index: Option<u32>) -> Json {
    object_of(
        seq![
            ("session"@, Json::Text(session)),
            (
                "promptIndex"@,
                match prompt_index {
                    Some(n) => Json::Int(n as int),
                    None => Json::Null,
                },
            ),
        ],
    )
}

/// The characters of content that a timeline row may carry: enough for whole
/// markdown fences in agent turns.
pub const TIMELINE_CONTENT_CHARS: i64 = 12_000;

/// The parameters of a page of the timeline.
pub open spec fn timeline_params(session: Seq<char>, offset: int, limit: int) -> Json {
    object_of(
        seq![
            ("session"@, Json::Text(session)),
            ("limit"@, Json::Int(limit)),
            ("offset"@, Json::Int(offset)),
            ("contentChars"@, Json::Int(TIMELINE_CONTENT_CHARS as int)),
        ],
    )
}

fn entry(key: &str, value: Value) -> (r: (String, Value))
    ensures
        r.0@ == key@,
        json_of(r.1) == json_of(value),
{
    (key.to_string(), value)
}

fn introduce(name: &str) -> (r: RpcCall)
    ensures
        asks(r, "initialize"@, client_params(name@)),
{
    let mut info: Vec<(String, Value)> = Vec::new();
    info.push(entry("name", json::text(name.to_string())));
    assert(json::entry_trees(info@) =~= seq![("name"@, Json::Text(name@))]);
    let info: Value = json::object(info);
    let mut params: Vec<(String, Value)> = Vec::new();
    params.push(entry("protocolVersion", json::integer(1)));
    params.push(entry("clientInfo", info));
    assert(json::entry_trees(params@) =~= seq![
        ("protocolVersion"@, Json::Int(1)),
        ("clientInfo"@, object_of(seq![("name"@, Json::Text(name@))])),
    ]);
    RpcCall { method: "initialize".to_string(), params: json::object(params) }
}

fn about_session(method: &str, session: &str) -> (r: RpcCall)
    ensures
        asks(r, method@, session_params(session@)),
{
    let mut params: Vec<(String, Value)> = Vec::new();
    params.push(entry("session", json::text(session.to_string())));
    assert(json::entry_trees(params@) =~= seq![("session"@, Json::Text(session@))]);
    RpcCall { method: method.to_string(), params: json::object(params) }
}

/// The request that opens a conversation.
pub fn initialize() -> (r: RpcCall)
    ensures
        asks(r, "initialize"@, client_params("groket-hud"@)),
{
    introduce("groket-hud")
}

/// The request that opens the stream of notifications.
pub fn initialize_notify() -> (r: RpcCall)
    ensures
        asks(r, "initialize"@, client_params("groket-hud-notify"@)),
{
    introduce("groket-hud-notify")
}

/// The request for at most `limit` sessions that match `query`.
pub fn session_list(query: &str, limit: u32) -> (r: RpcCall)
    ensures
        asks(r, "session/list"@, list_params(query@, limit as int)),
{
    let mut params: Vec<(String, Value)> = Vec::new();
    params.push(entry("limit", json::integer(limit as i64)));
    if !query.is_empty() {
        params.push(entry("query", json::text(query.to_string())));
        assert(json::entry_trees(params@) =~= seq![
            ("limit"@, Json::Int(limit as int)),
            ("query"@, Json::Text(query@)),
        ]);
    } else {
        assert(json::entry_trees(params@) =~= seq![("limit"@, Json::Int(limit as int))]);
    }
    RpcCall { method: "session/list".to_string(), params: json::object(params) }
}

/// The request for one session.
pub fn session_get(session: &str) -> (r: RpcCall)
    ensures
        asks(r, "session/get"@, session_params(session@)),
{
    about_session("session/get", session)
}

/// The request that opens a session, at a prompt if one is given.
pub fn session_open(session: &str, prompt_index: Option<u32>) -> (r: RpcCall)
    ensures
        asks(r, "session/open"@, open_params(session@, prompt_index)),
{
    let index: Value = match prompt_index {
        Some(n) => json::integer(n as i64),
        None => json::null(),
    };
    let mut params: Vec<(String, Value)> = Vec::new();
    params.push(entry("session", json::text(session.to_string())));
    params.push(entry("promptIndex", index));
    assert(json::entry_trees(params@) =~= seq![
        ("session"@, Json::Text(session@)),
        (
            "promptIndex"@,
            match prompt_index {
                Some(n) => Json::Int(n as int),
                None => Json::Null,
            },
        ),
    ]);
    RpcCall { method: "session/open".to_string(), params: json::object(params) }
}

/// The request for the overview of a session. Timeline rows are not part of it.
pub fn session_overview(session: &str) -> (r: RpcCall)
    ensures
        asks(r, "session/overview"@, session_params(session@)),
{
    about_session("session/overview", session)
}

/// The request for the turns of a session.
pub fn session_turns(session: &str) -> (r: RpcCall)
    ensures
        asks(r, "session/turns"@, session_params(session@)),
{
    about_session("session/turns", session)
}

/// The request for `limit` timeline rows of a session, from row `offset` on.
pub fn session_timeline(session: &str, offset: u32, limit: u32) -> (r: RpcCall)
    ensures
        asks(r, "session/timeline"@, timeline_params(session@, offset as int, limit as int)),
{
    let mut params: Vec<(String, Value)> = Vec::new();
    params.push(entry("session", json::text(session.to_string())));
    params.push(entry("limit", json::integer(limit as i64)));
    params.push(entry("offset", json::integer(offset as i64)));
    params.push(entry("contentChars", json::integer(TIMELINE_CONTENT_CHARS)));
    assert(json::entry_trees(params@) =~= seq![
        ("session"@, Json::Text(session@)),
        ("limit"@, Json::Int(limit as int)),
        ("offset"@, Json::Int(offset as int)),
        ("contentChars"@, Json::Int(TIMELINE_CONTENT_CHARS as int)),
    ]);
    RpcCall { method: "session/timeline".to_string(), params: json::object(params) }
}

/// The request for the notes of a session.
pub fn notes_list(session: &str) -> (r: RpcCall)
    ensures
        asks(r, "notes/list"@, session_params(session@)),
{
    about_session("notes/list", session)
}

/// The request for the usage figures of a session.
pub fn session_usage(session: &str) -> (r: RpcCall)
    ensures
        asks(r, "session/usage"@, session_params(session@)),
{
    about_session("session/usage", session)
}

/// The envelope of a request.
pub open spec fn request_tree(method: Seq<char>, params: Json) -> Json {
    object_of(
        seq![
            ("jsonrpc"@, Json::Text("2.0"@)),
            ("id"@, Json::Int(1)),
            ("method"@, Json::Text(method)),
            ("params"@, params),
        ],
    )
}

/// The line that sends a request: its envelope as JSON, and a line feed, which is
/// the only one in it.
pub fn request_line(call: &RpcCall) -> (r: Result<String, ControlError>)
    ensures
        r matches Ok(line) && line@ == written_json(
            request_tree(call.method@, json_of(call.params)),
        ) + "\n"@,
        forall|i: int| 0 <= i < r->Ok_0@.len() - 1 ==> #[trigger] r->Ok_0@[i] != '\n',
{
    let mut payload: Vec<(String, Value)> = Vec::new();
    payload.push(entry("jsonrpc", json::text("2.0".to_string())));
    payload.push(entry("id", json::integer(1)));
    payload.push(entry("method", json::text(call.method.clone())));
    payload.push(entry("params", json::copy(&call.params)));
    assert(json::entry_trees(payload@) =~= seq![
        ("jsonrpc"@, Json::Text("2.0"@)),
        ("id"@, Json::Int(1)),
        ("method"@, Json::Text(call.method@)),
        ("params"@, json_of(call.params)),
    ]);
    let payload: Value = json::object(payload);
    match json::write(&payload) {
        Ok(s) => {
            let mut line: String = s;
            line.append("\n");
            proof {
                reveal_strlit("\n");
                assert forall|i: int| 0 <= i < line@.len() - 1 implies #[trigger] line@[i]
                    != '\n' by {
                    assert(s@[i] == line@[i]);
                }
            }
            Ok(line)
        },
        Err(e) => Err(ControlError::Json(e)),
    }
}

// ---------------------------------------------------------------------------
// Replies
// ---------------------------------------------------------------------------

/// What a reply says: a result, or an error with a message.
pub enum Reply {
    Result(Json),
    Refused(Seq<char>),
}

/// A reply with a member `error` is a refusal with that error's message, or with
/// `control error` when it has none. Any other reply is its member `result`, or
/// null.
pub open spec fn reply_in(j: Json) -> Reply {
    match member(j, "error"@) {
        Some(err) => Reply::Refused(
            match member(err, "message"@) {
                Some(m) => match text_in(m) {
                    Some(s) => s,
                    None => "control error"@,
                },
                None => "control error"@,
            },
        ),
        None => Reply::Result(
            match member(j, "result"@) {
                Some(x) => x,
                None => Json::Null,
            },
        ),
    }
}

/// `r` hands on what the reply `j` says.
pub open spec fn hands_on(r: Result<Value, ControlError>, j: Json) -> bool {
    match reply_in(j) {
        Reply::Result(x) => r matches Ok(v) && json_of(v) == x,
        Reply::Refused(m) => r matches Err(ControlError::Message(s)) && s@ == m,
    }
}

/// The result in a reply, or the error it reports.
pub fn reply_of(value: &Value) -> (r: Result<Value, ControlError>)
    ensures
        hands_on(r, json_of(*value)),
{
    match json::get(value, "error") {
        Some(err) => {
            let msg: String = match json::get(err, "message") {
                Some(m) => match json::as_text(m) {
                    Some(s) => s.to_string(),
                    None => "control error".to_string(),
                },
                None => "control error".to_string(),
            };
            Err(ControlError::Message(msg))
        },
        None => match json::get(value, "result") {
            Some(x) => Ok(json::copy(x)),
            None => Ok(json::null()),
        },
    }
}

/// The message for a reply line with nothing in it.
pub open spec fn empty_reply_text(method: Seq<char>, path: Seq<char>) -> Seq<char> {
    "empty control response for "@ + method + " ("@ + path + ")"@
}

/// Reads the line that answers a request for `method` on the socket `path`.
pub fn read_reply(method: &str, path: &str, line: &str) -> (r: Result<Value, ControlError>)
    ensures
        trimmed(line@).len() == 0 ==> (r matches Err(ControlError::Message(m)) && m@
            == empty_reply_text(method@, path@)),
        trimmed(line@).len() > 0 ==> match read_json(line@) {
            Some(j) => hands_on(r, j),
            None => r matches Err(ControlError::Json(_)),
        },
{
    if text::is_blank(line) {
        let mut m: String = "empty control response for ".to_string();
        m.append(method);
        m.append(" (");
        m.append(path);
        m.append(")");
        return Err(ControlError::Message(m));
    }
    match json::read(line) {
        Ok(value) => reply_of(&value),
        Err(e) => Err(ControlError::Json(e)),
    }
}

/// A step of a request that can fail in the operating system.
#[derive(Clone, Copy, Debug, PartialEq, Eq, Structural)]
pub enum IoStep {
    SetReadTimeout,
    SetWriteTimeout,
    Write,
    Flush,
    Read,
}

/// The message for a failed step, with the text `words` of the failure.
pub open spec fn step_text(
    step: IoStep,
    method: Seq<char>,
    path: Seq<char>,
    words: Seq<char>,
) -> Seq<char> {
    match step {
        IoStep::SetReadTimeout => "set read timeout: "@ + words,
        IoStep::SetWriteTimeout => "set write timeout: "@ + words,
        IoStep::Write => "write "@ + method + ": "@ + words,
        IoStep::Flush => "flush "@ + method + ": "@ + words,
        IoStep::Read => "read "@ + method + " from "@ + path + ": "@ + words,
    }
}

/// The error for a step of a request that failed in the operating system.
pub fn step_failed(step: IoStep, method: &str, path: &str, err: &std::io::Error) -> (r:
    ControlError)
    ensures
        r matches ControlError::Message(m) && exists|words: String| #[trigger]
            told_text(err, words) && m@ == step_text(step, method@, path@, words@),
{
    let words: String = io_text(err);
    assert(told_text(err, words));
    let mut m: String = match step {
        IoStep::SetReadTimeout => "set read timeout: ".to_string(),
        IoStep::SetWriteTimeout => "set write timeout: ".to_string(),
        IoStep::Write => {
            let mut m: String = "write ".to_string();
            m.append(method);
            m.append(": ");
            m
        },
        IoStep::Flush => {
            let mut m: String = "flush ".to_string();
            m.append(method);
            m.append(": ");
            m
        },
        IoStep::Read => {
            let mut m: String = "read ".to_string();
            m.append(method);
            m.append(" from ");
            m.append(path);
            m.append(": ");
            m
        },
    };
    m.append(words.as_str());
    ControlError::Message(m)
}

// ---------------------------------------------------------------------------
// Trying again
// ---------------------------------------------------------------------------

/// The pause that follows a pause of `ms`: twice as long, up to the longest one.
pub open spec fn longer_sleep(ms: int) -> int {
    if 2 * ms <= RETRY_MAX_SLEEP_MS {
        2 * ms
    } else {
        RETRY_MAX_SLEEP_MS as int
    }
}

/// The pause after failed attempt number `k`, counted from zero.
pub open spec fn sleep_at(k: nat) -> int
    decreases k,
{
    if k == 0 {
        RETRY_INITIAL_SLEEP_MS as int
    } else {
        longer_sleep(sleep_at((k - 1) as nat))
    }
}

/// How long to pause before the next attempt.
pub struct Backoff {
    pub sleep_ms: u64,
}

impl Backoff {
    /// The pause lies between the first and the longest one.
    pub open spec fn wf(self) -> bool {
        RETRY_INITIAL_SLEEP_MS <= self.sleep_ms <= RETRY_MAX_SLEEP_MS
    }

    /// The pauses from the start.
    pub fn new() -> (r: Backoff)
        ensures
            r.wf(),
            r.sleep_ms == sleep_at(0),
    {
        Backoff { sleep_ms: RETRY_INITIAL_SLEEP_MS }
    }

    /// The pause to make now; the next one is longer.
    pub fn pause(&mut self) -> (ms: u64)
        requires
            old(self).wf(),
        ensures
            final(self).wf(),
            ms == old(self).sleep_ms,
            final(self).sleep_ms == longer_sleep(old(self).sleep_ms as int),
    {
        let ms: u64 = self.sleep_ms;
        self.sleep_ms = if 2 * ms <= RETRY_MAX_SLEEP_MS {
            2 * ms
        } else {
            RETRY_MAX_SLEEP_MS
        };
        ms
    }
}

/// The pauses never shrink and never exceed the longest one.
pub proof fn law_pauses_grow_to_the_longest(k: nat)
    ensures
        RETRY_INITIAL_SLEEP_MS <= sleep_at(k) <= RETRY_MAX_SLEEP_MS,
        sleep_at(k) <= sleep_at(k + 1),
        k >= 4 ==> sleep_at(k) == RETRY_MAX_SLEEP_MS,
    decreases k,
{
    reveal_with_fuel(sleep_at, 6);
    if k > 0 {
        law_pauses_grow_to_the_longest((k - 1) as nat);
    }
}

/// The message for a socket that could not be opened: why, and what to run.
pub open spec fn connect_text(path: Seq<char>, words: Seq<char>) -> Seq<char> {
    "connect "@ + path + ": "@ + words + " (run: groket serve start -d)"@
}

fn connect_message(path: &str, words: &str) -> (r: ControlError)
    ensures
        r matches ControlError::Message(m) && m@ == connect_text(path@, words@),
{
    let mut m: String = "connect ".to_string();
    m.append(path);
    m.append(": ");
    m.append(words);
    m.append(" (run: groket serve start -d)");
    ControlError::Message(m)
}

/// What to do after a failed attempt.
pub enum NextTry {
    /// Pause, then try again.
    Again { pause_ms: u64 },
    /// Report the error.
    Stop { error: ControlError },
}

/// The attempts to open the socket `path` until `deadline_ms`.
pub struct ConnectLoop {
    pub path: String,
    pub deadline_ms: u64,
    pub backoff: Backoff,
    pub last: Option<std::io::Error>,
}

/// What follows a failed attempt to open the socket: a pause and another attempt when a
/// short wait may cure the failure, else an error that says why.
pub open spec fn connect_failed(
    pre: ConnectLoop,
    err: std::io::Error,
    r: NextTry,
    post: ConnectLoop,
) -> bool {
    &&& post.path == pre.path
    &&& post.deadline_ms == pre.deadline_ms
    &&& match r {
        NextTry::Again { pause_ms } => {
            &&& judged_transient(&err, true)
            &&& pause_ms == pre.backoff.sleep_ms
            &&& post.backoff.sleep_ms == longer_sleep(pause_ms as int)
            &&& post.last == Some(err)
        },
        NextTry::Stop { error } => {
            &&& judged_transient(&err, false)
            &&& post.backoff == pre.backoff
            &&& post.last == pre.last
            &&& error matches ControlError::Message(m) && exists|words: String| #[trigger]
                told_text(&err, words) && m@ == connect_text(pre.path@, words@)
        },
    }
}

impl ConnectLoop {
    /// Attempts that begin at `now_ms`.
    pub fn new(path: &str, now_ms: u64) -> (r: ConnectLoop)
        requires
            now_ms + CONNECT_BUDGET_MS <= u64::MAX,
        ensures
            r.path@ == path@,
            r.deadline_ms == now_ms + CONNECT_BUDGET_MS,
            r.backoff.wf(),
            r.backoff.sleep_ms == sleep_at(0),
            r.last is None,
    {
        ConnectLoop {
            path: path.to_string(),
            deadline_ms: now_ms + CONNECT_BUDGET_MS,
            backoff: Backoff::new(),
            last: None,
        }
    }

    /// True while there is time for another attempt.
    pub fn may_try(&self, now_ms: u64) -> (r: bool)
        ensures
            r == (now_ms < self.deadline_ms),
    {
        now_ms < self.deadline_ms
    }

    /// What follows an attempt that failed with `err`: a failure that a short
    /// wait may cure is remembered and tried again, any other one is reported.
    pub fn failed(&mut self, err: std::io::Error) -> (r: NextTry)
        requires
            old(self).backoff.wf(),
        ensures
            connect_failed(*old(self), err, r, *final(self)),
            final(self).backoff.wf(),
    {
        if is_transient_io_error(&err) {
            self.last = Some(err);
            let pause_ms: u64 = self.backoff.pause();
            NextTry::Again { pause_ms }
        } else {
            let words: String = io_text(&err);
            assert(told_text(&err, words));
            NextTry::Stop { error: connect_message(self.path.as_str(), words.as_str()) }
        }
    }

    /// The error when there is no time left: the last failure, or that there was
    /// no time for any attempt.
    pub fn give_up(self) -> (r: ControlError)
        ensures
            match self.last {
                Some(err) => r matches ControlError::Message(m) && exists|words: String| #[trigger]
                    told_text(&err, words) && m@ == connect_text(self.path@, words@),
                None => r matches ControlError::Message(m) && m@ == connect_text(
                    self.path@,
                    "control socket connect budget exceeded"@,
                ),
            },
    {
        match self.last {
            Some(err) => {
                let words: String = io_text(&err);
                assert(told_text(&err, words));
                connect_message(self.path.as_str(), words.as_str())
            },
            None => connect_message(self.path.as_str(), "control socket connect budget exceeded"),
        }
    }
}

/// The attempts to get an answer to `method` until `deadline_ms`.
pub struct RequestLoop {
    pub method: String,
    pub path: String,
    pub deadline_ms: u64,
    pub backoff: Backoff,
    pub last: Option<ControlError>,
}

/// The message for a request that was never attempted.
pub open spec fn request_timeout_text(method: Seq<char>, path: Seq<char>) -> Seq<char> {
    "control "@ + method + " timed out on "@ + path + " (run: groket serve start -d)"@
}

/// What follows a failed attempt at a request: a pause and another attempt when a short
/// wait may cure the failure, else the error itself.
pub open spec fn request_failed(
    pre: RequestLoop,
    err: ControlError,
    r: NextTry,
    post: RequestLoop,
) -> bool {
    &&& post.method == pre.method
    &&& post.path == pre.path
    &&& post.deadline_ms == pre.deadline_ms
    &&& match r {
        NextTry::Again { pause_ms } => {
            &&& judged_retry(&err, true)
            &&& pause_ms == pre.backoff.sleep_ms
            &&& post.backoff.sleep_ms == longer_sleep(pause_ms as int)
            &&& post.last == Some(err)
        },
        NextTry::Stop { error } => {
            &&& judged_retry(&err, false)
            &&& post.backoff == pre.backoff
            &&& post.last == pre.last
            &&& error == err
        },
    }
}

impl RequestLoop {
    /// Attempts that begin at `now_ms`.
    pub fn new(method: &str, path: &str, now_ms: u64) -> (r: RequestLoop)
        requires
            now_ms + REQUEST_BUDGET_MS <= u64::MAX,
        ensures
            r.method@ == method@,
            r.path@ == path@,
            r.deadline_ms == now_ms + REQUEST_BUDGET_MS,
            r.backoff.wf(),
            r.backoff.sleep_ms == sleep_at(0),
            r.last is None,
    {
        RequestLoop {
            method: method.to_string(),
            path: path.to_string(),
            deadline_ms: now_ms + REQUEST_BUDGET_MS,
            backoff: Backoff::new(),
            last: None,
        }
    }

    /// True while there is time for another attempt.
    pub fn may_try(&self, now_ms: u64) -> (r: bool)
        ensures
            r == (now_ms < self.deadline_ms),
    {
        now_ms < self.deadline_ms
    }

    /// What follows an attempt that failed with `err`: a failure that a short
    /// wait may cure is remembered and tried again, any other one is reported.
    pub fn failed(&mut self, err: ControlError) -> (r: NextTry)
        requires
            old(self).backoff.wf(),
        ensures
            request_failed(*old(self), err, r, *final(self)),
            final(self).backoff.wf(),
    {
        if is_transient_control_error(&err) {
            self.last = Some(err);
            let pause_ms: u64 = self.backoff.pause();
            NextTry::Again { pause_ms }
        } else {
            NextTry::Stop { error: err }
        }
    }

    /// The error when there is no time left: the last failure, or that there was
    /// no time for any attempt.
    pub fn give_up(self) -> (r: ControlError)
        ensures
            match self.last {
                Some(err) => r == err,
                None => r matches ControlError::Message(m) && m@ == request_timeout_text(
                    self.method@,
                    self.path@,
                ),
            },
    {
        match self.last {
            Some(err) => err,
            None => {
                let mut m: String = "control ".to_string();
                m.append(self.method.as_str());
                m.append(" timed out on ");
                m.append(self.path.as_str());
                m.append(" (run: groket serve start -d)");
                ControlError::Message(m)
            },
        }
    }
}

// ---------------------------------------------------------------------------
// The socket
// ---------------------------------------------------------------------------

/// Where the control socket is.
pub enum SocketPath {
    /// At this path.
    Given(String),
    /// Below this runtime directory.
    Runtime(String),
    /// Below the home directory.
    Home,
    /// In the working directory.
    Local,
}

/// The text of an optional setting without the white space around it; a blank
/// setting counts as none.
pub open spec fn setting(value: Option<&str>) -> Option<Seq<char>> {
    match value {
        Some(s) if trimmed(s@).len() > 0 => Some(trimmed(s@)),
        _ => None,
    }
}

fn read_setting(value: Option<&str>) -> (r: Option<String>)
    ensures
        match r {
            Some(s) => setting(value) == Some(s@),
            None => setting(value) is None,
        },
{
    match value {
        Some(s) => if text::is_blank(s) {
            None
        } else {
            Some(text::trim_owned(s))
        },
        None => None,
    }
}

/// Where the control socket is, going by the configured socket path, the runtime
/// directory, and whether there is a home directory, in that order.
pub fn default_socket_path(
    control_socket: Option<&str>,
    runtime_dir: Option<&str>,
    has_home: bool,
) -> (r: SocketPath)
    ensures
        match (setting(control_socket), setting(runtime_dir)) {
            (Some(p), _) => r matches SocketPath::Given(s) && s@ == p,
            (None, Some(dir)) => r matches SocketPath::Runtime(s) && s@ == dir,
            (None, None) => if has_home {
                r is Home
            } else {
                r is Local
            },
        },
{
    match read_setting(control_socket) {
        Some(p) => {
            return SocketPath::Given(p);
        },
        None => {},
    }
    match read_setting(runtime_dir) {
        Some(dir) => {
            return SocketPath::Runtime(dir);
        },
        None => {},
    }
    if has_home {
        SocketPath::Home
    } else {
        SocketPath::Local
    }
}

/// The names to join to the directory of a socket path, from the outside in.
pub open spec fn names_below(p: SocketPath) -> Seq<Seq<char>> {
    match p {
        SocketPath::Given(_) => seq![],
        SocketPath::Runtime(_) => seq!["groket"@, "control.sock"@],
        SocketPath::Home => seq![".groket"@, "run"@, "control.sock"@],
        SocketPath::Local => seq!["control.sock"@],
    }
}

impl SocketPath {
    /// The names to join to the directory, from the outside in.
    pub fn below(&self) -> (r: Vec<&'static str>)
        ensures
            r@.map_values(|s: &'static str| s@) == names_below(*self),
    {
        let mut out: Vec<&'static str> = Vec::new();
        match self {
            SocketPath::Given(_) => {},
            SocketPath::Runtime(_) => {
                out.push("groket");
                out.push("control.sock");
            },
            SocketPath::Home => {
                out.push(".groket");
                out.push("run");
                out.push("control.sock");
            },
            SocketPath::Local => {
                out.push("control.sock");
            },
        }
        assert(out@.map_values(|s: &'static str| s@) =~= names_below(*self));
        out
    }
}

/// The name that the control socket goes by: its file name, if it has one.
pub fn socket_name(file_name: Option<&str>) -> (r: String)
    ensures
        r@ == match file_name {
            Some(s) => s@,
            None => "control.sock"@,
        },
{
    match file_name {
        Some(s) => s.to_string(),
        None => "control.sock".to_string(),
    }
}

// ---------------------------------------------------------------------------
// Notifications
// ---------------------------------------------------------------------------

/// Something the owner of the control socket tells its clients.
pub struct Notification {
    pub method: String,
    pub params: Value,
}

/// The method and the parameters of a notification; nothing for a message
/// without a method.
pub open spec fn notification_in(j: Json) -> Option<(Seq<char>, Json)> {
    let method = match member(j, "method"@) {
        Some(m) => match text_in(m) {
            Some(s) => s,
            None => Seq::<char>::empty(),
        },
        None => Seq::<char>::empty(),
    };
    if method.len() == 0 {
        None
    } else {
        Some(
            (
                method,
                match member(j, "params"@) {
                    Some(p) => p,
                    None => Json::Null,
                },
            ),
        )
    }
}

/// `r` is the notification `n`, or there is none.
pub open spec fn notifies(r: Option<Notification>, n: Option<(Seq<char>, Json)>) -> bool {
    match r {
        Some(x) => n == Some((x.method@, json_of(x.params))),
        None => n is None,
    }
}

/// The notification in a message, if it is one.
pub fn notification_of(value: &Value) -> (r: Option<Notification>)
    ensures
        notifies(r, notification_in(json_of(*value))),
{
    let method: String = match json::get(value, "method") {
        Some(m) => match json::as_text(m) {
            Some(s) => s.to_string(),
            None => String::new(),
        },
        None => String::new(),
    };
    if method.as_str().is_empty() {
        return None;
    }
    let params: Value = match json::get(value, "params") {
        Some(p) => json::copy(p),
        None => json::null(),
    };
    Some(Notification { method, params })
}

/// The notification in a line of the stream, if there is one.
pub open spec fn notification_line(line: Seq<char>) -> Option<(Seq<char>, Json)> {
    if trimmed(line).len() == 0 {
        None
    } else {
        match read_json(trimmed(line)) {
            Some(j) => notification_in(j),
            None => None,
        }
    }
}

/// Reads a line of the stream of notifications. Blank lines, lines that are not
/// JSON and messages without a method are passed over.
pub fn read_notification(line: &str) -> (r: Option<Notification>)
    ensures
        notifies(r, notification_line(line@)),
{
    let line: &str = text::trim(line);
    if line.is_empty() {
        return None;
    }
    match json::read(line) {
        Ok(value) => notification_of(&value),
        Err(_) => None,
    }
}

/// What the listener for notifications met.
pub enum ListenerEvent {
    /// The socket could not be opened.
    ConnectFailed,
    /// The open socket could not be prepared, or the greeting not sent.
    SetupFailed,
    /// The greeting was sent.
    Ready,
    /// A line came.
    Line(String),
    /// Reading failed.
    ReadFailed(std::io::Error),
    /// The other side closed the stream.
    Closed,
}

/// What the listener for notifications does next.
pub enum ListenerAction {
    /// Drop the stream, pause, and open the socket again.
    Reconnect { pause_ms: u64 },
    /// Read the next line.
    Listen,
    /// Hand the notification on, then read the next line.
    Deliver(Notification),
}

/// The pause after a socket that could not be opened.
pub const LISTENER_CONNECT_PAUSE_MS: u64 = 750;

/// The pause after a stream that broke.
pub const LISTENER_PAUSE_MS: u64 = 500;

/// How long the listener waits for a line before it looks again.
pub const LISTENER_READ_TIMEOUT_MS: u64 = 30_000;

/// What the listener does after an event. A read that merely timed out keeps the
/// stream; any other failure opens a new one.
pub fn listener_next(event: ListenerEvent) -> (r: ListenerAction)
    ensures
        match event {
            ListenerEvent::ConnectFailed => r == (ListenerAction::Reconnect {
                pause_ms: LISTENER_CONNECT_PAUSE_MS,
            }),
            ListenerEvent::SetupFailed => r == (ListenerAction::Reconnect {
                pause_ms: LISTENER_PAUSE_MS,
            }),
            ListenerEvent::Closed => r == (ListenerAction::Reconnect {
                pause_ms: LISTENER_PAUSE_MS,
            }),
            ListenerEvent::Ready => r is Listen,
            ListenerEvent::Line(line) => match notification_line(line@) {
                Some((method, params)) => r matches ListenerAction::Deliver(n) && n.method@
                    == method && json_of(n.params) == params,
                None => r is Listen,
            },
            ListenerEvent::ReadFailed(err) => {
                ||| judged_transient(&err, true) && r is Listen
                ||| judged_transient(&err, false) && r == (ListenerAction::Reconnect {
                    pause_ms: LISTENER_PAUSE_MS,
                })
            },
        },
{
    match event {
        ListenerEvent::ConnectFailed => ListenerAction::Reconnect {
            pause_ms: LISTENER_CONNECT_PAUSE_MS,
        },
        ListenerEvent::SetupFailed => ListenerAction::Reconnect { pause_ms: LISTENER_PAUSE_MS },
        ListenerEvent::Closed => ListenerAction::Reconnect { pause_ms: LISTENER_PAUSE_MS },
        ListenerEvent::Ready => ListenerAction::Listen,
        ListenerEvent::Line(line) => match read_notification(line.as_str()) {
            Some(n) => ListenerAction::Deliver(n),
            None => ListenerAction::Listen,
        },
        ListenerEvent::ReadFailed(err) => if is_transient_io_error(&err) {
            ListenerAction::Listen
        } else {
            ListenerAction::Reconnect { pause_ms: LISTENER_PAUSE_MS }
        },
    }
}

} // verus!
