//! Rules of the web-view shell: what its commands send, what its tray menu
//! does, and which session it opens first.

use vstd::prelude::*;
use vstd::string::*;
use serde_json::Value;

use crate::control;
use crate::control::{asks, list_params, timeline_params, RpcCall};
use crate::json;
use crate::json::{json_of, object_of, Json};
use crate::text;
use crate::text::{natural_value, trimmed};
use crate::tray;
use crate::tray::{flag_set, SHOW_NOTIFY};

verus! {

/// Rows in a page when the caller gives no limit.
pub const DEFAULT_PAGE_ROWS: u32 = 80;

/// What an entry of the shell's tray menu does.
#[derive(Debug, Clone, Copy, PartialEq, Eq, Structural)]
pub enum TrayAction {
    Show,
    Quit,
    Ignore,
}

/// Map an entry of the shell's tray menu to what it does. An entry that is not
/// known does nothing.
pub fn tray_menu_action(id: &str) -> (r: TrayAction)
    ensures
        r == if id@ == "show-hud"@ {
            TrayAction::Show
        } else if id@ == "quit-hud"@ {
            TrayAction::Quit
        } else {
            TrayAction::Ignore
        },
{
    if text::same(id, "show-hud") {
        TrayAction::Show
    } else if text::same(id, "quit-hud") {
        TrayAction::Quit
    } else {
        TrayAction::Ignore
    }
}

/// True when the setting asks for the palette to show at the start.
pub fn startup_show_requested(value: Option<&str>) -> (r: bool)
    ensures
        r == match value {
            Some(s) => flag_set(s@),
            None => false,
        },
{
    tray::env_flag_enabled(value)
}

/// What the summon shortcut does to the palette window.
#[derive(Debug, Clone, Copy, PartialEq, Eq, Structural)]
pub enum Toggle {
    Hide,
    Show,
}

/// A window known to be visible is hidden; any other one, also one that could
/// not be asked, is shown.
pub fn toggle_palette(visible: Option<bool>) -> (r: Toggle)
    ensures
        r == if visible == Some(true) {
            Toggle::Hide
        } else {
            Toggle::Show
        },
{
    match visible {
        Some(true) => Toggle::Hide,
        _ => Toggle::Show,
    }
}

/// The request for sessions; without a query all of them match.
pub fn control_session_list(query: Option<String>, limit: Option<u32>) -> (r: RpcCall)
    ensures
        asks(
            r,
            "session/list"@,
            list_params(
                match query {
                    Some(q) => q@,
                    None => Seq::<char>::empty(),
                },
                match limit {
                    Some(n) => n as int,
                    None => DEFAULT_PAGE_ROWS as int,
                },
            ),
        ),
{
    let q: String = match query {
        Some(q) => q,
        None => String::new(),
    };
    let n: u32 = match limit {
        Some(n) => n,
        None => DEFAULT_PAGE_ROWS,
    };
    control::session_list(q.as_str(), n)
}

/// The request for a page of the timeline, from the first row on unless the
/// caller says otherwise.
pub fn control_session_timeline(session: &str, offset: Option<u32>, limit: Option<u32>) -> (r:
    RpcCall)
    ensures
        asks(
            r,
            "session/timeline"@,
            timeline_params(
                session@,
                match offset {
                    Some(n) => n as int,
                    None => 0,
                },
                match limit {
                    Some(n) => n as int,
                    None => DEFAULT_PAGE_ROWS as int,
                },
            ),
        ),
{
    let off: u32 = match offset {
        Some(n) => n,
        None => 0,
    };
    let n: u32 = match limit {
        Some(n) => n,
        None => DEFAULT_PAGE_ROWS,
    };
    control::session_timeline(session, off, n)
}

// ---------------------------------------------------------------------------
// Forwarded notifications
// ---------------------------------------------------------------------------

/// What the shell does with a control notification: whether it shows the
/// palette, and what it tells the web view.
pub struct Forward {
    pub show: bool,
    pub payload: Value,
}

/// Hands a control notification on to the web view. The one that reveals the
/// palette also shows the window.
pub fn forward_notification(method: &str, params: &Value) -> (r: Forward)
    ensures
        r.show == (method@ == SHOW_NOTIFY@),
        json_of(r.payload) == object_of(
            seq![("method"@, Json::Text(method@)), ("params"@, json_of(*params))],
        ),
{
    let mut entries: Vec<(String, Value)> = Vec::new();
    entries.push(("method".to_string(), json::text(method.to_string())));
    entries.push(("params".to_string(), json::copy(params)));
    assert(json::entry_trees(entries@) =~= seq![
        ("method"@, Json::Text(method@)),
        ("params"@, json_of(*params)),
    ]);
    Forward { show: text::same(method, SHOW_NOTIFY), payload: json::object(entries) }
}

// ---------------------------------------------------------------------------
// The first selection
// ---------------------------------------------------------------------------

/// The session that the palette opens first.
pub struct InitialSelection {
    pub session: String,
    pub session_id: String,
    pub prompt_index: Option<u32>,
}

/// `std::path::Path::file_name`, as text through `OsStr::to_str`: the last name in
/// a path, if it has one. Which characters part the names of a path depends on the
/// platform, so nothing is said of the result.
#[verifier::external_body]
fn path_name(path: &str) -> (r: Option<&str>)
{
    std::path::Path::new(path).file_name().and_then(|name| name.to_str())
}

/// `r` is what one call of [`path_name`] gave for `path`.
pub closed spec fn told_name(path: &str, r: Option<&str>) -> bool {
    call_ensures(path_name, (path,), r)
}

/// `r` is the selection of the session at the path `session`, whose last name is
/// `name`, with the prompt that `prompt_index` writes. Without a name the session's
/// id is its whole path, and a prompt that is no number is left out.
pub open spec fn selects(
    r: InitialSelection,
    session: Seq<char>,
    name: Option<&str>,
    prompt_index: Option<&str>,
) -> bool {
    &&& r.session@ == session
    &&& r.session_id@ == match name {
        Some(n) => n@,
        None => session,
    }
    &&& r.prompt_index == match prompt_index {
        Some(p) => match natural_value(trimmed(p@)) {
            Some(v) if v <= u32::MAX => Some(v as u32),
            _ => None,
        },
        None => None,
    }
}

/// The selection of the session at the path `session`, whose last name is `name`.
pub fn selection_of(session: &str, name: Option<&str>, prompt_index: Option<&str>) -> (r:
    InitialSelection)
    ensures
        selects(r, session@, name, prompt_index),
{
    let session_id: String = match name {
        Some(n) => n.to_string(),
        None => session.to_string(),
    };
    let prompt_index: Option<u32> = match prompt_index {
        Some(p) => text::read_u32(text::trim(p)),
        None => None,
    };
    InitialSelection { session: session.to_string(), session_id, prompt_index }
}

/// The session to open first, going by the session setting and the setting for
/// the prompt in it. The session's id is the last name in its path.
pub fn hud_initial_selection(session: Option<&str>, prompt_index: Option<&str>) -> (r: Option<
    InitialSelection,
>)
    ensures
        match session {
            Some(s) if trimmed(s@).len() > 0 => r is Some && exists|path: &str, name: Option<&str>|
                path@ == trimmed(s@) && #[trigger] told_name(path, name) && selects(
                    r->0,
                    trimmed(s@),
                    name,
                    prompt_index,
                ),
            _ => r is None,
        },
{
    let path: &str = match session {
        Some(s) => text::trim(s),
        None => {
            return None;
        },
    };
    if path.is_empty() {
        return None;
    }
    let name: Option<&str> = path_name(path);
    assert(told_name(path, name));
    Some(selection_of(path, name, prompt_index))
}

} // verus!
