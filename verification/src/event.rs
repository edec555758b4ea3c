//! What happens to the palette, and what the palette asks its surroundings to
//! do.

use vstd::prelude::*;
use serde_json::Value;

use crate::json::{json_of, Json};
use crate::model::{KindFilter, Tab};
use crate::tray::TrayAction;

verus! {

/// A key, as far as the palette tells keys apart.
pub enum HudKey {
    Escape,
    Tab,
    ArrowDown,
    ArrowUp,
    Home,
    End,
    Enter,
    /// A key that types this text.
    Character(String),
    Other,
}

/// The modifier keys held down.
#[derive(Debug, Clone, Copy, PartialEq, Eq, Structural)]
pub struct KeyMods {
    pub shift: bool,
    pub control: bool,
    pub command: bool,
}

/// An event of the window system, as far as the palette tells events apart.
pub enum HudEvent {
    CloseRequested,
    KeyPressed { key: HudKey, modifiers: KeyMods },
    MousePressed,
    Other,
}

/// Something that happened to the palette.
pub enum Message {
    SearchChanged(String),
    SelectSession(usize),
    SetTab(Tab),
    TimelineQuery(String),
    TimelineKind(KindFilter),
    JumpTimeline(i64),
    SelectTimeline(i64),
    LoadMoreTimeline,
    StartNote { turn: String, event: String },
    OpenNote(String),
    ResetDraft,
    NoteField { id: String, value: String },
    NoteTurn(String),
    SaveNote,
    RequestDelete(String),
    PopOutWindow,
    Hotkey,
    /// Time passed; the notifications that came since the last time.
    Tick(Vec<(String, Value)>),
    FocusSearch(u8),
    RawEvent(HudEvent),
    /// The greeting was answered: the file name of the socket, or an error.
    Inited(Result<String, String>),
    ListLoaded { quiet: bool, result: Result<Value, String> },
    OverviewLoaded { gen: u64, sid: String, quiet: bool, result: Result<Value, String> },
    TimelineLoaded {
        gen: u64,
        sid: String,
        offset: u32,
        append: bool,
        result: Result<Value, String>,
    },
    NoteSaved(Result<Value, String>),
    NoteDeleted { id: String, result: Result<Value, String> },
    WindowId(Option<u64>),
    /// The window system was asked for the keyboard focus.
    X11Focus { focused: bool, attempt: u8 },
    Hide,
    Tray(TrayAction),
    MdLink(String),
    /// The timeline was scrolled; whether the marked row is out of sight now.
    TimelineScroll { focus_outside: bool },
    ContinueTimeline { sid: String, gen: u64 },
}

/// The time of a step, and the number that a window opened in it gets.
#[derive(Debug, Clone, Copy, PartialEq, Eq, Structural)]
pub struct Moment {
    pub now_ms: u64,
    pub fresh_window: u64,
}

/// An input field of the palette.
#[derive(Debug, Clone, Copy, PartialEq, Eq, Structural)]
pub enum Input {
    Search,
    TimelineSearch,
}

/// How many timeline rows to ask for.
#[derive(Debug, Clone, Copy, PartialEq, Eq, Structural)]
pub enum PageSize {
    /// So many.
    Rows(u32),
    /// As many as one step of loading the whole timeline takes.
    Chunk,
    /// As many as a look at the end of a live timeline takes.
    LiveTail,
}

/// The two windows of the palette.
#[derive(Debug, Clone, Copy, PartialEq, Eq, Structural)]
pub enum WindowKind {
    /// The borderless overlay.
    Palette,
    /// The decorated desktop window.
    App,
}

/// Something the palette asks its surroundings to do.
pub enum Effect {
    /// Greet the owner of the control socket.
    Greet,
    /// Ask for the session list; `since` names the revision that is known.
    FetchList { quiet: bool, since: i64 },
    LoadOverview { rpc_ref: String, sid: String, gen: u64, quiet: bool },
    FetchTimeline {
        rpc_ref: String,
        sid: String,
        offset: u32,
        append: bool,
        gen: u64,
        limit: PageSize,
    },
    /// Send [`Message::ContinueTimeline`] after a pause.
    ContinueTimeline { sid: String, gen: u64, wait_ms: u64 },
    SaveNote { session: String, note: Value, revision: String },
    DeleteNote { session: String, nid: String, revision: String },
    FocusInput(Input),
    /// Give a window the keyboard focus.
    FocusWindow { id: u64, attempt: u8 },
    /// Bring a window to the front.
    GainFocus(u64),
    /// Send [`Message::FocusSearch`] after a pause.
    DelayedFocus { attempt: u8, wait_ms: u64 },
    /// Scroll the timeline to this place in the filtered rows, or to the top.
    ScrollTimeline(Option<usize>),
    /// Take the timeline for scrolled to the top.
    TimelineTop,
    /// Keep the list scrolled within this many rows.
    ClampList(usize),
    /// Scroll the list so that this row is in sight.
    RevealRow(usize),
    OpenWindow { kind: WindowKind, id: u64 },
    CloseWindow(u64),
    HideWindow(u64),
    /// Show a window as the overlay: mapped, above the others, at its size.
    ShowOverlay(u64),
    /// Give a window the looks of the overlay, or of a desktop window.
    NativeChrome { id: u64, overlay: bool },
    /// Put the overlay where it belongs on the display.
    PlaceOverlay(u64),
    ReleaseKeyboard,
    /// Appear among the desktop's applications, or not.
    DesktopApp(bool),
    /// Read the theme's name anew.
    SyncTheme,
    /// Write a failure to the error log.
    LogError(String),
    /// End the process.
    Exit,
}

/// An [`Effect`] over mathematical values.
pub enum EffectView {
    Greet,
    FetchList { quiet: bool, since: i64 },
    LoadOverview { rpc_ref: Seq<char>, sid: Seq<char>, gen: int, quiet: bool },
    FetchTimeline {
        rpc_ref: Seq<char>,
        sid: Seq<char>,
        offset: u32,
        append: bool,
        gen: int,
        limit: PageSize,
    },
    ContinueTimeline { sid: Seq<char>, gen: int, wait_ms: int },
    SaveNote { session: Seq<char>, note: Json, revision: Seq<char> },
    DeleteNote { session: Seq<char>, nid: Seq<char>, revision: Seq<char> },
    FocusInput(Input),
    FocusWindow { id: u64, attempt: u8 },
    GainFocus(u64),
    DelayedFocus { attempt: u8, wait_ms: int },
    ScrollTimeline(Option<int>),
    TimelineTop,
    ClampList(int),
    RevealRow(int),
    OpenWindow { kind: WindowKind, id: u64 },
    CloseWindow(u64),
    HideWindow(u64),
    ShowOverlay(u64),
    NativeChrome { id: u64, overlay: bool },
    PlaceOverlay(u64),
    ReleaseKeyboard,
    DesktopApp(bool),
    SyncTheme,
    LogError(Seq<char>),
    Exit,
}

impl View for Effect {
    type V = EffectView;

    open spec fn view(&self) -> EffectView {
        match *self {
            Effect::Greet => EffectView::Greet,
            Effect::FetchList { quiet, since } => EffectView::FetchList { quiet, since },
            Effect::LoadOverview { rpc_ref, sid, gen, quiet } => EffectView::LoadOverview {
                rpc_ref: rpc_ref@,
                sid: sid@,
                gen: gen as int,
                quiet,
            },
            Effect::FetchTimeline { rpc_ref, sid, offset, append, gen, limit } => {
                EffectView::FetchTimeline {
                    rpc_ref: rpc_ref@,
                    sid: sid@,
                    offset,
                    append,
                    gen: gen as int,
                    limit,
                }
            },
            Effect::ContinueTimeline { sid, gen, wait_ms } => EffectView::ContinueTimeline {
                sid: sid@,
                gen: gen as int,
                wait_ms: wait_ms as int,
            },
            Effect::SaveNote { session, note, revision } => EffectView::SaveNote {
                session: session@,
                note: json_of(note),
                revision: revision@,
            },
            Effect::DeleteNote { session, nid, revision } => EffectView::DeleteNote {
                session: session@,
                nid: nid@,
                revision: revision@,
            },
            Effect::FocusInput(i) => EffectView::FocusInput(i),
            Effect::FocusWindow { id, attempt } => EffectView::FocusWindow { id, attempt },
            Effect::GainFocus(id) => EffectView::GainFocus(id),
            Effect::DelayedFocus { attempt, wait_ms } => EffectView::DelayedFocus {
                attempt,
                wait_ms: wait_ms as int,
            },
            Effect::ScrollTimeline(pos) => EffectView::ScrollTimeline(
                match pos {
                    Some(p) => Some(p as int),
                    None => None,
                },
            ),
            Effect::TimelineTop => EffectView::TimelineTop,
            Effect::ClampList(n) => EffectView::ClampList(n as int),
            Effect::RevealRow(n) => EffectView::RevealRow(n as int),
            Effect::OpenWindow { kind, id } => EffectView::OpenWindow { kind, id },
            Effect::CloseWindow(id) => EffectView::CloseWindow(id),
            Effect::HideWindow(id) => EffectView::HideWindow(id),
            Effect::ShowOverlay(id) => EffectView::ShowOverlay(id),
            Effect::NativeChrome { id, overlay } => EffectView::NativeChrome { id, overlay },
            Effect::PlaceOverlay(id) => EffectView::PlaceOverlay(id),
            Effect::ReleaseKeyboard => EffectView::ReleaseKeyboard,
            Effect::DesktopApp(on) => EffectView::DesktopApp(on),
            Effect::SyncTheme => EffectView::SyncTheme,
            Effect::LogError(text) => EffectView::LogError(text@),
            Effect::Exit => EffectView::Exit,
        }
    }
}

/// A list of effects over mathematical values.
pub open spec fn effects_of(fx: Seq<Effect>) -> Seq<EffectView> {
    fx.map_values(|e: Effect| e@)
}

/// One more effect at the end.
pub broadcast proof fn lemma_effects_push(fx: Seq<Effect>, e: Effect)
    ensures
        #[trigger] effects_of(fx.push(e)) == effects_of(fx).push(e@),
{
    assert(effects_of(fx.push(e)) =~= effects_of(fx).push(e@));
}

/// Two lists of effects, one after the other.
pub broadcast proof fn lemma_effects_join(a: Seq<Effect>, b: Seq<Effect>)
    ensures
        #[trigger] effects_of(a + b) == effects_of(a) + effects_of(b),
{
    assert(effects_of(a + b) =~= effects_of(a) + effects_of(b));
}

/// No effects.
pub(crate) fn nothing() -> (r: Vec<Effect>)
    ensures
        effects_of(r@) == Seq::<EffectView>::empty(),
{
    let r: Vec<Effect> = Vec::new();
    assert(effects_of(r@) =~= Seq::<EffectView>::empty());
    r
}

/// A single effect.
pub(crate) fn only(e: Effect) -> (r: Vec<Effect>)
    ensures
        effects_of(r@) == seq![e@],
{
    let mut r: Vec<Effect> = Vec::new();
    r.push(e);
    assert(effects_of(r@) =~= seq![e@]);
    r
}

/// The effects of `a`, then those of `b`.
pub(crate) fn both(a: Vec<Effect>, b: Vec<Effect>) -> (r: Vec<Effect>)
    ensures
        effects_of(r@) == effects_of(a@) + effects_of(b@),
{
    broadcast use lemma_effects_join;

    let mut r: Vec<Effect> = a;
    let mut b: Vec<Effect> = b;
    r.append(&mut b);
    r
}

/// The effects of `a`, then `e`.
pub(crate) fn and(a: Vec<Effect>, e: Effect) -> (r: Vec<Effect>)
    ensures
        effects_of(r@) == effects_of(a@).push(e@),
{
    broadcast use lemma_effects_push;

    let mut r: Vec<Effect> = a;
    r.push(e);
    r
}

/// Which events of the window system the palette is told: a request to close,
/// and a key press that no input field took.
pub fn interesting_hud_event(event: HudEvent, ignored: bool) -> (r: Option<Message>)
    ensures
        match event {
            HudEvent::CloseRequested => r == Some(Message::RawEvent(event)),
            HudEvent::KeyPressed { .. } => r == if ignored {
                Some(Message::RawEvent(event))
            } else {
                None
            },
            _ => r is None,
        },
{
    match event {
        HudEvent::CloseRequested => Some(Message::RawEvent(event)),
        HudEvent::KeyPressed { key, modifiers } => if ignored {
            Some(Message::RawEvent(HudEvent::KeyPressed { key, modifiers }))
        } else {
            None
        },
        _ => None,
    }
}

/// The pause before attempt `attempt` to focus the palette.
pub open spec fn focus_wait(attempt: u8) -> int {
    if attempt == 0 {
        30
    } else {
        40 + attempt * 20
    }
}

/// A later attempt to focus the palette.
pub open spec fn later_focus(attempt: u8) -> EffectView {
    EffectView::DelayedFocus { attempt, wait_ms: focus_wait(attempt) }
}

/// Asks for a later attempt to focus the palette.
pub fn delayed_focus(attempt: u8) -> (r: Effect)
    ensures
        r@ == later_focus(attempt),
{
    let wait_ms: u64 = if attempt == 0 {
        30
    } else {
        40 + attempt as u64 * 20
    };
    Effect::DelayedFocus { attempt, wait_ms }
}

/// Which list request a fetch sends.
#[derive(Debug, Clone, Copy, PartialEq, Eq, Structural)]
pub enum ListQuery {
    /// What changed since a revision, in at most so many rows.
    Since { limit: u32, offset: u32, since: i64 },
    /// The whole catalog.
    All,
}

/// A quiet fetch that knows a revision asks for the changes only.
pub fn list_query(quiet: bool, since: i64) -> (r: ListQuery)
    ensures
        r == if quiet && since > 0 {
            ListQuery::Since { limit: 10_000, offset: 0, since }
        } else {
            ListQuery::All
        },
{
    if quiet && since > 0 {
        ListQuery::Since { limit: 10_000, offset: 0, since }
    } else {
        ListQuery::All
    }
}

} // verus!
