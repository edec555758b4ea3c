//! What the palette shows: sessions, their overview, timeline and notes.
//!
//! Each type holds what the palette's rules read. Its view is the same data over
//! mathematical values.

use vstd::prelude::*;
use serde_json::Value;

use crate::json::{json_of, Json};

verus! {

/// A page of the detail pane.
#[derive(Debug, Clone, Copy, PartialEq, Eq, Structural)]
pub enum Tab {
    Overview,
    Turns,
    Timeline,
    Findings,
    Notes,
}

/// How many pages the detail pane has.
pub const TAB_COUNT: usize = 5;

/// The place of a page in the tab bar, counted from zero.
pub open spec fn tab_place(t: Tab) -> int {
    match t {
        Tab::Overview => 0,
        Tab::Turns => 1,
        Tab::Timeline => 2,
        Tab::Findings => 3,
        Tab::Notes => 4,
    }
}

/// The page at a place of the tab bar.
pub open spec fn tab_at(place: int) -> Tab {
    if place == 0 {
        Tab::Overview
    } else if place == 1 {
        Tab::Turns
    } else if place == 2 {
        Tab::Timeline
    } else if place == 3 {
        Tab::Findings
    } else {
        Tab::Notes
    }
}

impl Tab {
    /// The place of this page in the tab bar, counted from zero.
    pub fn place(self) -> (r: usize)
        ensures
            r == tab_place(self),
            r < TAB_COUNT,
    {
        match self {
            Tab::Overview => 0,
            Tab::Turns => 1,
            Tab::Timeline => 2,
            Tab::Findings => 3,
            Tab::Notes => 4,
        }
    }

    /// The page at a place of the tab bar.
    pub fn at(place: usize) -> (r: Tab)
        requires
            place < TAB_COUNT,
        ensures
            r == tab_at(place as int),
            tab_place(r) == place,
    {
        if place == 0 {
            Tab::Overview
        } else if place == 1 {
            Tab::Turns
        } else if place == 2 {
            Tab::Timeline
        } else if place == 3 {
            Tab::Findings
        } else {
            Tab::Notes
        }
    }
}

/// Which rows of the timeline are shown.
#[derive(Debug, Clone, Copy, PartialEq, Eq, Structural)]
pub enum KindFilter {
    /// All of them.
    All,
    /// Tool calls.
    Tools,
    /// Another kind, by its place in the filter bar.
    Other(u32),
}

/// A session in the list.
#[derive(Debug)]
pub struct SessionRow {
    pub session_id: String,
    pub title: String,
    pub status: String,
    pub path: String,
    /// When the session was last active. Only the order of two of these counts.
    pub sort_epoch: i64,
}

/// A [`SessionRow`] over mathematical values.
pub struct RowView {
    pub session_id: Seq<char>,
    pub title: Seq<char>,
    pub status: Seq<char>,
    pub path: Seq<char>,
    pub sort_epoch: i64,
}

impl View for SessionRow {
    type V = RowView;

    open spec fn view(&self) -> RowView {
        RowView {
            session_id: self.session_id@,
            title: self.title@,
            status: self.status@,
            path: self.path@,
            sort_epoch: self.sort_epoch,
        }
    }
}

impl Clone for SessionRow {
    fn clone(&self) -> (r: Self)
        ensures
            r == *self,
    {
        SessionRow {
            session_id: self.session_id.clone(),
            title: self.title.clone(),
            status: self.status.clone(),
            path: self.path.clone(),
            sort_epoch: self.sort_epoch,
        }
    }
}

impl Default for SessionRow {
    fn default() -> (r: Self)
        ensures
            r@ == (RowView {
                session_id: seq![],
                title: seq![],
                status: seq![],
                path: seq![],
                sort_epoch: 0,
            }),
    {
        SessionRow {
            session_id: String::new(),
            title: String::new(),
            status: String::new(),
            path: String::new(),
            sort_epoch: 0,
        }
    }
}

/// The rows of a list over mathematical values.
pub open spec fn rows_of(rows: Seq<SessionRow>) -> Seq<RowView> {
    rows.map_values(|r: SessionRow| r@)
}

/// A row of the timeline.
#[derive(Debug)]
pub struct TimelineEvent {
    pub index: i64,
    pub kind: String,
    pub content: String,
}

/// A [`TimelineEvent`] over mathematical values.
pub struct EventView {
    pub index: i64,
    pub kind: Seq<char>,
    pub content: Seq<char>,
}

impl View for TimelineEvent {
    type V = EventView;

    open spec fn view(&self) -> EventView {
        EventView { index: self.index, kind: self.kind@, content: self.content@ }
    }
}

impl Clone for TimelineEvent {
    fn clone(&self) -> (r: Self)
        ensures
            r == *self,
    {
        TimelineEvent {
            index: self.index,
            kind: self.kind.clone(),
            content: self.content.clone(),
        }
    }
}

impl Default for TimelineEvent {
    fn default() -> (r: Self)
        ensures
            r@ == (EventView { index: 0, kind: seq![], content: seq![] }),
    {
        TimelineEvent { index: 0, kind: String::new(), content: String::new() }
    }
}

/// The rows of a timeline over mathematical values.
pub open spec fn events_of(events: Seq<TimelineEvent>) -> Seq<EventView> {
    events.map_values(|e: TimelineEvent| e@)
}

/// A page of the timeline. A total of zero means that it is not known.
pub struct TimelinePage {
    pub events: Vec<TimelineEvent>,
    pub total: u32,
}

/// A timeline after a page was merged into it, and how many rows that added.
pub struct MergedTimeline {
    pub events: Vec<TimelineEvent>,
    pub added: usize,
}

/// What the palette reads of a session's own description.
#[derive(Debug)]
pub struct SessionMeta {
    pub status: String,
    pub path: String,
}

/// A [`SessionMeta`] over mathematical values.
pub struct MetaView {
    pub status: Seq<char>,
    pub path: Seq<char>,
}

impl View for SessionMeta {
    type V = MetaView;

    open spec fn view(&self) -> MetaView {
        MetaView { status: self.status@, path: self.path@ }
    }
}

/// A note on a session.
pub struct Note {
    pub id: String,
    pub turn_index: Option<i64>,
    pub event_indices: Vec<i64>,
    pub fields: Value,
}

/// A [`Note`] over mathematical values.
pub struct NoteView {
    pub id: Seq<char>,
    pub turn_index: Option<i64>,
    pub event_indices: Seq<i64>,
    pub fields: Json,
}

impl View for Note {
    type V = NoteView;

    open spec fn view(&self) -> NoteView {
        NoteView {
            id: self.id@,
            turn_index: self.turn_index,
            event_indices: self.event_indices@,
            fields: json_of(self.fields),
        }
    }
}

/// The notes on a session, and the revision they belong to.
pub struct NotesBlock {
    pub revision: String,
    pub notes: Vec<Note>,
}

/// A [`NotesBlock`] over mathematical values.
pub struct NotesView {
    pub revision: Seq<char>,
    pub notes: Seq<NoteView>,
}

impl View for NotesBlock {
    type V = NotesView;

    open spec fn view(&self) -> NotesView {
        NotesView { revision: self.revision@, notes: self.notes@.map_values(|n: Note| n@) }
    }
}

/// The overview of a session. Its turns are kept as they came.
pub struct Overview {
    pub meta: SessionMeta,
    pub turns: Value,
    pub notes: NotesBlock,
}

/// An [`Overview`] over mathematical values.
pub struct OverviewView {
    pub meta: MetaView,
    pub turns: Json,
    pub notes: NotesView,
}

impl View for Overview {
    type V = OverviewView;

    open spec fn view(&self) -> OverviewView {
        OverviewView { meta: self.meta@, turns: json_of(self.turns), notes: self.notes@ }
    }
}

/// An optional overview over mathematical values.
pub open spec fn overview_of(o: Option<Overview>) -> Option<OverviewView> {
    match o {
        Some(x) => Some(x@),
        None => None,
    }
}

/// The note being written. Numbers are kept as they were typed.
#[derive(Debug)]
pub struct NoteDraft {
    pub id: String,
    pub turn_index: String,
    pub event_index: String,
    pub fields: Vec<(String, String)>,
}

/// A [`NoteDraft`] over mathematical values.
pub struct DraftView {
    pub id: Seq<char>,
    pub turn_index: Seq<char>,
    pub event_index: Seq<char>,
    pub fields: Seq<(Seq<char>, Seq<char>)>,
}

/// Pairs of texts over mathematical values.
pub open spec fn pairs_of(pairs: Seq<(String, String)>) -> Seq<(Seq<char>, Seq<char>)> {
    pairs.map_values(|p: (String, String)| (p.0@, p.1@))
}

impl View for NoteDraft {
    type V = DraftView;

    open spec fn view(&self) -> DraftView {
        DraftView {
            id: self.id@,
            turn_index: self.turn_index@,
            event_index: self.event_index@,
            fields: pairs_of(self.fields@),
        }
    }
}

/// The draft with nothing in it.
pub open spec fn blank_draft() -> DraftView {
    DraftView { id: seq![], turn_index: seq![], event_index: seq![], fields: seq![] }
}

impl Default for NoteDraft {
    fn default() -> (r: Self)
        ensures
            r@ == blank_draft(),
    {
        let r = NoteDraft {
            id: String::new(),
            turn_index: String::new(),
            event_index: String::new(),
            fields: Vec::new(),
        };
        assert(pairs_of(r.fields@) =~= seq![]);
        r
    }
}

/// A field of the note form.
#[derive(Debug)]
pub struct SchemaField {
    pub id: String,
    pub label: String,
}

/// The marks on a turn or timeline card.
#[derive(Debug, Clone, Copy, PartialEq, Eq, Structural)]
pub struct CardMark {
    pub findings: u32,
    pub notes: u32,
    pub errors: u32,
}

/// The marks on the cards of a session: by turn, and by timeline row.
pub struct CardMarks {
    pub turns: std::collections::HashMap<i64, CardMark>,
    pub events: std::collections::HashMap<i64, CardMark>,
}

/// An answer to a request for the session list.
pub struct SessionListPage {
    pub revision: i64,
    /// Nothing changed since the revision that the request named.
    pub unchanged: bool,
    /// Only what changed is in the answer.
    pub delta: bool,
    pub sessions: Vec<SessionRow>,
    pub removed: Vec<String>,
    /// How many sessions there are in all.
    pub matched: i64,
    pub incomplete: bool,
    pub building: bool,
}

/// A [`SessionListPage`] over mathematical values.
pub struct PageView {
    pub revision: i64,
    pub unchanged: bool,
    pub delta: bool,
    pub sessions: Seq<RowView>,
    pub removed: Seq<Seq<char>>,
    pub matched: i64,
    pub incomplete: bool,
    pub building: bool,
}

/// Texts over mathematical values.
pub open spec fn texts_of(texts: Seq<String>) -> Seq<Seq<char>> {
    texts.map_values(|s: String| s@)
}

impl View for SessionListPage {
    type V = PageView;

    open spec fn view(&self) -> PageView {
        PageView {
            revision: self.revision,
            unchanged: self.unchanged,
            delta: self.delta,
            sessions: rows_of(self.sessions@),
            removed: texts_of(self.removed@),
            matched: self.matched,
            incomplete: self.incomplete,
            building: self.building,
        }
    }
}

/// An optional page over mathematical values.
pub open spec fn page_of(p: Option<SessionListPage>) -> Option<PageView> {
    match p {
        Some(x) => Some(x@),
        None => None,
    }
}

/// What the periodic refresh goes by.
#[derive(Debug)]
pub struct TickInput {
    /// The notifications since the last refresh: method and session.
    pub notifies: Vec<(String, String)>,
    pub selected_sid: String,
    pub overview_sid: String,
    pub palette_live: bool,
    pub list_elapsed_ms: u64,
    pub selected_live: bool,
    pub any_live: bool,
    pub on_timeline: bool,
    pub notes_locked: bool,
}

/// A [`TickInput`] over mathematical values.
pub struct TickView {
    pub notifies: Seq<(Seq<char>, Seq<char>)>,
    pub selected_sid: Seq<char>,
    pub overview_sid: Seq<char>,
    pub palette_live: bool,
    pub list_elapsed_ms: u64,
    pub selected_live: bool,
    pub any_live: bool,
    pub on_timeline: bool,
    pub notes_locked: bool,
}

impl View for TickInput {
    type V = TickView;

    open spec fn view(&self) -> TickView {
        TickView {
            notifies: pairs_of(self.notifies@),
            selected_sid: self.selected_sid@,
            overview_sid: self.overview_sid@,
            palette_live: self.palette_live,
            list_elapsed_ms: self.list_elapsed_ms,
            selected_live: self.selected_live,
            any_live: self.any_live,
            on_timeline: self.on_timeline,
            notes_locked: self.notes_locked,
        }
    }
}

/// What a periodic refresh fetches.
#[derive(Debug, Clone, Copy, PartialEq, Eq, Structural)]
pub struct TickPlan {
    pub fetch_list: bool,
    pub load_overview: bool,
    pub refresh_timeline: bool,
}

} // verus!
