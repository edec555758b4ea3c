//! The palette's state, and what is read from it.

use std::collections::HashMap;

use vstd::prelude::*;
use vstd::string::*;

use crate::domain::{
    ask_coverage, ask_down, ask_label, ask_live, ask_ref, coverage_says, down_says, label_says,
    live_says, ref_says, Domain,
};
use crate::model::{
    blank_draft, events_of, overview_of, rows_of, CardMark, DraftView, EventView, KindFilter,
    NoteDraft, Overview, OverviewView, RowView, SchemaField, SessionRow, Tab, TimelineEvent,
};
use crate::text;
use crate::text::{decimal, trimmed};

verus! {

/// The state of the palette.
pub struct Hud {
    /// The text in the search field.
    pub query: String,
    /// The whole catalog.
    pub all_sessions: Vec<SessionRow>,
    /// The rows that match the search, while there is one.
    pub sessions: Vec<SessionRow>,
    /// The place of the selected row.
    pub active: usize,
    pub tab: Tab,
    pub overview: Option<Overview>,
    /// The session that the overview is of.
    pub overview_sid: String,
    /// The session whose overview was asked for.
    pub overview_pending: String,
    /// Counts overview requests; an answer to an older one is stale.
    pub overview_gen: u64,
    pub timeline: Vec<TimelineEvent>,
    /// The session that the timeline is of.
    pub timeline_sid: String,
    /// How many rows the timeline has in all; zero when that is not known.
    pub timeline_total: u32,
    /// The row after the last one that was asked for.
    pub timeline_next: u32,
    /// Counts timelines; an answer for an older one is stale.
    pub timeline_gen: u64,
    pub timeline_loading: bool,
    pub timeline_query: String,
    pub timeline_kind: KindFilter,
    /// The marked row, by its index.
    pub timeline_focus: Option<i64>,
    pub note_draft: NoteDraft,
    /// A note is being written: the palette keeps its hands off.
    pub note_compose_lock: bool,
    pub note_saving: bool,
    /// The note that the next delete request removes.
    pub note_delete_armed: String,
    /// When the delete request is forgotten.
    pub note_delete_until: Option<u64>,
    pub status: String,
    pub status_err: bool,
    pub hotkey_hint: String,
    /// The palette is a desktop window, not an overlay.
    pub window_mode: bool,
    pub visible: bool,
    pub palette_live: bool,
    /// When the last refresh was.
    pub last_live: u64,
    pub typing_notes: bool,
    pub theme_name: String,
    pub window_id: Option<u64>,
    /// The revision of the catalog.
    pub catalog_revision: i64,
    /// The timeline rows that are shown, by their places.
    pub tl_filter: Vec<usize>,
    pub turn_marks: HashMap<i64, CardMark>,
    pub event_marks: HashMap<i64, CardMark>,
}

/// A [`Hud`] over mathematical values.
pub struct HudView {
    pub query: Seq<char>,
    pub all_sessions: Seq<RowView>,
    pub sessions: Seq<RowView>,
    pub active: int,
    pub tab: Tab,
    pub overview: Option<OverviewView>,
    pub overview_sid: Seq<char>,
    pub overview_pending: Seq<char>,
    pub overview_gen: int,
    pub timeline: Seq<EventView>,
    pub timeline_sid: Seq<char>,
    pub timeline_total: u32,
    pub timeline_next: u32,
    pub timeline_gen: int,
    pub timeline_loading: bool,
    pub timeline_query: Seq<char>,
    pub timeline_kind: KindFilter,
    pub timeline_focus: Option<i64>,
    pub note_draft: DraftView,
    pub note_compose_lock: bool,
    pub note_saving: bool,
    pub note_delete_armed: Seq<char>,
    pub note_delete_until: Option<u64>,
    pub status: Seq<char>,
    pub status_err: bool,
    pub hotkey_hint: Seq<char>,
    pub window_mode: bool,
    pub visible: bool,
    pub palette_live: bool,
    pub last_live: u64,
    pub typing_notes: bool,
    pub theme_name: Seq<char>,
    pub window_id: Option<u64>,
    pub catalog_revision: i64,
    pub tl_filter: Seq<usize>,
    pub turn_marks: Map<i64, CardMark>,
    pub event_marks: Map<i64, CardMark>,
}

impl View for Hud {
    type V = HudView;

    open spec fn view(&self) -> HudView {
        HudView {
            query: self.query@,
            all_sessions: rows_of(self.all_sessions@),
            sessions: rows_of(self.sessions@),
            active: self.active as int,
            tab: self.tab,
            overview: overview_of(self.overview),
            overview_sid: self.overview_sid@,
            overview_pending: self.overview_pending@,
            overview_gen: self.overview_gen as int,
            timeline: events_of(self.timeline@),
            timeline_sid: self.timeline_sid@,
            timeline_total: self.timeline_total,
            timeline_next: self.timeline_next,
            timeline_gen: self.timeline_gen as int,
            timeline_loading: self.timeline_loading,
            timeline_query: self.timeline_query@,
            timeline_kind: self.timeline_kind,
            timeline_focus: self.timeline_focus,
            note_draft: self.note_draft@,
            note_compose_lock: self.note_compose_lock,
            note_saving: self.note_saving,
            note_delete_armed: self.note_delete_armed@,
            note_delete_until: self.note_delete_until,
            status: self.status@,
            status_err: self.status_err,
            hotkey_hint: self.hotkey_hint@,
            window_mode: self.window_mode,
            visible: self.visible,
            palette_live: self.palette_live,
            last_live: self.last_live,
            typing_notes: self.typing_notes,
            theme_name: self.theme_name@,
            window_id: self.window_id,
            catalog_revision: self.catalog_revision,
            tl_filter: self.tl_filter@,
            turn_marks: self.turn_marks@,
            event_marks: self.event_marks@,
        }
    }
}

/// The palette at the start: the overlay, visible, with nothing loaded.
pub open spec fn boot_view(hotkey_hint: Seq<char>, theme_name: Seq<char>, now_ms: u64) -> HudView {
    HudView {
        query: seq![],
        all_sessions: seq![],
        sessions: seq![],
        active: 0,
        tab: Tab::Overview,
        overview: None,
        overview_sid: seq![],
        overview_pending: seq![],
        overview_gen: 0,
        timeline: seq![],
        timeline_sid: seq![],
        timeline_total: 0,
        timeline_next: 0,
        timeline_gen: 0,
        timeline_loading: false,
        timeline_query: seq![],
        timeline_kind: KindFilter::All,
        timeline_focus: None,
        note_draft: blank_draft(),
        note_compose_lock: false,
        note_saving: false,
        note_delete_armed: seq![],
        note_delete_until: None,
        status: "connecting…"@,
        status_err: false,
        hotkey_hint,
        window_mode: false,
        visible: true,
        palette_live: true,
        last_live: now_ms,
        typing_notes: false,
        theme_name,
        window_id: None,
        catalog_revision: 0,
        tl_filter: seq![],
        turn_marks: Map::empty(),
        event_marks: Map::empty(),
    }
}

// ---------------------------------------------------------------------------
// What is shown and selected
// ---------------------------------------------------------------------------

/// The rows in the list: the matching ones while there is a search, else all.
pub open spec fn shown(v: HudView) -> Seq<RowView> {
    if trimmed(v.query).len() == 0 {
        v.all_sessions
    } else {
        v.sessions
    }
}

/// The selected row, if the list has it.
pub open spec fn selected_row(v: HudView) -> Option<RowView> {
    if 0 <= v.active < shown(v).len() {
        Some(shown(v)[v.active])
    } else {
        None
    }
}

/// The id of the selected session, if it has one.
pub open spec fn selected_id(v: HudView) -> Option<Seq<char>> {
    match selected_row(v) {
        Some(r) if r.session_id.len() > 0 => Some(r.session_id),
        _ => None,
    }
}

/// `out` is how requests name the selected session, or nothing when there is no
/// such row or no name for it.
pub open spec fn selected_ref_is<D: Domain>(d: &D, v: HudView, out: Option<Seq<char>>) -> bool {
    match selected_row(v) {
        None => out is None,
        Some(r) => match out {
            Some(t) => t.len() > 0 && ref_says(d, r.path, r.session_id, t),
            None => ref_says(d, r.path, r.session_id, seq![]),
        },
    }
}

/// `out` is how requests name the session in the overview: by the overview's own
/// path, else as the selected session, else by the selected id.
pub open spec fn overview_ref_is<D: Domain>(d: &D, v: HudView, out: Seq<char>) -> bool {
    ||| v.overview is Some && out.len() > 0 && ref_says(
        d,
        v.overview->0.meta.path,
        v.overview_sid,
        out,
    )
    ||| (v.overview is Some ==> ref_says(d, v.overview->0.meta.path, v.overview_sid, seq![]))
        && fallback_ref_is(d, v, out)
}

/// `out` is how requests name the selected session, or its id, or empty.
pub open spec fn fallback_ref_is<D: Domain>(d: &D, v: HudView, out: Seq<char>) -> bool {
    ||| selected_ref_is(d, v, Some(out))
    ||| selected_ref_is(d, v, None) && out == match selected_id(v) {
        Some(s) => s,
        None => seq![],
    }
}

/// `out` is the status of the selected session: as the overview shows it, else as
/// the list has it.
pub open spec fn status_is<D: Domain>(d: &D, v: HudView, out: Seq<char>) -> bool {
    let listed = match selected_row(v) {
        Some(r) => r.status,
        None => seq![],
    };
    match v.overview {
        Some(o) => {
            ||| out.len() > 0 && label_says(d, o.meta, out)
            ||| label_says(d, o.meta, seq![]) && out == listed
        },
        None => out == listed,
    }
}

/// `out` says whether the timeline is loaded to its end.
pub open spec fn complete_is<D: Domain>(d: &D, v: HudView, out: bool) -> bool {
    if v.timeline_sid.len() == 0 {
        !out
    } else {
        coverage_says(d, v.timeline.len(), v.timeline_total, out)
    }
}

/// `out` says whether any listed session counts as live by its status alone.
pub open spec fn any_row_live_is<D: Domain>(d: &D, rows: Seq<RowView>, out: bool) -> bool {
    if out {
        exists|i: int| 0 <= i < rows.len() && live_says(d, (#[trigger] rows[i]).status, None, true)
    } else {
        forall|i: int|
            0 <= i < rows.len() ==> live_says(d, (#[trigger] rows[i]).status, None, false)
    }
}

/// `out` says whether the selected session counts as live.
pub open spec fn selected_live_is<D: Domain>(d: &D, v: HudView, out: bool) -> bool {
    exists|s: Seq<char>|
        #![trigger status_is(d, v, s)]
        status_is(d, v, s) && live_says(
            d,
            s,
            match v.overview {
                Some(o) => Some(o.turns),
                None => None,
            },
            out,
        )
}

/// `out` says whether the selected session or any listed one counts as live.
pub open spec fn any_live_is<D: Domain>(d: &D, v: HudView, selected: bool, out: bool) -> bool {
    if selected {
        out
    } else {
        any_row_live_is(d, v.all_sessions, out)
    }
}

/// The place in the filtered rows, from `from` on, of the first one whose index
/// is `focus`.
pub open spec fn focus_from(
    filter: Seq<usize>,
    timeline: Seq<EventView>,
    focus: i64,
    from: int,
) -> Option<int>
    decreases filter.len() - from,
{
    if from < 0 || from >= filter.len() {
        None
    } else if filter[from] < timeline.len() && timeline[filter[from] as int].index == focus {
        Some(from)
    } else {
        focus_from(filter, timeline, focus, from + 1)
    }
}

/// The place of the marked row in the filtered rows.
pub open spec fn focus_place(v: HudView) -> Option<int> {
    match v.timeline_focus {
        Some(focus) => focus_from(v.tl_filter, v.timeline, focus, 0),
        None => None,
    }
}

/// The line that counts timeline rows: those shown, and, while the timeline is
/// not complete, those loaded and their total.
pub open spec fn meta_line(shown: nat, loaded: nat, total: nat, complete: bool) -> Seq<char> {
    if complete {
        decimal(shown)
    } else {
        decimal(shown) + "+ · "@ + decimal(loaded) + "/"@ + decimal(total)
    }
}

/// Control failed with `err`: the status line says so.
pub open spec fn downed<D: Domain>(d: &D, pre: HudView, err: Seq<char>, post: HudView) -> bool {
    &&& post == HudView { status: post.status, status_err: true, ..pre }
    &&& down_says(d, err, post.status)
}

/// The overlay is mapped as the palette.
pub open spec fn overlay_mapped(v: HudView) -> bool {
    v.visible && !v.window_mode && v.window_id is Some
}

/// Overlay is already the mapped palette: do not remap, resize, or refetch.
pub fn overlay_already_mapped(visible: bool, window_mode: bool, has_window: bool) -> (r: bool)
    ensures
        r == (visible && !window_mode && has_window),
{
    visible && !window_mode && has_window
}

impl Hud {
    /// The counters of requests have not run out.
    pub open spec fn has_room(self) -> bool {
        self.overview_gen < u64::MAX && self.timeline_gen < u64::MAX
    }

    /// The palette at the start, with the label of the summon shortcut, the name of
    /// the theme and the present time.
    pub fn boot(hotkey_hint: String, theme_name: String, now_ms: u64) -> (r: Hud)
        ensures
            r@ == boot_view(hotkey_hint@, theme_name@, now_ms),
            r.has_room(),
    {
        let r = Hud {
            query: String::new(),
            all_sessions: Vec::new(),
            sessions: Vec::new(),
            active: 0,
            tab: Tab::Overview,
            overview: None,
            overview_sid: String::new(),
            overview_pending: String::new(),
            overview_gen: 0,
            timeline: Vec::new(),
            timeline_sid: String::new(),
            timeline_total: 0,
            timeline_next: 0,
            timeline_gen: 0,
            timeline_loading: false,
            timeline_query: String::new(),
            timeline_kind: KindFilter::All,
            timeline_focus: None,
            note_draft: NoteDraft::default(),
            note_compose_lock: false,
            note_saving: false,
            note_delete_armed: String::new(),
            note_delete_until: None,
            status: "connecting…".to_string(),
            status_err: false,
            hotkey_hint,
            window_mode: false,
            visible: true,
            palette_live: true,
            last_live: now_ms,
            typing_notes: false,
            theme_name,
            window_id: None,
            catalog_revision: 0,
            tl_filter: Vec::new(),
            turn_marks: HashMap::new(),
            event_marks: HashMap::new(),
        };
        proof {
            assert(rows_of(r.all_sessions@) =~= seq![]);
            assert(rows_of(r.sessions@) =~= seq![]);
            assert(events_of(r.timeline@) =~= seq![]);
            assert(r.tl_filter@ =~= seq![]);
        }
        r
    }

    pub fn query(&self) -> (r: &str)
        ensures
            r@ == self@.query,
    {
        self.query.as_str()
    }

    /// The rows in the list.
    pub fn sessions(&self) -> (r: &Vec<SessionRow>)
        ensures
            rows_of(r@) == shown(self@),
            r@.len() == shown(self@).len(),
            *r == self.all_sessions || *r == self.sessions,
    {
        if text::is_blank(self.query.as_str()) {
            &self.all_sessions
        } else {
            &self.sessions
        }
    }

    pub fn active(&self) -> (r: usize)
        ensures
            r == self@.active,
    {
        self.active
    }

    pub fn tab(&self) -> (r: Tab)
        ensures
            r == self@.tab,
    {
        self.tab
    }

    pub fn overview(&self) -> (r: Option<&Overview>)
        ensures
            match r {
                Some(o) => self@.overview == Some(o@),
                None => self@.overview is None,
            },
    {
        self.overview.as_ref()
    }

    pub fn overview_sid(&self) -> (r: &str)
        ensures
            r@ == self@.overview_sid,
    {
        self.overview_sid.as_str()
    }

    pub fn overview_pending(&self) -> (r: &str)
        ensures
            r@ == self@.overview_pending,
    {
        self.overview_pending.as_str()
    }

    pub fn timeline_query(&self) -> (r: &str)
        ensures
            r@ == self@.timeline_query,
    {
        self.timeline_query.as_str()
    }

    pub fn timeline_kind(&self) -> (r: KindFilter)
        ensures
            r == self@.timeline_kind,
    {
        self.timeline_kind
    }

    pub fn timeline_focus(&self) -> (r: Option<i64>)
        ensures
            r == self@.timeline_focus,
    {
        self.timeline_focus
    }

    pub fn timeline_events(&self) -> (r: &Vec<TimelineEvent>)
        ensures
            events_of(r@) == self@.timeline,
    {
        &self.timeline
    }

    pub fn timeline_loading(&self) -> (r: bool)
        ensures
            r == self@.timeline_loading,
    {
        self.timeline_loading
    }

    pub fn note_draft(&self) -> (r: &NoteDraft)
        ensures
            r@ == self@.note_draft,
    {
        &self.note_draft
    }

    pub fn note_saving(&self) -> (r: bool)
        ensures
            r == self@.note_saving,
    {
        self.note_saving
    }

    pub fn note_delete_armed(&self) -> (r: &str)
        ensures
            r@ == self@.note_delete_armed,
    {
        self.note_delete_armed.as_str()
    }

    pub fn status(&self) -> (r: &str)
        ensures
            r@ == self@.status,
    {
        self.status.as_str()
    }

    pub fn status_err(&self) -> (r: bool)
        ensures
            r == self@.status_err,
    {
        self.status_err
    }

    pub fn hotkey_hint(&self) -> (r: &str)
        ensures
            r@ == self@.hotkey_hint,
    {
        self.hotkey_hint.as_str()
    }

    pub fn window_mode(&self) -> (r: bool)
        ensures
            r == self@.window_mode,
    {
        self.window_mode
    }

    pub fn theme_name(&self) -> (r: &str)
        ensures
            r@ == self@.theme_name,
    {
        self.theme_name.as_str()
    }

    /// The fields of the note form.
    pub fn notes_schema<D: Domain>(&self, d: &D) -> (r: Vec<SchemaField>)
        ensures
            match self.overview {
                Some(o) => call_ensures(D::notes_schema_fields, (d, Some(&o)), r),
                None => call_ensures(D::notes_schema_fields, (d, None::<&Overview>), r),
            },
    {
        d.notes_schema_fields(self.overview.as_ref())
    }

    /// The timeline rows that are shown, by their places.
    pub fn filtered_indices(&self) -> (r: &Vec<usize>)
        ensures
            r@ == self@.tl_filter,
    {
        &self.tl_filter
    }

    /// The marks on the cards: by turn, and by timeline row.
    pub fn card_marks(&self) -> (r: (&HashMap<i64, CardMark>, &HashMap<i64, CardMark>))
        ensures
            r.0@ == self@.turn_marks,
            r.1@ == self@.event_marks,
    {
        (&self.turn_marks, &self.event_marks)
    }

    /// Whether the timeline is loaded to its end.
    pub fn timeline_complete<D: Domain>(&self, d: &D) -> (r: bool)
        ensures
            complete_is(d, self@, r),
    {
        !self.timeline_sid.as_str().is_empty() && ask_coverage(
            d,
            self.timeline.len(),
            self.timeline_total,
        )
    }

    /// The line that counts timeline rows; empty without an overview.
    pub fn timeline_meta<D: Domain>(&self, d: &D) -> (r: String)
        ensures
            if self@.overview_sid.len() == 0 {
                r@ == Seq::<char>::empty()
            } else {
                exists|complete: bool| #[trigger]
                    complete_is(d, self@, complete) && r@ == meta_line(
                        self@.tl_filter.len(),
                        self@.timeline.len(),
                        self@.timeline_total as nat,
                        complete,
                    )
            },
    {
        if self.overview_sid.as_str().is_empty() {
            return String::new();
        }
        let complete: bool = self.timeline_complete(d);
        assert(complete_is(d, self@, complete));
        write_meta(self.tl_filter.len(), self.timeline.len(), self.timeline_total, complete)
    }

    /// The id of the selected session, if it has one.
    pub fn selected_sid(&self) -> (r: Option<String>)
        ensures
            match r {
                Some(s) => selected_id(self@) == Some(s@),
                None => selected_id(self@) is None,
            },
    {
        let rows: &Vec<SessionRow> = self.sessions();
        if self.active < rows.len() {
            let sid: &String = &rows[self.active].session_id;
            assert(shown(self@)[self.active as int] == rows@[self.active as int]@);
            if sid.as_str().is_empty() {
                None
            } else {
                Some(sid.clone())
            }
        } else {
            None
        }
    }

    /// How requests name the selected session.
    pub fn selected_rpc_ref<D: Domain>(&self, d: &D) -> (r: Option<String>)
        ensures
            match r {
                Some(s) => selected_ref_is(d, self@, Some(s@)),
                None => selected_ref_is(d, self@, None),
            },
    {
        let rows: &Vec<SessionRow> = self.sessions();
        if self.active < rows.len() {
            let row: &SessionRow = &rows[self.active];
            assert(shown(self@)[self.active as int] == row@);
            let r: String = ask_ref(d, &row.path, &row.session_id);
            if r.as_str().is_empty() {
                assert(r@ =~= seq![]);
                None
            } else {
                Some(r)
            }
        } else {
            None
        }
    }

    /// How requests name the session in the overview.
    pub fn overview_rpc_ref<D: Domain>(&self, d: &D) -> (r: String)
        ensures
            overview_ref_is(d, self@, r@),
    {
        if let Some(o) = &self.overview {
            let r: String = ask_ref(d, &o.meta.path, &self.overview_sid);
            if !r.as_str().is_empty() {
                return r;
            }
            assert(r@ =~= seq![]);
        }
        match self.selected_rpc_ref(d) {
            Some(r) => r,
            None => match self.selected_sid() {
                Some(s) => s,
                None => {
                    let r: String = String::new();
                    assert(r@ =~= seq![]);
                    r
                },
            },
        }
    }

    /// The place of the marked row in the filtered rows.
    pub fn timeline_focus_pos(&self) -> (r: Option<usize>)
        ensures
            match r {
                Some(p) => focus_place(self@) == Some(p as int),
                None => focus_place(self@) is None,
            },
    {
        let focus: i64 = match self.timeline_focus {
            Some(f) => f,
            None => {
                return None;
            },
        };
        let n: usize = self.tl_filter.len();
        let mut p: usize = 0;
        while p < n
            invariant
                n == self.tl_filter@.len(),
                p <= n,
                self.timeline_focus == Some(focus),
                focus_from(self@.tl_filter, self@.timeline, focus, 0) == focus_from(
                    self@.tl_filter,
                    self@.timeline,
                    focus,
                    p as int,
                ),
            decreases n - p,
        {
            let i: usize = self.tl_filter[p];
            if i < self.timeline.len() {
                assert(self@.timeline[i as int] == self.timeline@[i as int]@);
                if self.timeline[i].index == focus {
                    return Some(p);
                }
            }
            p = p + 1;
        }
        None
    }

    /// The timeline rows that are shown.
    pub fn filtered_timeline(&self) -> (r: Vec<&TimelineEvent>)
        ensures
            r@.map_values(|e: &TimelineEvent| e@) == shown_events(self@.tl_filter, self@.timeline),
    {
        let n: usize = self.tl_filter.len();
        let mut out: Vec<&TimelineEvent> = Vec::new();
        let mut p: usize = 0;
        assert(out@.map_values(|e: &TimelineEvent| e@) =~= shown_events(
            self@.tl_filter.take(0),
            self@.timeline,
        ));
        while p < n
            invariant
                n == self.tl_filter@.len(),
                p <= n,
                out@.map_values(|e: &TimelineEvent| e@) == shown_events(
                    self@.tl_filter.take(p as int),
                    self@.timeline,
                ),
            decreases n - p,
        {
            let i: usize = self.tl_filter[p];
            let ghost before = out@;
            assert(self@.tl_filter.take(p + 1).drop_last() =~= self@.tl_filter.take(p as int));
            if i < self.timeline.len() {
                out.push(&self.timeline[i]);
                assert(out@.map_values(|e: &TimelineEvent| e@) =~= before.map_values(
                    |e: &TimelineEvent| e@,
                ).push(self@.timeline[i as int]));
            }
            p = p + 1;
        }
        assert(self@.tl_filter.take(n as int) =~= self@.tl_filter);
        out
    }

    /// The status of the selected session.
    pub fn selected_status<D: Domain>(&self, d: &D) -> (r: String)
        ensures
            status_is(d, self@, r@),
    {
        if let Some(o) = &self.overview {
            let s: String = ask_label(d, &o.meta);
            if !s.as_str().is_empty() {
                return s;
            }
            assert(s@ =~= seq![]);
        }
        let rows: &Vec<SessionRow> = self.sessions();
        if self.active < rows.len() {
            assert(shown(self@)[self.active as int] == rows@[self.active as int]@);
            rows[self.active].status.clone()
        } else {
            let r: String = String::new();
            assert(r@ =~= seq![]);
            r
        }
    }

    /// Whether the selected session counts as live.
    pub fn selected_live<D: Domain>(&self, d: &D) -> (r: bool)
        ensures
            selected_live_is(d, self@, r),
    {
        let status: String = self.selected_status(d);
        assert(status_is(d, self@, status@));
        match &self.overview {
            Some(o) => ask_live(d, &status, Some(&o.turns)),
            None => ask_live(d, &status, None),
        }
    }

    /// Writes the status line.
    pub(crate) fn set_status(&mut self, status: String, status_err: bool)
        ensures
            final(self)@ == (HudView { status: status@, status_err, ..old(self)@ }),
            final(self).has_room() == old(self).has_room(),
    {
        self.status = status;
        self.status_err = status_err;
    }

    /// Takes control for working.
    pub(crate) fn mark_up(&mut self)
        ensures
            final(self)@ == (HudView { status_err: false, ..old(self)@ }),
            final(self).has_room() == old(self).has_room(),
    {
        self.status_err = false;
    }

    /// Says in the status line that control failed.
    pub(crate) fn mark_down<D: Domain>(&mut self, d: &D, err: &String)
        ensures
            downed(d, old(self)@, err@, final(self)@),
            final(self).has_room() == old(self).has_room(),
    {
        self.status_err = true;
        self.status = ask_down(d, err);
    }

    /// Whether any listed session counts as live, given whether the selected one
    /// does.
    pub fn any_live<D: Domain>(&self, d: &D, selected: bool) -> (r: bool)
        ensures
            any_live_is(d, self@, selected, r),
    {
        if selected {
            return true;
        }
        let n: usize = self.all_sessions.len();
        let mut i: usize = 0;
        while i < n
            invariant
                n == self.all_sessions@.len(),
                i <= n,
                forall|k: int|
                    0 <= k < i ==> live_says(
                        d,
                        (#[trigger] self@.all_sessions[k]).status,
                        None,
                        false,
                    ),
            decreases n - i,
        {
            assert(self@.all_sessions[i as int] == self.all_sessions@[i as int]@);
            if ask_live(d, &self.all_sessions[i].status, None) {
                return true;
            }
            i = i + 1;
        }
        false
    }
}

/// The timeline rows at the places in `filter` that the timeline has.
pub open spec fn shown_events(filter: Seq<usize>, timeline: Seq<EventView>) -> Seq<EventView>
    decreases filter.len(),
{
    if filter.len() == 0 {
        seq![]
    } else {
        let rest = shown_events(filter.drop_last(), timeline);
        if filter.last() < timeline.len() {
            rest.push(timeline[filter.last() as int])
        } else {
            rest
        }
    }
}

/// Writes the line that counts timeline rows.
pub fn write_meta(shown: usize, loaded: usize, total: u32, complete: bool) -> (r: String)
    ensures
        r@ == meta_line(shown as nat, loaded as nat, total as nat, complete),
{
    let mut s: String = text::write_decimal(shown as u64);
    if complete {
        return s;
    }
    s.append("+ · ");
    s.append(text::write_decimal(loaded as u64).as_str());
    s.append("/");
    s.append(text::write_decimal(total as u64).as_str());
    s
}

} // verus!
