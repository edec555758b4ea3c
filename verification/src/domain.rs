//! The rules that the palette is built on and does not fix itself: how errors
//! read, how sessions are matched, merged and filtered, when a session counts as
//! live, and how control replies are decoded.
//!
//! The palette takes them as a [`Domain`]. Nothing is assumed of what its methods
//! return. The palette's contracts say instead which question was asked: each
//! `..._says` predicate below holds of the answers that a call of the method can
//! give, and each `ask_...` function makes one such call.

use vstd::prelude::*;
use serde_json::Value;

use crate::json::{json_of, Json};
use crate::model::{
    events_of, page_of, rows_of, texts_of, CardMark, CardMarks, DraftView, EventView,
    KindFilter, MergedTimeline, MetaView, NoteDraft, NotesBlock, NotesView, Overview, OverviewView,
    PageView, RowView, SchemaField, SessionListPage, SessionMeta, SessionRow, TickInput, TickPlan,
    TickView, TimelineEvent, TimelinePage,
};

verus! {

/// The rules that the palette takes from its surroundings.
pub trait Domain {
    /// The status line for a control failure.
    fn control_down_message(&self, err: &String) -> String;

    /// The rows that match a query, by their places in the list, best first.
    fn fuzzy_filter_indices(&self, query: &String, rows: &Vec<SessionRow>) -> Vec<usize>;

    /// The timeline rows that a filter and a query leave, by their places.
    fn filter_timeline_indices(
        &self,
        timeline: &Vec<TimelineEvent>,
        kind: KindFilter,
        query: &String,
    ) -> Vec<usize>;

    /// The list after a whole catalog came.
    fn merge_catalog_rows(&self, current: &Vec<SessionRow>, incoming: &Vec<SessionRow>) -> Vec<
        SessionRow,
    >;

    /// The list after some rows changed and some went away.
    fn patch_catalog_delta(
        &self,
        current: &Vec<SessionRow>,
        incoming: &Vec<SessionRow>,
        removed: &Vec<String>,
    ) -> Vec<SessionRow>;

    /// The list after the description of one session changed.
    fn patch_list_row_from_meta(
        &self,
        rows: &Vec<SessionRow>,
        sid: &String,
        meta: &SessionMeta,
    ) -> Vec<SessionRow>;

    /// The timeline after a page came.
    fn merge_timeline_by_index(
        &self,
        current: &Vec<TimelineEvent>,
        batch: &Vec<TimelineEvent>,
    ) -> MergedTimeline;

    /// The marks on the cards of a session.
    fn card_marks_from_overview(&self, overview: &Overview) -> CardMarks;

    /// The fields of the note form.
    fn notes_schema_fields(&self, overview: Option<&Overview>) -> Vec<SchemaField>;

    /// Whether a list answer holds only a part of the catalog.
    fn is_partial_list_page(
        &self,
        rows: usize,
        matched: i64,
        delta: bool,
        incomplete: bool,
        building: bool,
    ) -> bool;

    /// Whether a failed note request leaves the control channel usable.
    fn is_soft_notes_save_error(&self, err: &String) -> bool;

    /// What a periodic refresh fetches.
    fn plan_tick(&self, input: &TickInput) -> TickPlan;

    /// Whether a session changes while it is looked at.
    fn session_needs_live_poll(&self, status: &String, turns: Option<&Value>) -> bool;

    /// How a session is named in requests.
    fn session_rpc_ref(&self, path: &String, sid: &String) -> String;

    /// Whether the timeline is loaded further.
    fn should_continue_timeline(&self, on_timeline: bool, complete: bool, loading: bool) -> bool;

    /// Whether the timeline is loaded along with the overview.
    fn should_fetch_timeline(&self, on_timeline: bool) -> bool;

    /// Whether `loaded` rows are the whole timeline.
    fn timeline_coverage_complete(&self, loaded: usize, total: u32) -> bool;

    /// The first row that is not loaded yet.
    fn timeline_first_missing_offset(&self, timeline: &Vec<TimelineEvent>, total: u32) -> u32;

    /// Where to start loading so that row `index` comes with some rows before it.
    fn timeline_seek_offset(&self, index: i64, before: u32) -> u32;

    /// The status of a session as it is shown.
    fn status_label(&self, meta: &SessionMeta) -> String;

    /// The draft after a field was edited.
    fn set_field(&self, draft: &NoteDraft, id: &String, value: &String) -> NoteDraft;

    /// Whether there is anything in a draft to save.
    fn has_content(&self, draft: &NoteDraft) -> bool;

    /// An id for a new note.
    fn new_note_id(&self) -> String;

    /// The notes in the answer to a note request.
    fn notes_from_snapshot(&self, snapshot: &Value, current: &NotesBlock) -> Option<NotesBlock>;

    /// The overview in a reply.
    fn decode_overview(&self, data: &Value) -> Result<Overview, String>;

    /// The rows in a list reply that has no envelope.
    fn decode_session_list(&self, data: &Value) -> Option<Vec<SessionRow>>;

    /// The page in a list reply.
    fn decode_session_list_response(&self, data: &Value) -> Option<SessionListPage>;

    /// The page in a timeline reply.
    fn decode_timeline_page(&self, data: &Value) -> Result<TimelinePage, String>;
}

// ---------------------------------------------------------------------------
// Answers over mathematical values
// ---------------------------------------------------------------------------

/// Optional notes over mathematical values.
pub open spec fn notes_of(r: Option<NotesBlock>) -> Option<NotesView> {
    match r {
        Some(n) => Some(n@),
        None => None,
    }
}

/// A decoded overview, or the error, over mathematical values.
pub open spec fn decoded_overview(r: Result<Overview, String>) -> Result<OverviewView, Seq<char>> {
    match r {
        Ok(o) => Ok(o@),
        Err(e) => Err(e@),
    }
}

/// Decoded rows over mathematical values.
pub open spec fn decoded_rows(r: Option<Vec<SessionRow>>) -> Option<Seq<RowView>> {
    match r {
        Some(v) => Some(rows_of(v@)),
        None => None,
    }
}

/// A decoded timeline page, or the error, over mathematical values.
pub open spec fn decoded_timeline(r: Result<TimelinePage, String>) -> Result<
    (Seq<EventView>, u32),
    Seq<char>,
> {
    match r {
        Ok(p) => Ok((events_of(p.events@), p.total)),
        Err(e) => Err(e@),
    }
}

// ---------------------------------------------------------------------------
// Questions
// ---------------------------------------------------------------------------

/// Whether the domain takes a session for live.
#[verifier::opaque]
pub open spec fn live_says<D: Domain>(
    d: &D,
    status: Seq<char>,
    turns: Option<Json>,
    out: bool,
) -> bool {
    match turns {
        Some(j) => exists|s: String, v: Value|
            #[trigger] call_ensures(D::session_needs_live_poll, (d, &s, Some(&v)), out) && s@
                == status && json_of(v) == j,
        None => exists|s: String|
            #[trigger] call_ensures(D::session_needs_live_poll, (d, &s, None::<&Value>), out) && s@
                == status,
    }
}

pub(crate) fn ask_live<D: Domain>(d: &D, status: &String, turns: Option<&Value>) -> (r: bool)
    ensures
        live_says(
            d,
            status@,
            match turns {
                Some(v) => Some(json_of(*v)),
                None => None,
            },
            r,
        ),
{
    reveal(live_says);
    let r: bool = d.session_needs_live_poll(status, turns);
    assert(call_ensures(D::session_needs_live_poll, (d, status, turns), r));
    r
}

/// Whether the domain loads the timeline further.
#[verifier::opaque]
pub open spec fn continue_says<D: Domain>(
    d: &D,
    on_timeline: bool,
    complete: bool,
    loading: bool,
    out: bool,
) -> bool {
    call_ensures(D::should_continue_timeline, (d, on_timeline, complete, loading), out)
}

pub(crate) fn ask_continue<D: Domain>(
    d: &D,
    on_timeline: bool,
    complete: bool,
    loading: bool,
) -> (r: bool)
    ensures
        continue_says(d, on_timeline, complete, loading, r),
{
    reveal(continue_says);
    d.should_continue_timeline(on_timeline, complete, loading)
}

/// Whether the domain loads the timeline along with the overview.
#[verifier::opaque]
pub open spec fn fetch_says<D: Domain>(d: &D, on_timeline: bool, out: bool) -> bool {
    call_ensures(D::should_fetch_timeline, (d, on_timeline), out)
}

pub(crate) fn ask_fetch<D: Domain>(d: &D, on_timeline: bool) -> (r: bool)
    ensures
        fetch_says(d, on_timeline, r),
{
    reveal(fetch_says);
    d.should_fetch_timeline(on_timeline)
}

/// Where the domain starts loading to reach a row.
#[verifier::opaque]
pub open spec fn seek_says<D: Domain>(d: &D, index: i64, before: u32, out: u32) -> bool {
    call_ensures(D::timeline_seek_offset, (d, index, before), out)
}

pub(crate) fn ask_seek<D: Domain>(d: &D, index: i64, before: u32) -> (r: u32)
    ensures
        seek_says(d, index, before, r),
{
    reveal(seek_says);
    d.timeline_seek_offset(index, before)
}

/// A status line that the domain gives for a control failure.
#[verifier::opaque]
pub open spec fn down_says<D: Domain>(d: &D, err: Seq<char>, out: Seq<char>) -> bool {
    exists|e: String, r: String|
        #[trigger] call_ensures(D::control_down_message, (d, &e), r) && e@ == err && r@ == out
}

pub(crate) fn ask_down<D: Domain>(d: &D, err: &String) -> (r: String)
    ensures
        down_says(d, err@, r@),
{
    reveal(down_says);
    let r: String = d.control_down_message(err);
    assert(call_ensures(D::control_down_message, (d, err), r));
    r
}

/// Matching rows that the domain finds.
#[verifier::opaque]
pub open spec fn rank_says<D: Domain>(
    d: &D,
    query: Seq<char>,
    rows: Seq<RowView>,
    out: Seq<usize>,
) -> bool {
    exists|q: String, v: Vec<SessionRow>, r: Vec<usize>|
        {
            &&& #[trigger] call_ensures(D::fuzzy_filter_indices, (d, &q, &v), r)
            &&& q@ == query
            &&& rows_of(v@) == rows
            &&& r@ == out
        }
}

pub(crate) fn ask_rank<D: Domain>(d: &D, query: &String, rows: &Vec<SessionRow>) -> (r: Vec<usize>)
    ensures
        rank_says(d, query@, rows_of(rows@), r@),
{
    reveal(rank_says);
    let r: Vec<usize> = d.fuzzy_filter_indices(query, rows);
    assert(call_ensures(D::fuzzy_filter_indices, (d, query, rows), r));
    r
}

/// Timeline rows that the domain leaves.
#[verifier::opaque]
pub open spec fn filter_says<D: Domain>(
    d: &D,
    timeline: Seq<EventView>,
    kind: KindFilter,
    query: Seq<char>,
    out: Seq<usize>,
) -> bool {
    exists|v: Vec<TimelineEvent>, q: String, r: Vec<usize>|
        {
            &&& #[trigger] call_ensures(D::filter_timeline_indices, (d, &v, kind, &q), r)
            &&& events_of(v@) == timeline
            &&& q@ == query
            &&& r@ == out
        }
}

pub(crate) fn ask_filter<D: Domain>(
    d: &D,
    timeline: &Vec<TimelineEvent>,
    kind: KindFilter,
    query: &String,
) -> (r: Vec<usize>)
    ensures
        filter_says(d, events_of(timeline@), kind, query@, r@),
{
    reveal(filter_says);
    let r: Vec<usize> = d.filter_timeline_indices(timeline, kind, query);
    assert(call_ensures(D::filter_timeline_indices, (d, timeline, kind, query), r));
    r
}

/// A list that the domain makes of the current rows and a whole catalog.
#[verifier::opaque]
pub open spec fn merge_says<D: Domain>(
    d: &D,
    current: Seq<RowView>,
    incoming: Seq<RowView>,
    out: Seq<RowView>,
) -> bool {
    exists|c: Vec<SessionRow>, i: Vec<SessionRow>, r: Vec<SessionRow>|
        {
            &&& #[trigger] call_ensures(D::merge_catalog_rows, (d, &c, &i), r)
            &&& rows_of(c@) == current
            &&& rows_of(i@) == incoming
            &&& rows_of(r@) == out
        }
}

pub(crate) fn ask_merge<D: Domain>(
    d: &D,
    current: &Vec<SessionRow>,
    incoming: &Vec<SessionRow>,
) -> (r: Vec<SessionRow>)
    ensures
        merge_says(d, rows_of(current@), rows_of(incoming@), rows_of(r@)),
{
    reveal(merge_says);
    let r: Vec<SessionRow> = d.merge_catalog_rows(current, incoming);
    assert(call_ensures(D::merge_catalog_rows, (d, current, incoming), r));
    r
}

/// A list that the domain makes of the current rows and a change.
#[verifier::opaque]
pub open spec fn delta_says<D: Domain>(
    d: &D,
    current: Seq<RowView>,
    incoming: Seq<RowView>,
    removed: Seq<Seq<char>>,
    out: Seq<RowView>,
) -> bool {
    exists|c: Vec<SessionRow>, i: Vec<SessionRow>, g: Vec<String>, r: Vec<SessionRow>|
        {
            &&& #[trigger] call_ensures(D::patch_catalog_delta, (d, &c, &i, &g), r)
            &&& rows_of(c@) == current
            &&& rows_of(i@) == incoming
            &&& texts_of(g@) == removed
            &&& rows_of(r@) == out
        }
}

pub(crate) fn ask_delta<D: Domain>(
    d: &D,
    current: &Vec<SessionRow>,
    incoming: &Vec<SessionRow>,
    removed: &Vec<String>,
) -> (r: Vec<SessionRow>)
    ensures
        delta_says(d, rows_of(current@), rows_of(incoming@), texts_of(removed@), rows_of(r@)),
{
    reveal(delta_says);
    let r: Vec<SessionRow> = d.patch_catalog_delta(current, incoming, removed);
    assert(call_ensures(D::patch_catalog_delta, (d, current, incoming, removed), r));
    r
}

/// A list that the domain makes when a session's description changed.
#[verifier::opaque]
pub open spec fn meta_says<D: Domain>(
    d: &D,
    rows: Seq<RowView>,
    sid: Seq<char>,
    meta: MetaView,
    out: Seq<RowView>,
) -> bool {
    exists|v: Vec<SessionRow>, s: String, m: SessionMeta, r: Vec<SessionRow>|
        {
            &&& #[trigger] call_ensures(D::patch_list_row_from_meta, (d, &v, &s, &m), r)
            &&& rows_of(v@) == rows
            &&& s@ == sid
            &&& m@ == meta
            &&& rows_of(r@) == out
        }
}

pub(crate) fn ask_meta<D: Domain>(
    d: &D,
    rows: &Vec<SessionRow>,
    sid: &String,
    meta: &SessionMeta,
) -> (r: Vec<SessionRow>)
    ensures
        meta_says(d, rows_of(rows@), sid@, meta@, rows_of(r@)),
{
    reveal(meta_says);
    let r: Vec<SessionRow> = d.patch_list_row_from_meta(rows, sid, meta);
    assert(call_ensures(D::patch_list_row_from_meta, (d, rows, sid, meta), r));
    r
}

/// A timeline that the domain makes of the current one and a page, and how many
/// rows it counts as added.
#[verifier::opaque]
pub open spec fn timeline_merge_says<D: Domain>(
    d: &D,
    current: Seq<EventView>,
    batch: Seq<EventView>,
    out: Seq<EventView>,
    added: usize,
) -> bool {
    exists|c: Vec<TimelineEvent>, b: Vec<TimelineEvent>, r: MergedTimeline|
        {
            &&& #[trigger] call_ensures(D::merge_timeline_by_index, (d, &c, &b), r)
            &&& events_of(c@) == current
            &&& events_of(b@) == batch
            &&& events_of(r.events@) == out
            &&& r.added == added
        }
}

pub(crate) fn ask_timeline_merge<D: Domain>(
    d: &D,
    current: &Vec<TimelineEvent>,
    batch: &Vec<TimelineEvent>,
) -> (r: MergedTimeline)
    ensures
        timeline_merge_says(
            d,
            events_of(current@),
            events_of(batch@),
            events_of(r.events@),
            r.added,
        ),
{
    reveal(timeline_merge_says);
    let r: MergedTimeline = d.merge_timeline_by_index(current, batch);
    assert(call_ensures(D::merge_timeline_by_index, (d, current, batch), r));
    r
}

/// Card marks that the domain gives for an overview.
#[verifier::opaque]
pub open spec fn marks_say<D: Domain>(
    d: &D,
    overview: OverviewView,
    turns: Map<i64, CardMark>,
    events: Map<i64, CardMark>,
) -> bool {
    exists|o: Overview, r: CardMarks|
        {
            &&& #[trigger] call_ensures(D::card_marks_from_overview, (d, &o), r)
            &&& o@ == overview
            &&& r.turns@ == turns
            &&& r.events@ == events
        }
}

pub(crate) fn ask_marks<D: Domain>(d: &D, overview: &Overview) -> (r: CardMarks)
    ensures
        marks_say(d, overview@, r.turns@, r.events@),
{
    reveal(marks_say);
    let r: CardMarks = d.card_marks_from_overview(overview);
    assert(call_ensures(D::card_marks_from_overview, (d, overview), r));
    r
}

/// Whether the domain takes a list answer for a part of the catalog.
#[verifier::opaque]
pub open spec fn partial_says<D: Domain>(
    d: &D,
    rows: nat,
    matched: i64,
    delta: bool,
    incomplete: bool,
    building: bool,
    out: bool,
) -> bool {
    exists|n: usize|
        {
            &&& #[trigger] call_ensures(
                D::is_partial_list_page,
                (d, n, matched, delta, incomplete, building),
                out,
            )
            &&& n == rows
        }
}

pub(crate) fn ask_partial<D: Domain>(
    d: &D,
    rows: usize,
    matched: i64,
    delta: bool,
    incomplete: bool,
    building: bool,
) -> (r: bool)
    ensures
        partial_says(d, rows as nat, matched, delta, incomplete, building, r),
{
    reveal(partial_says);
    let r: bool = d.is_partial_list_page(rows, matched, delta, incomplete, building);
    assert(call_ensures(
        D::is_partial_list_page,
        (d, rows, matched, delta, incomplete, building),
        r,
    ));
    r
}

/// Whether the domain takes a failed note request lightly.
#[verifier::opaque]
pub open spec fn soft_says<D: Domain>(d: &D, err: Seq<char>, out: bool) -> bool {
    exists|e: String|
        #[trigger] call_ensures(D::is_soft_notes_save_error, (d, &e), out) && e@ == err
}

pub(crate) fn ask_soft<D: Domain>(d: &D, err: &String) -> (r: bool)
    ensures
        soft_says(d, err@, r),
{
    reveal(soft_says);
    let r: bool = d.is_soft_notes_save_error(err);
    assert(call_ensures(D::is_soft_notes_save_error, (d, err), r));
    r
}

/// What the domain fetches on a periodic refresh.
#[verifier::opaque]
pub open spec fn plan_says<D: Domain>(d: &D, input: TickView, out: TickPlan) -> bool {
    exists|i: TickInput|
        #[trigger] call_ensures(D::plan_tick, (d, &i), out) && i@ == input
}

pub(crate) fn ask_plan<D: Domain>(d: &D, input: &TickInput) -> (r: TickPlan)
    ensures
        plan_says(d, input@, r),
{
    reveal(plan_says);
    let r: TickPlan = d.plan_tick(input);
    assert(call_ensures(D::plan_tick, (d, input), r));
    r
}

/// How the domain names a session in requests.
#[verifier::opaque]
pub open spec fn ref_says<D: Domain>(
    d: &D,
    path: Seq<char>,
    sid: Seq<char>,
    out: Seq<char>,
) -> bool {
    exists|p: String, s: String, r: String|
        {
            &&& #[trigger] call_ensures(D::session_rpc_ref, (d, &p, &s), r)
            &&& p@ == path
            &&& s@ == sid
            &&& r@ == out
        }
}

pub(crate) fn ask_ref<D: Domain>(d: &D, path: &String, sid: &String) -> (r: String)
    ensures
        ref_says(d, path@, sid@, r@),
{
    reveal(ref_says);
    let r: String = d.session_rpc_ref(path, sid);
    assert(call_ensures(D::session_rpc_ref, (d, path, sid), r));
    r
}

/// Whether the domain takes so many rows for the whole timeline.
#[verifier::opaque]
pub open spec fn coverage_says<D: Domain>(d: &D, loaded: nat, total: u32, out: bool) -> bool {
    exists|n: usize|
        #[trigger] call_ensures(D::timeline_coverage_complete, (d, n, total), out) && n == loaded
}

pub(crate) fn ask_coverage<D: Domain>(d: &D, loaded: usize, total: u32) -> (r: bool)
    ensures
        coverage_says(d, loaded as nat, total, r),
{
    reveal(coverage_says);
    let r: bool = d.timeline_coverage_complete(loaded, total);
    assert(call_ensures(D::timeline_coverage_complete, (d, loaded, total), r));
    r
}

/// The first row that the domain finds missing.
#[verifier::opaque]
pub open spec fn missing_says<D: Domain>(
    d: &D,
    timeline: Seq<EventView>,
    total: u32,
    out: u32,
) -> bool {
    exists|v: Vec<TimelineEvent>|
        {
            &&& #[trigger] call_ensures(D::timeline_first_missing_offset, (d, &v, total), out)
            &&& events_of(v@) == timeline
        }
}

pub(crate) fn ask_missing<D: Domain>(d: &D, timeline: &Vec<TimelineEvent>, total: u32) -> (r: u32)
    ensures
        missing_says(d, events_of(timeline@), total, r),
{
    reveal(missing_says);
    let r: u32 = d.timeline_first_missing_offset(timeline, total);
    assert(call_ensures(D::timeline_first_missing_offset, (d, timeline, total), r));
    r
}

/// The status that the domain shows for a session.
#[verifier::opaque]
pub open spec fn label_says<D: Domain>(d: &D, meta: MetaView, out: Seq<char>) -> bool {
    exists|m: SessionMeta, r: String|
        #[trigger] call_ensures(D::status_label, (d, &m), r) && m@ == meta && r@ == out
}

pub(crate) fn ask_label<D: Domain>(d: &D, meta: &SessionMeta) -> (r: String)
    ensures
        label_says(d, meta@, r@),
{
    reveal(label_says);
    let r: String = d.status_label(meta);
    assert(call_ensures(D::status_label, (d, meta), r));
    r
}

/// A draft that the domain makes when a field is edited.
#[verifier::opaque]
pub open spec fn field_says<D: Domain>(
    d: &D,
    draft: DraftView,
    id: Seq<char>,
    value: Seq<char>,
    out: DraftView,
) -> bool {
    exists|n: NoteDraft, i: String, v: String, r: NoteDraft|
        {
            &&& #[trigger] call_ensures(D::set_field, (d, &n, &i, &v), r)
            &&& n@ == draft
            &&& i@ == id
            &&& v@ == value
            &&& r@ == out
        }
}

pub(crate) fn ask_field<D: Domain>(
    d: &D,
    draft: &NoteDraft,
    id: &String,
    value: &String,
) -> (r: NoteDraft)
    ensures
        field_says(d, draft@, id@, value@, r@),
{
    reveal(field_says);
    let r: NoteDraft = d.set_field(draft, id, value);
    assert(call_ensures(D::set_field, (d, draft, id, value), r));
    r
}

/// Whether the domain finds anything in a draft to save.
#[verifier::opaque]
pub open spec fn content_says<D: Domain>(d: &D, draft: DraftView, out: bool) -> bool {
    exists|n: NoteDraft|
        #[trigger] call_ensures(D::has_content, (d, &n), out) && n@ == draft
}

pub(crate) fn ask_content<D: Domain>(d: &D, draft: &NoteDraft) -> (r: bool)
    ensures
        content_says(d, draft@, r),
{
    reveal(content_says);
    let r: bool = d.has_content(draft);
    assert(call_ensures(D::has_content, (d, draft), r));
    r
}

/// An id that the domain gives a new note.
#[verifier::opaque]
pub open spec fn note_id_says<D: Domain>(d: &D, out: Seq<char>) -> bool {
    exists|r: String|
        #[trigger] call_ensures(D::new_note_id, (d,), r) && r@ == out
}

pub(crate) fn ask_note_id<D: Domain>(d: &D) -> (r: String)
    ensures
        note_id_says(d, r@),
{
    reveal(note_id_says);
    let r: String = d.new_note_id();
    assert(call_ensures(D::new_note_id, (d,), r));
    r
}

/// The notes that the domain reads from the answer to a note request.
#[verifier::opaque]
pub open spec fn snapshot_says<D: Domain>(
    d: &D,
    snapshot: Json,
    current: NotesView,
    out: Option<NotesView>,
) -> bool {
    exists|v: Value, c: NotesBlock, r: Option<NotesBlock>|
        {
            &&& #[trigger] call_ensures(D::notes_from_snapshot, (d, &v, &c), r)
            &&& json_of(v) == snapshot
            &&& c@ == current
            &&& notes_of(r) == out
        }
}

pub(crate) fn ask_snapshot<D: Domain>(
    d: &D,
    snapshot: &Value,
    current: &NotesBlock,
) -> (r: Option<NotesBlock>)
    ensures
        snapshot_says(d, json_of(*snapshot), current@, notes_of(r)),
{
    reveal(snapshot_says);
    let r: Option<NotesBlock> = d.notes_from_snapshot(snapshot, current);
    assert(call_ensures(D::notes_from_snapshot, (d, snapshot, current), r));
    r
}

/// What the domain reads from an overview reply.
#[verifier::opaque]
pub open spec fn overview_says<D: Domain>(
    d: &D,
    data: Json,
    out: Result<OverviewView, Seq<char>>,
) -> bool {
    exists|v: Value, r: Result<Overview, String>|
        {
            &&& #[trigger] call_ensures(D::decode_overview, (d, &v), r)
            &&& json_of(v) == data
            &&& decoded_overview(r) == out
        }
}

pub(crate) fn ask_overview<D: Domain>(d: &D, data: &Value) -> (r: Result<Overview, String>)
    ensures
        overview_says(d, json_of(*data), decoded_overview(r)),
{
    reveal(overview_says);
    let r: Result<Overview, String> = d.decode_overview(data);
    assert(call_ensures(D::decode_overview, (d, data), r));
    r
}

/// What the domain reads from a list reply without envelope.
#[verifier::opaque]
pub open spec fn rows_say<D: Domain>(d: &D, data: Json, out: Option<Seq<RowView>>) -> bool {
    exists|v: Value, r: Option<Vec<SessionRow>>|
        {
            &&& #[trigger] call_ensures(D::decode_session_list, (d, &v), r)
            &&& json_of(v) == data
            &&& decoded_rows(r) == out
        }
}

pub(crate) fn ask_rows<D: Domain>(d: &D, data: &Value) -> (r: Option<Vec<SessionRow>>)
    ensures
        rows_say(d, json_of(*data), decoded_rows(r)),
{
    reveal(rows_say);
    let r: Option<Vec<SessionRow>> = d.decode_session_list(data);
    assert(call_ensures(D::decode_session_list, (d, data), r));
    r
}

/// What the domain reads from a list reply.
#[verifier::opaque]
pub open spec fn page_says<D: Domain>(d: &D, data: Json, out: Option<PageView>) -> bool {
    exists|v: Value, r: Option<SessionListPage>|
        {
            &&& #[trigger] call_ensures(D::decode_session_list_response, (d, &v), r)
            &&& json_of(v) == data
            &&& page_of(r) == out
        }
}

pub(crate) fn ask_page<D: Domain>(d: &D, data: &Value) -> (r: Option<SessionListPage>)
    ensures
        page_says(d, json_of(*data), page_of(r)),
{
    reveal(page_says);
    let r: Option<SessionListPage> = d.decode_session_list_response(data);
    assert(call_ensures(D::decode_session_list_response, (d, data), r));
    r
}

/// What the domain reads from a timeline reply: the rows and their total.
#[verifier::opaque]
pub open spec fn timeline_page_says<D: Domain>(
    d: &D,
    data: Json,
    out: Result<(Seq<EventView>, u32), Seq<char>>,
) -> bool {
    exists|v: Value, r: Result<TimelinePage, String>|
        {
            &&& #[trigger] call_ensures(D::decode_timeline_page, (d, &v), r)
            &&& json_of(v) == data
            &&& decoded_timeline(r) == out
        }
}

pub(crate) fn ask_timeline_page<D: Domain>(d: &D, data: &Value) -> (r: Result<TimelinePage, String>)
    ensures
        timeline_page_says(d, json_of(*data), decoded_timeline(r)),
{
    reveal(timeline_page_says);
    let r: Result<TimelinePage, String> = d.decode_timeline_page(data);
    assert(call_ensures(D::decode_timeline_page, (d, data), r));
    r
}

} // verus!
