//! What is asked of the domain: each question goes to the method for it, with the values
//! that are there, and the answer is taken as it is.

use vstd::prelude::*;
use serde_json::Value;

use crate::domain::{
    content_says, continue_says, coverage_says, decoded_overview, decoded_rows, decoded_timeline,
    delta_says, down_says, fetch_says, field_says, filter_says, label_says, live_says, marks_say,
    merge_says, meta_says, missing_says, note_id_says, notes_of, overview_says, page_says,
    partial_says, plan_says, rank_says, ref_says, rows_say, seek_says, snapshot_says, soft_says,
    timeline_merge_says, timeline_page_says, Domain,
};
use crate::json::{json_of, Json};
use crate::model::{
    events_of, page_of, rows_of, texts_of, CardMark, CardMarks, DraftView, EventView, KindFilter,
    MergedTimeline, MetaView, NoteDraft, NotesBlock, NotesView, Overview, OverviewView, PageView,
    RowView, SessionListPage, SessionMeta, SessionRow, TickInput, TickPlan, TickView, TimelineEvent,
    TimelinePage,
};

verus! {

/// An answer is one that [`Domain::session_needs_live_poll`] gives for these values.
pub proof fn law_session_needs_live_poll_is_asked<D: Domain>(
    d: &D,
    status: Seq<char>,
    turns: Option<Json>,
    out: bool,
)
    ensures
        live_says(d, status, turns, out) <==> {
            match turns {
                Some(j) => exists|s: String, v: Value|
                    #[trigger] call_ensures(D::session_needs_live_poll, (d, &s, Some(&v)), out)
                        && s@ == status && json_of(v) == j,
                None => exists|s: String|
                    #[trigger] call_ensures(
                        D::session_needs_live_poll,
                        (d, &s, None::<&Value>),
                        out,
                    ) && s@ == status,
            }
        },
{
    reveal(live_says);
}

/// An answer is one that [`Domain::should_continue_timeline`] gives for these values.
pub proof fn law_should_continue_timeline_is_asked<D: Domain>(
    d: &D,
    on_timeline: bool,
    complete: bool,
    loading: bool,
    out: bool,
)
    ensures
        continue_says(d, on_timeline, complete, loading, out) <==> {
            call_ensures(D::should_continue_timeline, (d, on_timeline, complete, loading), out)
        },
{
    reveal(continue_says);
}

/// An answer is one that [`Domain::should_fetch_timeline`] gives for these values.
pub proof fn law_should_fetch_timeline_is_asked<D: Domain>(
    d: &D,
    on_timeline: bool,
    out: bool,
)
    ensures
        fetch_says(d, on_timeline, out) <==> {
            call_ensures(D::should_fetch_timeline, (d, on_timeline), out)
        },
{
    reveal(fetch_says);
}

/// An answer is one that [`Domain::timeline_seek_offset`] gives for these values.
pub proof fn law_timeline_seek_offset_is_asked<D: Domain>(
    d: &D,
    index: i64,
    before: u32,
    out: u32,
)
    ensures
        seek_says(d, index, before, out) <==> {
            call_ensures(D::timeline_seek_offset, (d, index, before), out)
        },
{
    reveal(seek_says);
}

/// An answer is one that [`Domain::control_down_message`] gives for these values.
pub proof fn law_control_down_message_is_asked<D: Domain>(
    d: &D,
    err: Seq<char>,
    out: Seq<char>,
)
    ensures
        down_says(d, err, out) <==> {
            exists|e: String, r: String|
                #[trigger] call_ensures(D::control_down_message, (d, &e), r) && e@ == err
                    && r@ == out
        },
{
    reveal(down_says);
}

/// An answer is one that [`Domain::fuzzy_filter_indices`] gives for these values.
pub proof fn law_fuzzy_filter_indices_is_asked<D: Domain>(
    d: &D,
    query: Seq<char>,
    rows: Seq<RowView>,
    out: Seq<usize>,
)
    ensures
        rank_says(d, query, rows, out) <==> {
            exists|q: String, v: Vec<SessionRow>, r: Vec<usize>|
                {
                    &&& #[trigger] call_ensures(D::fuzzy_filter_indices, (d, &q, &v), r)
                    &&& q@ == query
                    &&& rows_of(v@) == rows
                    &&& r@ == out
                }
        },
{
    reveal(rank_says);
}

/// An answer is one that [`Domain::filter_timeline_indices`] gives for these values.
pub proof fn law_filter_timeline_indices_is_asked<D: Domain>(
    d: &D,
    timeline: Seq<EventView>,
    kind: KindFilter,
    query: Seq<char>,
    out: Seq<usize>,
)
    ensures
        filter_says(d, timeline, kind, query, out) <==> {
            exists|v: Vec<TimelineEvent>, q: String, r: Vec<usize>|
                {
                    &&& #[trigger] call_ensures(D::filter_timeline_indices, (d, &v, kind, &q), r)
                    &&& events_of(v@) == timeline
                    &&& q@ == query
                    &&& r@ == out
                }
        },
{
    reveal(filter_says);
}

/// An answer is one that [`Domain::merge_catalog_rows`] gives for these values.
pub proof fn law_merge_catalog_rows_is_asked<D: Domain>(
    d: &D,
    current: Seq<RowView>,
    incoming: Seq<RowView>,
    out: Seq<RowView>,
)
    ensures
        merge_says(d, current, incoming, out) <==> {
            exists|c: Vec<SessionRow>, i: Vec<SessionRow>, r: Vec<SessionRow>|
                {
                    &&& #[trigger] call_ensures(D::merge_catalog_rows, (d, &c, &i), r)
                    &&& rows_of(c@) == current
                    &&& rows_of(i@) == incoming
                    &&& rows_of(r@) == out
                }
        },
{
    reveal(merge_says);
}

/// An answer is one that [`Domain::patch_catalog_delta`] gives for these values.
pub proof fn law_patch_catalog_delta_is_asked<D: Domain>(
    d: &D,
    current: Seq<RowView>,
    incoming: Seq<RowView>,
    removed: Seq<Seq<char>>,
    out: Seq<RowView>,
)
    ensures
        delta_says(d, current, incoming, removed, out) <==> {
            exists|c: Vec<SessionRow>, i: Vec<SessionRow>, g: Vec<String>, r: Vec<SessionRow>|
                {
                    &&& #[trigger] call_ensures(D::patch_catalog_delta, (d, &c, &i, &g), r)
                    &&& rows_of(c@) == current
                    &&& rows_of(i@) == incoming
                    &&& texts_of(g@) == removed
                    &&& rows_of(r@) == out
                }
        },
{
    reveal(delta_says);
}

/// An answer is one that [`Domain::patch_list_row_from_meta`] gives for these values.
pub proof fn law_patch_list_row_from_meta_is_asked<D: Domain>(
    d: &D,
    rows: Seq<RowView>,
    sid: Seq<char>,
    meta: MetaView,
    out: Seq<RowView>,
)
    ensures
        meta_says(d, rows, sid, meta, out) <==> {
            exists|v: Vec<SessionRow>, s: String, m: SessionMeta, r: Vec<SessionRow>|
                {
                    &&& #[trigger] call_ensures(D::patch_list_row_from_meta, (d, &v, &s, &m), r)
                    &&& rows_of(v@) == rows
                    &&& s@ == sid
                    &&& m@ == meta
                    &&& rows_of(r@) == out
                }
        },
{
    reveal(meta_says);
}

/// An answer is one that [`Domain::merge_timeline_by_index`] gives for these values.
pub proof fn law_merge_timeline_by_index_is_asked<D: Domain>(
    d: &D,
    current: Seq<EventView>,
    batch: Seq<EventView>,
    out: Seq<EventView>,
    added: usize,
)
    ensures
        timeline_merge_says(d, current, batch, out, added) <==> {
            exists|c: Vec<TimelineEvent>, b: Vec<TimelineEvent>, r: MergedTimeline|
                {
                    &&& #[trigger] call_ensures(D::merge_timeline_by_index, (d, &c, &b), r)
                    &&& events_of(c@) == current
                    &&& events_of(b@) == batch
                    &&& events_of(r.events@) == out
                    &&& r.added == added
                }
        },
{
    reveal(timeline_merge_says);
}

/// An answer is one that [`Domain::card_marks_from_overview`] gives for these values.
pub proof fn law_card_marks_from_overview_is_asked<D: Domain>(
    d: &D,
    overview: OverviewView,
    turns: Map<i64, CardMark>,
    events: Map<i64, CardMark>,
)
    ensures
        marks_say(d, overview, turns, events) <==> {
            exists|o: Overview, r: CardMarks|
                {
                    &&& #[trigger] call_ensures(D::card_marks_from_overview, (d, &o), r)
                    &&& o@ == overview
                    &&& r.turns@ == turns
                    &&& r.events@ == events
                }
        },
{
    reveal(marks_say);
}

/// An answer is one that [`Domain::is_partial_list_page`] gives for these values.
pub proof fn law_is_partial_list_page_is_asked<D: Domain>(
    d: &D,
    rows: nat,
    matched: i64,
    delta: bool,
    incomplete: bool,
    building: bool,
    out: bool,
)
    ensures
        partial_says(d, rows, matched, delta, incomplete, building, out) <==> {
            exists|n: usize|
                {
                    &&& #[trigger] call_ensures(
                        D::is_partial_list_page,
                        (d, n, matched, delta, incomplete, building),
                        out,
                    )
                    &&& n == rows
                }
        },
{
    reveal(partial_says);
}

/// An answer is one that [`Domain::is_soft_notes_save_error`] gives for these values.
pub proof fn law_is_soft_notes_save_error_is_asked<D: Domain>(
    d: &D,
    err: Seq<char>,
    out: bool,
)
    ensures
        soft_says(d, err, out) <==> {
            exists|e: String|
                #[trigger] call_ensures(D::is_soft_notes_save_error, (d, &e), out) && e@ == err
        },
{
    reveal(soft_says);
}

/// An answer is one that [`Domain::plan_tick`] gives for these values.
pub proof fn law_plan_tick_is_asked<D: Domain>(
    d: &D,
    input: TickView,
    out: TickPlan,
)
    ensures
        plan_says(d, input, out) <==> {
            exists|i: TickInput|
                #[trigger] call_ensures(D::plan_tick, (d, &i), out) && i@ == input
        },
{
    reveal(plan_says);
}

/// An answer is one that [`Domain::session_rpc_ref`] gives for these values.
pub proof fn law_session_rpc_ref_is_asked<D: Domain>(
    d: &D,
    path: Seq<char>,
    sid: Seq<char>,
    out: Seq<char>,
)
    ensures
        ref_says(d, path, sid, out) <==> {
            exists|p: String, s: String, r: String|
                {
                    &&& #[trigger] call_ensures(D::session_rpc_ref, (d, &p, &s), r)
                    &&& p@ == path
                    &&& s@ == sid
                    &&& r@ == out
                }
        },
{
    reveal(ref_says);
}

/// An answer is one that [`Domain::timeline_coverage_complete`] gives for these values.
pub proof fn law_timeline_coverage_complete_is_asked<D: Domain>(
    d: &D,
    loaded: nat,
    total: u32,
    out: bool,
)
    ensures
        coverage_says(d, loaded, total, out) <==> {
            exists|n: usize|
                #[trigger] call_ensures(D::timeline_coverage_complete, (d, n, total), out) && n
                    == loaded
        },
{
    reveal(coverage_says);
}

/// An answer is one that [`Domain::timeline_first_missing_offset`] gives for these values.
pub proof fn law_timeline_first_missing_offset_is_asked<D: Domain>(
    d: &D,
    timeline: Seq<EventView>,
    total: u32,
    out: u32,
)
    ensures
        missing_says(d, timeline, total, out) <==> {
            exists|v: Vec<TimelineEvent>|
                {
                    &&& #[trigger] call_ensures(
                        D::timeline_first_missing_offset,
                        (d, &v, total),
                        out,
                    )
                    &&& events_of(v@) == timeline
                }
        },
{
    reveal(missing_says);
}

/// An answer is one that [`Domain::status_label`] gives for these values.
pub proof fn law_status_label_is_asked<D: Domain>(
    d: &D,
    meta: MetaView,
    out: Seq<char>,
)
    ensures
        label_says(d, meta, out) <==> {
            exists|m: SessionMeta, r: String|
                #[trigger] call_ensures(D::status_label, (d, &m), r) && m@ == meta && r@ == out
        },
{
    reveal(label_says);
}

/// An answer is one that [`Domain::set_field`] gives for these values.
pub proof fn law_set_field_is_asked<D: Domain>(
    d: &D,
    draft: DraftView,
    id: Seq<char>,
    value: Seq<char>,
    out: DraftView,
)
    ensures
        field_says(d, draft, id, value, out) <==> {
            exists|n: NoteDraft, i: String, v: String, r: NoteDraft|
                {
                    &&& #[trigger] call_ensures(D::set_field, (d, &n, &i, &v), r)
                    &&& n@ == draft
                    &&& i@ == id
                    &&& v@ == value
                    &&& r@ == out
                }
        },
{
    reveal(field_says);
}

/// An answer is one that [`Domain::has_content`] gives for these values.
pub proof fn law_has_content_is_asked<D: Domain>(
    d: &D,
    draft: DraftView,
    out: bool,
)
    ensures
        content_says(d, draft, out) <==> {
            exists|n: NoteDraft|
                #[trigger] call_ensures(D::has_content, (d, &n), out) && n@ == draft
        },
{
    reveal(content_says);
}

/// An answer is one that [`Domain::new_note_id`] gives for these values.
pub proof fn law_new_note_id_is_asked<D: Domain>(
    d: &D,
    out: Seq<char>,
)
    ensures
        note_id_says(d, out) <==> {
            exists|r: String|
                #[trigger] call_ensures(D::new_note_id, (d,), r) && r@ == out
        },
{
    reveal(note_id_says);
}

/// An answer is one that [`Domain::notes_from_snapshot`] gives for these values.
pub proof fn law_notes_from_snapshot_is_asked<D: Domain>(
    d: &D,
    snapshot: Json,
    current: NotesView,
    out: Option<NotesView>,
)
    ensures
        snapshot_says(d, snapshot, current, out) <==> {
            exists|v: Value, c: NotesBlock, r: Option<NotesBlock>|
                {
                    &&& #[trigger] call_ensures(D::notes_from_snapshot, (d, &v, &c), r)
                    &&& json_of(v) == snapshot
                    &&& c@ == current
                    &&& notes_of(r) == out
                }
        },
{
    reveal(snapshot_says);
}

/// An answer is one that [`Domain::decode_overview`] gives for these values.
pub proof fn law_decode_overview_is_asked<D: Domain>(
    d: &D,
    data: Json,
    out: Result<OverviewView, Seq<char>>,
)
    ensures
        overview_says(d, data, out) <==> {
            exists|v: Value, r: Result<Overview, String>|
                {
                    &&& #[trigger] call_ensures(D::decode_overview, (d, &v), r)
                    &&& json_of(v) == data
                    &&& decoded_overview(r) == out
                }
        },
{
    reveal(overview_says);
}

/// An answer is one that [`Domain::decode_session_list`] gives for these values.
pub proof fn law_decode_session_list_is_asked<D: Domain>(
    d: &D,
    data: Json,
    out: Option<Seq<RowView>>,
)
    ensures
        rows_say(d, data, out) <==> {
            exists|v: Value, r: Option<Vec<SessionRow>>|
                {
                    &&& #[trigger] call_ensures(D::decode_session_list, (d, &v), r)
                    &&& json_of(v) == data
                    &&& decoded_rows(r) == out
                }
        },
{
    reveal(rows_say);
}

/// An answer is one that [`Domain::decode_session_list_response`] gives for these values.
pub proof fn law_decode_session_list_response_is_asked<D: Domain>(
    d: &D,
    data: Json,
    out: Option<PageView>,
)
    ensures
        page_says(d, data, out) <==> {
            exists|v: Value, r: Option<SessionListPage>|
                {
                    &&& #[trigger] call_ensures(D::decode_session_list_response, (d, &v), r)
                    &&& json_of(v) == data
                    &&& page_of(r) == out
                }
        },
{
    reveal(page_says);
}

/// An answer is one that [`Domain::decode_timeline_page`] gives for these values.
pub proof fn law_decode_timeline_page_is_asked<D: Domain>(
    d: &D,
    data: Json,
    out: Result<(Seq<EventView>, u32), Seq<char>>,
)
    ensures
        timeline_page_says(d, data, out) <==> {
            exists|v: Value, r: Result<TimelinePage, String>|
                {
                    &&& #[trigger] call_ensures(D::decode_timeline_page, (d, &v), r)
                    &&& json_of(v) == data
                    &&& decoded_timeline(r) == out
                }
        },
{
    reveal(timeline_page_says);
}

} // verus!
