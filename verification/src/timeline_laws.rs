//! What the timeline is for: how pages make it up, when more of it is asked for, and
//! which of its rows are shown and marked.

use vstd::prelude::*;
use serde_json::Value;

use crate::domain::{
    continue_says, coverage_says, down_says, filter_says, missing_says, timeline_merge_says,
    timeline_page_says, Domain,
};
use crate::event::{EffectView, Message, Moment, PageSize};
use crate::hud::{complete_is, downed, focus_from, focus_place, overview_ref_is, HudView};
use crate::json::json_of;
use crate::list_laws::{chosen_id, chosen_row};
use crate::model::{EventView, KindFilter, Tab};
use crate::pane_laws::{
    law_requests_name_the_shown_session, lemma_starts_timeline, names_shown, starts_timeline,
};
use crate::text::trimmed;
use crate::timeline::{ensured, filled, page_merged, page_taken, refiltered};
use crate::update::{jump_begun, jump_loads, search_fills, steps};

verus! {

// ---------------------------------------------------------------------------
// Terms
// ---------------------------------------------------------------------------

/// The timeline of `v` may have rows that are not loaded.
pub open spec fn may_lack_rows<D: Domain>(d: &D, v: HudView) -> bool {
    v.timeline_sid.len() == 0 || coverage_says(d, v.timeline.len(), v.timeline_total, false)
}

/// The timeline of `v` may be loaded to its end.
pub open spec fn may_be_whole<D: Domain>(d: &D, v: HudView) -> bool {
    v.timeline_sid.len() > 0 && coverage_says(d, v.timeline.len(), v.timeline_total, true)
}

/// The rows that the timeline lacks are asked for, from the first one on, to be added
/// to it.
pub open spec fn asks_for_rows<D: Domain>(
    d: &D,
    pre: HudView,
    sid: Seq<char>,
    post: HudView,
    fx: Seq<EffectView>,
) -> bool {
    &&& post == HudView { timeline_loading: true, ..pre }
    &&& fx.len() == 1
    &&& fx[0] is FetchTimeline
    &&& fx[0]->FetchTimeline_sid == sid
    &&& names_shown(d, pre, fx[0]->FetchTimeline_rpc_ref)
    &&& missing_says(d, pre.timeline, pre.timeline_total, fx[0]->offset)
    &&& fx[0]->append
    &&& fx[0]->FetchTimeline_gen == pre.timeline_gen
    &&& fx[0]->limit == PageSize::Chunk
}

/// The rows that the timeline lacks are asked for, unless it lacks none or a page is
/// under way.
pub open spec fn loads_on<D: Domain>(
    d: &D,
    pre: HudView,
    sid: Seq<char>,
    post: HudView,
    fx: Seq<EffectView>,
) -> bool {
    let idle = post == pre && fx.len() == 0;
    &&& pre.timeline_loading || !may_lack_rows(d, pre) ==> idle
    &&& !pre.timeline_loading && !may_be_whole(d, pre) ==> asks_for_rows(d, pre, sid, post, fx)
    &&& idle || asks_for_rows(d, pre, sid, post, fx)
}

/// `rows` are the places of the timeline's rows that the filter of `v` leaves; none
/// while the timeline is not that of the overview.
pub open spec fn filters<D: Domain>(d: &D, v: HudView, rows: Seq<usize>) -> bool {
    if v.timeline_sid == v.overview_sid {
        filter_says(d, v.timeline, v.timeline_kind, v.timeline_query, rows)
    } else {
        rows.len() == 0
    }
}

proof fn lemma_loads_on<D: Domain>(
    d: &D,
    pre: HudView,
    sid: Seq<char>,
    post: HudView,
    fx: Seq<EffectView>,
)
    requires
        filled(d, pre, sid, post, fx),
    ensures
        loads_on(d, pre, sid, post, fx),
{
    if !(post == pre && fx == Seq::<EffectView>::empty()) {
        let (offset, rpc_ref) = choose|offset: u32, rpc_ref: Seq<char>| #[trigger]
            missing_says(d, pre.timeline, pre.timeline_total, offset) && #[trigger] overview_ref_is(
                d,
                post,
                rpc_ref,
            ) && fx == seq![
                EffectView::FetchTimeline {
                    rpc_ref,
                    sid,
                    offset,
                    append: true,
                    gen: pre.timeline_gen,
                    limit: PageSize::Chunk,
                },
            ];
        law_requests_name_the_shown_session(d, post, rpc_ref);
        assert(chosen_row(post) == chosen_row(pre));
    }
}

// ---------------------------------------------------------------------------
// Pages
// ---------------------------------------------------------------------------

/// Where the timeline goes on after a page of `n` rows from `offset` on came: after
/// the last row that was ever asked for, but not beyond the total.
pub open spec fn goes_on_at(before: u32, offset: u32, n: nat, total: u32, after: u32) -> bool {
    let end = offset + n % 0x1_0000_0000;
    &&& total > 0 ==> after <= total
    &&& total > 0 && after == total || after >= before
    &&& total > 0 && after == total || after >= end || after == u32::MAX
    &&& total > 0 && after == total || after == before || after == end || after == u32::MAX && end
        >= u32::MAX
    &&& before >= end && (total == 0 || before <= total) ==> after == before
    &&& before < end <= u32::MAX && (total == 0 || end <= total) ==> after == end
    &&& total > 0 && (before > total || end > total) ==> after == total
}

/// A page of the newest timeline is taken. The total is the one that the page states,
/// and the old one only when it states none. The rows are merged into the timeline
/// they belong to, or take its place. The shown rows are found anew, and loading goes
/// on when the domain wants it and the page brought something.
pub proof fn law_a_page_is_taken<D: Domain>(
    d: &D,
    pre: HudView,
    m: Moment,
    gen: u64,
    sid: String,
    offset: u32,
    append: bool,
    data: Value,
    post: HudView,
    fx: Seq<EffectView>,
) -> (r: (Result<(Seq<EventView>, u32), Seq<char>>, usize, bool, bool))
    requires
        steps(
            d,
            pre,
            m,
            Message::TimelineLoaded { gen, sid, offset, append, result: Ok(data) },
            post,
            fx,
        ),
        gen == pre.timeline_gen,
    ensures
        timeline_page_says(d, json_of(data), r.0),
        match r.0 {
            Ok((events, total)) => {
                &&& total > 0 ==> post.timeline_total == total
                &&& total == 0 ==> post.timeline_total == pre.timeline_total
                &&& goes_on_at(
                    pre.timeline_next,
                    offset,
                    events.len(),
                    post.timeline_total,
                    post.timeline_next,
                )
                &&& append && pre.timeline_sid == sid@ && pre.timeline.len() > 0
                    ==> timeline_merge_says(d, pre.timeline, events, post.timeline, r.1)
                &&& !append || pre.timeline_sid != sid@ || pre.timeline.len() == 0 ==> post.timeline
                    == events && r.1 == events.len()
                &&& filters(d, post, post.tl_filter)
                &&& post == HudView {
                    timeline: post.timeline,
                    timeline_sid: sid@,
                    timeline_total: post.timeline_total,
                    timeline_next: post.timeline_next,
                    tl_filter: post.tl_filter,
                    timeline_loading: false,
                    status_err: false,
                    ..pre
                }
                &&& r.2 ==> may_be_whole(d, post)
                &&& !r.2 ==> may_lack_rows(d, post)
                &&& continue_says(d, pre.tab == Tab::Timeline, r.2, false, r.3)
                &&& r.3 && r.1 > 0 ==> fx == seq![
                    EffectView::ContinueTimeline {
                        sid: sid@,
                        gen: pre.timeline_gen,
                        wait_ms: 50,
                    },
                ]
                &&& !(r.3 && r.1 > 0) ==> fx.len() == 0
            },
            Err(e) => {
                &&& post == HudView {
                    timeline_loading: false,
                    status: post.status,
                    status_err: true,
                    ..pre
                }
                &&& down_says(d, e, post.status)
                &&& fx == seq![EffectView::LogError(e)]
            },
        },
{
    let tree = json_of(data);
    let arrived = HudView { timeline_loading: false, ..pre };
    let read = choose|read: Result<(Seq<EventView>, u32), Seq<char>>| #[trigger]
        timeline_page_says(d, tree, read) && match read {
            Ok(p) => page_taken(d, arrived, sid@, offset, append, p.0, p.1, post, fx),
            Err(e) => downed(d, arrived, e, post) && fx == seq![EffectView::LogError(e)],
        };
    match read {
        Ok((events, total)) => {
            let looked_at = post.tab == Tab::Timeline;
            let (added, complete, go) = choose|added: usize, complete: bool, go: bool| #[trigger]
                page_merged(d, arrived, sid@, append, events, post.timeline, added)
                    && #[trigger] complete_is(d, post, complete) && #[trigger] continue_says(
                    d,
                    looked_at,
                    complete,
                    false,
                    go,
                ) && fx == if go && added > 0 {
                    seq![
                        EffectView::ContinueTimeline {
                            sid: sid@,
                            gen: post.timeline_gen,
                            wait_ms: crate::timeline::CONTINUE_WAIT_MS as int,
                        },
                    ]
                } else {
                    Seq::<EffectView>::empty()
                };
            (read, added, complete, go)
        },
        Err(e) => (read, 0usize, false, false),
    }
}

/// A page that fails says so in the status line and in the log, and leaves the
/// timeline as it is.
pub proof fn law_a_failed_page<D: Domain>(
    d: &D,
    pre: HudView,
    m: Moment,
    gen: u64,
    sid: String,
    offset: u32,
    append: bool,
    e: String,
    post: HudView,
    fx: Seq<EffectView>,
)
    requires
        steps(
            d,
            pre,
            m,
            Message::TimelineLoaded { gen, sid, offset, append, result: Err(e) },
            post,
            fx,
        ),
        gen == pre.timeline_gen,
    ensures
        post == (HudView {
            timeline_loading: false,
            status: post.status,
            status_err: true,
            ..pre
        }),
        down_says(d, e@, post.status),
        fx == seq![EffectView::LogError(e@)],
{
}

/// Loading goes on with the rows that the timeline lacks: when it was to be continued,
/// for the session it was begun for, and when the end of the shown rows is reached on
/// the timeline page of the selected session.
pub proof fn law_the_timeline_is_loaded_on<D: Domain>(
    d: &D,
    pre: HudView,
    m: Moment,
    message: Message,
    post: HudView,
    fx: Seq<EffectView>,
)
    requires
        steps(d, pre, m, message, post, fx),
    ensures
        match message {
            Message::ContinueTimeline { sid, gen } => {
                &&& gen == pre.timeline_gen ==> loads_on(d, pre, sid@, post, fx)
                &&& gen != pre.timeline_gen ==> post == pre && fx.len() == 0
            },
            Message::LoadMoreTimeline => {
                let reached = pre.tab == Tab::Timeline && chosen_id(pre).len() > 0 && chosen_id(pre)
                    == pre.timeline_sid;
                &&& reached ==> loads_on(d, pre, pre.timeline_sid, post, fx)
                &&& !reached ==> post == pre && fx.len() == 0
            },
            _ => true,
        },
{
    match message {
        Message::ContinueTimeline { sid, gen } => {
            if gen == pre.timeline_gen {
                lemma_loads_on(d, pre, sid@, post, fx);
            }
        },
        Message::LoadMoreTimeline => {
            if filled(d, pre, pre.timeline_sid, post, fx) {
                lemma_loads_on(d, pre, pre.timeline_sid, post, fx);
            }
        },
        _ => {},
    }
}

// ---------------------------------------------------------------------------
// Searching the timeline
// ---------------------------------------------------------------------------

proof fn lemma_search_loads<D: Domain>(
    d: &D,
    pre: HudView,
    query: Seq<char>,
    kind: KindFilter,
    searching: bool,
    post: HudView,
    fx: Seq<EffectView>,
) -> (mid: HudView)
    requires
        crate::update::timeline_searched(d, pre, query, kind, searching, post, fx),
    ensures
        mid == (HudView {
            timeline_query: query,
            timeline_kind: kind,
            tl_filter: mid.tl_filter,
            ..pre
        }),
        filters(d, mid, mid.tl_filter),
        searching && chosen_id(pre).len() > 0 ==> loads_on(d, mid, chosen_id(pre), post, fx),
        !searching || chosen_id(pre).len() == 0 ==> post == mid && fx.len() == 0,
{
    let mid = choose|mid: HudView| #[trigger]
        refiltered(d, HudView { timeline_query: query, timeline_kind: kind, ..pre }, mid)
            && search_fills(d, mid, searching, post, fx);
    assert(chosen_row(mid) == chosen_row(pre));
    if searching && chosen_id(pre).len() > 0 && filled(d, mid, chosen_id(pre), post, fx) {
        lemma_loads_on(d, mid, chosen_id(pre), post, fx);
    }
    mid
}

/// A search in the timeline takes the text as it is typed and finds the rows anew.
/// While there is something to search for, the rest of the timeline is loaded.
pub proof fn law_a_timeline_search<D: Domain>(
    d: &D,
    pre: HudView,
    m: Moment,
    q: String,
    post: HudView,
    fx: Seq<EffectView>,
) -> (mid: HudView)
    requires
        steps(d, pre, m, Message::TimelineQuery(q), post, fx),
    ensures
        mid == (HudView { timeline_query: q@, tl_filter: mid.tl_filter, ..pre }),
        filters(d, mid, mid.tl_filter),
        trimmed(q@).len() > 0 && chosen_id(pre).len() > 0 ==> loads_on(
            d,
            mid,
            chosen_id(pre),
            post,
            fx,
        ),
        trimmed(q@).len() == 0 || chosen_id(pre).len() == 0 ==> post == mid && fx.len() == 0,
{
    lemma_search_loads(d, pre, q@, pre.timeline_kind, trimmed(q@).len() > 0, post, fx)
}

/// A kind of rows is chosen: the rows are found anew. While not all kinds are shown,
/// the rest of the timeline is loaded.
pub proof fn law_a_timeline_kind<D: Domain>(
    d: &D,
    pre: HudView,
    m: Moment,
    kind: KindFilter,
    post: HudView,
    fx: Seq<EffectView>,
) -> (mid: HudView)
    requires
        steps(d, pre, m, Message::TimelineKind(kind), post, fx),
    ensures
        mid == (HudView { timeline_kind: kind, tl_filter: mid.tl_filter, ..pre }),
        filters(d, mid, mid.tl_filter),
        kind != KindFilter::All && chosen_id(pre).len() > 0 ==> loads_on(
            d,
            mid,
            chosen_id(pre),
            post,
            fx,
        ),
        kind == KindFilter::All || chosen_id(pre).len() == 0 ==> post == mid && fx.len() == 0,
{
    lemma_search_loads(d, pre, pre.timeline_query, kind, kind != KindFilter::All, post, fx)
}

// ---------------------------------------------------------------------------
// The marked row
// ---------------------------------------------------------------------------

/// Place `k` of the filtered rows of `v` holds the row with this index.
pub open spec fn holds_row(v: HudView, index: i64, k: int) -> bool {
    v.tl_filter[k] < v.timeline.len() && v.timeline[v.tl_filter[k] as int].index == index
}

/// `at` is the first place among the filtered rows of `v` that holds the row with
/// this index; nothing when none does.
pub open spec fn first_of(v: HudView, index: i64, at: Option<int>) -> bool {
    match at {
        Some(i) => 0 <= i < v.tl_filter.len() && holds_row(v, index, i) && forall|k: int|
            0 <= k < i ==> !#[trigger] holds_row(v, index, k),
        None => forall|k: int| 0 <= k < v.tl_filter.len() ==> !#[trigger] holds_row(v, index, k),
    }
}

proof fn lemma_focus_from(v: HudView, index: i64, from: int)
    requires
        0 <= from,
    ensures
        match focus_from(v.tl_filter, v.timeline, index, from) {
            Some(i) => from <= i < v.tl_filter.len() && holds_row(v, index, i) && forall|k: int|
                from <= k < i ==> !#[trigger] holds_row(v, index, k),
            None => forall|k: int|
                from <= k < v.tl_filter.len() ==> !#[trigger] holds_row(v, index, k),
        },
    decreases v.tl_filter.len() - from,
{
    if from < v.tl_filter.len() && !holds_row(v, index, from) {
        lemma_focus_from(v, index, from + 1);
    }
}

/// The place of the marked row is the first one among the filtered rows that holds
/// it, and there is none when no row is marked.
pub proof fn law_where_the_marked_row_is(v: HudView)
    ensures
        v.timeline_focus is None ==> focus_place(v) is None,
        v.timeline_focus is Some ==> first_of(v, v.timeline_focus->0, focus_place(v)),
{
    if let Some(index) = v.timeline_focus {
        lemma_focus_from(v, index, 0);
    }
}

/// A jump opens the timeline page at a row: the row is marked, nothing is filtered
/// out, the timeline is scrolled to the row and that of the selected session loaded
/// anew around it.
pub proof fn law_a_jump_opens_the_timeline<D: Domain>(
    d: &D,
    pre: HudView,
    m: Moment,
    index: i64,
    post: HudView,
    fx: Seq<EffectView>,
) -> (r: (HudView, Option<int>, Seq<EffectView>))
    requires
        steps(d, pre, m, Message::JumpTimeline(index), post, fx),
    ensures
        r.0 == (HudView {
            timeline_focus: Some(index),
            tab: Tab::Timeline,
            timeline_query: seq![],
            timeline_kind: KindFilter::All,
            tl_filter: r.0.tl_filter,
            ..pre
        }),
        filters(d, r.0, r.0.tl_filter),
        first_of(r.0, index, r.1),
        fx == seq![EffectView::ScrollTimeline(r.1)] + r.2,
        chosen_id(pre).len() > 0 ==> starts_timeline(d, r.0, chosen_id(pre), true, post, r.2),
        chosen_id(pre).len() == 0 ==> post == r.0 && r.2.len() == 0,
{
    let mid = choose|mid: HudView| #[trigger]
        refiltered(d, jump_begun(pre, index), mid) && jump_loads(d, mid, post, fx);
    law_where_the_marked_row_is(mid);
    assert(chosen_row(mid) == chosen_row(pre));
    if chosen_id(pre).len() > 0 {
        let load = choose|load: Seq<EffectView>| #[trigger]
            ensured(d, mid, chosen_id(pre), true, post, load) && fx == seq![
                EffectView::ScrollTimeline(focus_place(mid)),
            ] + load;
        lemma_starts_timeline(d, mid, chosen_id(pre), true, post, load);
        (mid, focus_place(mid), load)
    } else {
        assert(fx =~= seq![EffectView::ScrollTimeline(focus_place(mid))] + seq![]);
        (mid, focus_place(mid), seq![])
    }
}

/// A click marks a row, and a second click on it takes the mark away. Scrolling takes
/// it away when the marked row is shown and went out of sight. Nothing else changes.
pub proof fn law_rows_are_marked_and_unmarked<D: Domain>(
    d: &D,
    pre: HudView,
    m: Moment,
    message: Message,
    post: HudView,
    fx: Seq<EffectView>,
)
    requires
        steps(d, pre, m, message, post, fx),
        message is SelectTimeline || message is TimelineScroll,
    ensures
        fx.len() == 0,
        post == (HudView { timeline_focus: post.timeline_focus, ..pre }),
        match message {
            Message::SelectTimeline(index) => {
                &&& pre.timeline_focus == Some(index) ==> post.timeline_focus is None
                &&& pre.timeline_focus != Some(index) ==> post.timeline_focus == Some(index)
            },
            Message::TimelineScroll { focus_outside } => {
                let listed = pre.timeline_focus is Some && !first_of(
                    pre,
                    pre.timeline_focus->0,
                    None,
                );
                &&& focus_outside && listed ==> post.timeline_focus is None
                &&& !focus_outside || !listed ==> post.timeline_focus == pre.timeline_focus
            },
            _ => true,
        },
{
    law_where_the_marked_row_is(pre);
    if message is TimelineScroll && pre.timeline_focus is Some {
        let index = pre.timeline_focus->0;
        if let Some(i) = focus_place(pre) {
            assert(holds_row(pre, index, i));
        }
    }
}

// ---------------------------------------------------------------------------
// Relations between pages
// ---------------------------------------------------------------------------

/// A page that states a total above zero sets the total of the timeline, also when
/// another one was known; a page that states none leaves it.
pub proof fn law_the_newest_total_counts<D: Domain>(
    d: &D,
    pre: HudView,
    m: Moment,
    gen: u64,
    sid: String,
    offset: u32,
    append: bool,
    data: Value,
    events: Seq<EventView>,
    total: u32,
    post: HudView,
    fx: Seq<EffectView>,
)
    requires
        steps(
            d,
            pre,
            m,
            Message::TimelineLoaded { gen, sid, offset, append, result: Ok(data) },
            post,
            fx,
        ),
        gen == pre.timeline_gen,
        forall|x: Result<(Seq<EventView>, u32), Seq<char>>| #[trigger]
            timeline_page_says(d, json_of(data), x) ==> x == Ok::<(Seq<EventView>, u32), Seq<char>>(
                (events, total),
            ),
    ensures
        total > 0 ==> post.timeline_total == total,
        total == 0 ==> post.timeline_total == pre.timeline_total,
        post.timeline_gen == pre.timeline_gen,
        post.timeline_sid == sid@,
        !post.timeline_loading,
        total > 0 && events.len() <= total && offset <= total - events.len() && pre.timeline_next
            <= total ==> post.timeline_next == if pre.timeline_next > offset + events.len() {
            pre.timeline_next as int
        } else {
            offset + events.len()
        },
{
    let r = law_a_page_is_taken(d, pre, m, gen, sid, offset, append, data, post, fx);
    assert(r.0 == Ok::<(Seq<EventView>, u32), Seq<char>>((events, total)));
}

/// Of two pages in a row the later one's total counts, if it states one.
pub proof fn law_of_two_pages_the_later_total_counts<D: Domain>(
    d: &D,
    a: HudView,
    b: HudView,
    c: HudView,
    m: Moment,
    n: Moment,
    gen: u64,
    sid: String,
    data: Value,
    later: Value,
    events: Seq<EventView>,
    total: u32,
    fx: Seq<EffectView>,
    gx: Seq<EffectView>,
)
    requires
        steps(
            d,
            a,
            m,
            Message::TimelineLoaded { gen, sid, offset: 0, append: false, result: Ok(data) },
            b,
            fx,
        ),
        steps(
            d,
            b,
            n,
            Message::TimelineLoaded { gen, sid, offset: 0, append: true, result: Ok(later) },
            c,
            gx,
        ),
        gen == a.timeline_gen,
        total > 0,
        forall|x: Result<(Seq<EventView>, u32), Seq<char>>| #[trigger]
            timeline_page_says(d, json_of(later), x) ==> x == Ok::<
                (Seq<EventView>, u32),
                Seq<char>,
            >((events, total)),
    ensures
        c.timeline_total == total,
{
    let _ = law_a_page_is_taken(d, a, m, gen, sid, 0, false, data, b, fx);
    law_the_newest_total_counts(d, b, n, gen, sid, 0, true, later, events, total, c, gx);
}

} // verus!
