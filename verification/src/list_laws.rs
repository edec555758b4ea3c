//! What the session list is for: which catalog is kept, what a search shows, and
//! which row is selected.

use vstd::prelude::*;
use serde_json::Value;

use crate::catalog::{
    bare_rows_are, catalog_put, catalog_taken, in_order, kept_id, lemma_ahead, listed, part_taken,
    picked, place_from, ranked_by, rearranged, refilled, reranked, revised, sorts,
};
use crate::domain::{
    delta_says, down_says, merge_says, page_says, partial_says, rank_says, ref_says, rows_say,
    Domain,
};
use crate::event::{EffectView, Message, Moment};
use crate::hud::{downed, shown, HudView};
use crate::json::{json_of, Json};
use crate::model::{PageView, RowView};
use crate::text::{decimal, text_before, trimmed};
use crate::update::{falls_short, list_followed, list_read, list_taken, steps};

verus! {

// ---------------------------------------------------------------------------
// Terms
// ---------------------------------------------------------------------------

/// The rows that the user sees: all sessions, or those that a search found.
pub open spec fn rows_in(v: HudView) -> Seq<RowView> {
    if trimmed(v.query).len() == 0 {
        v.all_sessions
    } else {
        v.sessions
    }
}

/// The row under the selection.
pub open spec fn chosen_row(v: HudView) -> Option<RowView> {
    if 0 <= v.active < rows_in(v).len() {
        Some(rows_in(v)[v.active])
    } else {
        None
    }
}

/// The id under the selection; empty when there is none.
pub open spec fn chosen_id(v: HudView) -> Seq<char> {
    match chosen_row(v) {
        Some(r) => r.session_id,
        None => seq![],
    }
}

/// The session that the user is at: the one under the selection, else the one in
/// the overview.
pub open spec fn anchor(v: HudView) -> Seq<char> {
    if chosen_id(v).len() > 0 {
        chosen_id(v)
    } else {
        v.overview_sid
    }
}

/// The selection moves from `before` to `after` as the rows become `rows`, for a
/// user who is at session `at`: to the first row of that session, or to the top
/// when it is gone; without a session it keeps its place, as far as there is one.
pub open spec fn follows(at: Seq<char>, rows: Seq<RowView>, before: int, after: int) -> bool {
    &&& forall|i: int|
        at.len() > 0 && 0 <= i < rows.len() && (#[trigger] rows[i]).session_id == at ==> 0 <= after
            <= i && rows[after].session_id == at
    &&& at.len() > 0 && (forall|i: int|
        0 <= i < rows.len() ==> (#[trigger] rows[i]).session_id != at) ==> after == 0
    &&& at.len() == 0 && before < rows.len() ==> after == before
    &&& at.len() == 0 && before >= rows.len() && rows.len() > 0 ==> after == rows.len() - 1
    &&& at.len() == 0 && rows.len() == 0 && before >= 0 ==> after == 0
}

/// The latest session comes first; of two of the same time, the one whose id comes
/// first.
pub open spec fn latest_first(rows: Seq<RowView>) -> bool {
    forall|i: int, j: int|
        0 <= i < j < rows.len() ==> {
            ||| (#[trigger] rows[i]).sort_epoch > (#[trigger] rows[j]).sort_epoch
            ||| rows[i].sort_epoch == rows[j].sort_epoch && !text_before(
                rows[j].session_id,
                rows[i].session_id,
            )
        }
}

/// `rows` are the sessions of `all` at the places that match, each of them, and no
/// others.
pub open spec fn taken_from(all: Seq<RowView>, places: Seq<usize>, rows: Seq<RowView>) -> bool {
    &&& forall|i: int|
        0 <= i < rows.len() ==> exists|k: int|
            0 <= k < places.len() && #[trigger] places[k] < all.len() && all[places[k] as int]
                == #[trigger] rows[i]
    &&& forall|k: int|
        0 <= k < places.len() && places[k] < all.len() ==> rows.contains(
            all[#[trigger] places[k] as int],
        )
    &&& (forall|k: int| 0 <= k < places.len() ==> #[trigger] places[k] < all.len()) ==> rows.len()
        == places.len()
}

/// `rows` are the sessions of `all` that the domain finds for a query, the latest
/// first.
pub open spec fn found<D: Domain>(
    d: &D,
    query: Seq<char>,
    all: Seq<RowView>,
    rows: Seq<RowView>,
) -> bool {
    &&& latest_first(rows)
    &&& exists|places: Seq<usize>| #[trigger]
        rank_says(d, trimmed(query), all, places) && taken_from(all, places, rows)
}

// ---------------------------------------------------------------------------
// Search and selection
// ---------------------------------------------------------------------------

proof fn lemma_picked_from(all: Seq<RowView>, places: Seq<usize>)
    ensures
        forall|i: int|
            0 <= i < picked(all, places).len() ==> exists|k: int|
                0 <= k < places.len() && #[trigger] places[k] < all.len() && all[places[k] as int]
                    == #[trigger] picked(all, places)[i],
        forall|k: int|
            0 <= k < places.len() && places[k] < all.len() ==> picked(all, places).contains(
                all[#[trigger] places[k] as int],
            ),
        (forall|k: int| 0 <= k < places.len() ==> #[trigger] places[k] < all.len()) ==> picked(
            all,
            places,
        ).len() == places.len(),
    decreases places.len(),
{
    if places.len() > 0 {
        let fewer = places.drop_last();
        let rest = picked(all, fewer);
        let rows = picked(all, places);
        lemma_picked_from(all, fewer);
        assert forall|i: int| 0 <= i < rows.len() implies exists|k: int|
            0 <= k < places.len() && #[trigger] places[k] < all.len() && all[places[k] as int]
                == #[trigger] rows[i] by {
            if i < rest.len() {
                let k = choose|k: int|
                    0 <= k < fewer.len() && #[trigger] fewer[k] < all.len() && all[fewer[k] as int]
                        == rest[i];
                assert(places[k] == fewer[k]);
            } else {
                assert(places[places.len() - 1] == places.last());
            }
        }
        assert forall|k: int| 0 <= k < places.len() && places[k] < all.len() implies rows.contains(
            all[#[trigger] places[k] as int],
        ) by {
            if k < fewer.len() {
                assert(fewer[k] == places[k]);
                assert(rest.contains(all[fewer[k] as int]));
                let i = choose|i: int| 0 <= i < rest.len() && rest[i] == all[fewer[k] as int];
                assert(rows[i] == rest[i]);
            } else {
                assert(rows[rest.len() as int] == all[places[k] as int]);
            }
        }
        if forall|k: int| 0 <= k < places.len() ==> #[trigger] places[k] < all.len() {
            assert forall|k: int| 0 <= k < fewer.len() implies #[trigger] fewer[k] < all.len() by {
                assert(places[k] == fewer[k]);
            }
            assert(places[places.len() - 1] < all.len());
        }
    }
}

/// Every row is somewhere in an arrangement of the rows.
proof fn lemma_rearranged_covers(p: Seq<int>, n: int, x: int) -> (k: int)
    requires
        p.len() == n,
        forall|i: int| 0 <= i < n ==> 0 <= #[trigger] p[i] < n,
        forall|i: int, j: int| 0 <= i < j < n ==> #[trigger] p[i] != #[trigger] p[j],
        0 <= x < n,
    ensures
        0 <= k < n,
        p[k] == x,
{
    crate::laws::lemma_arrangement_covers(p, n, x)
}

proof fn lemma_sorted_found(all: Seq<RowView>, places: Seq<usize>, rows: Seq<RowView>)
    requires
        sorts(picked(all, places), rows),
    ensures
        latest_first(rows),
        taken_from(all, places, rows),
{
    let some = picked(all, places);
    lemma_picked_from(all, places);
    let from = choose|from: Seq<int>| #[trigger]
        rearranged(some, rows, from) && in_order(rows, from);
    assert forall|i: int, j: int| 0 <= i < j < rows.len() implies {
        ||| (#[trigger] rows[i]).sort_epoch > (#[trigger] rows[j]).sort_epoch
        ||| rows[i].sort_epoch == rows[j].sort_epoch && !text_before(
            rows[j].session_id,
            rows[i].session_id,
        )
    } by {
        lemma_ahead(rows[i], rows[j], rows[i]);
    }
    assert forall|i: int| 0 <= i < rows.len() implies exists|k: int|
        0 <= k < places.len() && #[trigger] places[k] < all.len() && all[places[k] as int]
            == #[trigger] rows[i] by {
        assert(0 <= from[i] < some.len());
        assert(rows[i] == some[from[i]]);
    }
    assert forall|k: int| 0 <= k < places.len() && places[k] < all.len() implies rows.contains(
        all[#[trigger] places[k] as int],
    ) by {
        assert(some.contains(all[places[k] as int]));
        let x = choose|x: int| 0 <= x < some.len() && some[x] == all[places[k] as int];
        let i = lemma_rearranged_covers(from, some.len() as int, x);
        assert(rows[i] == some[from[i]]);
    }
}

proof fn lemma_first_place(rows: Seq<RowView>, sid: Seq<char>, from: int)
    requires
        0 <= from,
    ensures
        match place_from(rows, sid, from) {
            Some(i) => from <= i < rows.len() && rows[i].session_id == sid && forall|k: int|
                from <= k < i ==> (#[trigger] rows[k]).session_id != sid,
            None => forall|k: int|
                from <= k < rows.len() ==> (#[trigger] rows[k]).session_id != sid,
        },
    decreases rows.len() - from,
{
    if from < rows.len() && rows[from].session_id != sid {
        lemma_first_place(rows, sid, from + 1);
    }
}

/// When the list is ranked anew, it holds all sessions, or those that the search
/// finds among them; the selection follows the session that the user is at, and
/// nothing else changes.
pub proof fn law_a_ranked_list<D: Domain>(d: &D, pre: HudView, post: HudView)
    requires
        reranked(d, pre, post),
    ensures
        post == (HudView { sessions: post.sessions, active: post.active, ..pre }),
        trimmed(pre.query).len() == 0 ==> post.sessions.len() == 0,
        trimmed(pre.query).len() > 0 ==> found(d, pre.query, pre.all_sessions, post.sessions),
        follows(anchor(pre), rows_in(post), pre.active, post.active),
{
    reveal(reranked);
    lemma_first_place(rows_in(post), anchor(pre), 0);
    if trimmed(pre.query).len() > 0 {
        let places = choose|places: Seq<usize>| #[trigger]
            rank_says(d, trimmed(pre.query), pre.all_sessions, places) && ranked_by(
                pre,
                places,
                post,
            );
        lemma_sorted_found(pre.all_sessions, places, post.sessions);
    }
    let (at, rows) = (anchor(pre), rows_in(post));
    assert(at == kept_id(pre) && rows == shown(post));
    if at.len() > 0 {
        match place_from(rows, at, 0) {
            Some(i) => {
                assert(rows[post.active].session_id == at);
            },
            None => {},
        }
    }
}

/// A search shows the sessions of the catalog that match it, the latest first, and
/// all of them when it is blank. The selection stays with the session that the user
/// is at, or goes to the top when the search does not find that session.
pub proof fn law_a_search<D: Domain>(
    d: &D,
    pre: HudView,
    m: Moment,
    q: String,
    post: HudView,
    fx: Seq<EffectView>,
)
    requires
        steps(d, pre, m, Message::SearchChanged(q), post, fx),
    ensures
        post == (HudView { query: q@, sessions: post.sessions, active: post.active, ..pre }),
        trimmed(q@).len() > 0 ==> found(d, q@, pre.all_sessions, post.sessions),
        trimmed(q@).len() == 0 ==> rows_in(post) == pre.all_sessions && post.sessions.len() == 0,
        follows(anchor(HudView { query: q@, ..pre }), rows_in(post), pre.active, post.active),
        fx == seq![EffectView::ClampList(rows_in(post).len() as int)],
{
    law_a_ranked_list(d, HudView { query: q@, ..pre }, post);
}

// ---------------------------------------------------------------------------
// Answers
// ---------------------------------------------------------------------------

/// A whole page that lists fewer sessions than it says there are.
pub open spec fn cut_short(page: Option<PageView>) -> bool {
    page is Some && !page->0.unchanged && !page->0.delta && page->0.matched
        > page->0.sessions.len()
}

/// `post` is what becomes of the sessions of `pre` when a list of `incoming` comes that
/// is neither a change nor the news that nothing changed. A part of the catalog is added
/// to it. Anything else is merged with it, quietly or not; just a merge that leaves
/// nothing of a known catalog is refused, when the answer is quiet or does not claim to
/// be complete.
pub open spec fn kept_current<D: Domain>(
    d: &D,
    pre: HudView,
    incoming: Seq<RowView>,
    matched: i64,
    incomplete: bool,
    building: bool,
    quiet: bool,
    post: HudView,
) -> bool {
    let known = pre.all_sessions.len() > 0;
    let unsure = quiet || incomplete || building;
    let in_part = |b: bool|
        partial_says(d, incoming.len(), matched, false, incomplete, building, b);
    let leaves_none = merge_says(d, pre.all_sessions, incoming, seq![]);
    &&& !(known && in_part(true)) && !leaves_none ==> merge_says(
        d,
        pre.all_sessions,
        incoming,
        post.all_sessions,
    )
    &&& !(known && in_part(true)) && !(known && unsure) ==> merge_says(
        d,
        pre.all_sessions,
        incoming,
        post.all_sessions,
    )
    &&& !in_part(true) && known && unsure ==> post.all_sessions.len() > 0
    &&& known && !in_part(false) && incoming.len() == 0 ==> post.all_sessions == pre.all_sessions
    &&& known && !in_part(false) && incoming.len() > 0 ==> delta_says(
        d,
        pre.all_sessions,
        incoming,
        seq![],
        post.all_sessions,
    )
}

/// The list of `post` is that of `pre`, or it is ranked anew for the sessions of
/// `post`, with the selection on the session that the user is at.
pub open spec fn list_kept_or_ranked<D: Domain>(d: &D, pre: HudView, post: HudView) -> bool {
    ||| {
        &&& post.all_sessions == pre.all_sessions
        &&& post.sessions == pre.sessions
        &&& post.active == pre.active
    }
    ||| {
        &&& trimmed(pre.query).len() == 0 ==> post.sessions.len() == 0
        &&& trimmed(pre.query).len() > 0 ==> found(d, pre.query, post.all_sessions, post.sessions)
        &&& follows(
            anchor(HudView { all_sessions: post.all_sessions, ..pre }),
            rows_in(post),
            pre.active,
            post.active,
        )
    }
}

/// The status line of `post` after a list that was asked for aloud: it counts the
/// sessions, or says that none match, or that there are none, which is a failure.
pub open spec fn told_aloud(post: HudView) -> bool {
    if rows_in(post).len() > 0 {
        post.status == decimal(post.all_sessions.len()) + " sessions · ready"@ && !post.status_err
    } else if trimmed(post.query).len() > 0 {
        post.status == "No matches for “"@ + trimmed(post.query) + "”"@ && !post.status_err
    } else {
        post.status == "No sessions from control · is groket serve running?"@ && post.status_err
    }
}

/// What the status line tells after a list with `rows` was read. A quiet one never
/// tells of a failure. A change or a part of the catalog is never a failure, and a part
/// leaves the text. A whole catalog that was asked for aloud is told, unless it was
/// refused.
pub open spec fn list_is_told<D: Domain>(
    d: &D,
    pre: HudView,
    page: Option<PageView>,
    rows: Seq<RowView>,
    quiet: bool,
    post: HudView,
) -> bool {
    let known = pre.all_sessions.len() > 0;
    let matched = if page is Some {
        page->0.matched
    } else {
        0
    };
    let incomplete = page is Some && page->0.incomplete;
    let building = page is Some && page->0.building;
    let in_part = |b: bool| partial_says(d, rows.len(), matched, false, incomplete, building, b);
    let unchanged = quiet && page is Some && page->0.unchanged;
    let delta = !unchanged && page is Some && page->0.delta;
    let whole = !unchanged && !delta;
    &&& quiet && post.status_err ==> pre.status_err && post.all_sessions == pre.all_sessions
    &&& unchanged || delta ==> !post.status_err
    &&& delta && !quiet ==> post.status == decimal(post.all_sessions.len()) + " sessions · ready"@
    &&& whole && known && !in_part(false) ==> post.status == pre.status
    &&& whole && known && !in_part(false) && rows.len() > 0 ==> !post.status_err
    &&& whole && known && !in_part(false) && rows.len() == 0 ==> post.status_err == pre.status_err
    &&& whole && !quiet && !(known && in_part(true)) && !(known && (incomplete || building))
        ==> told_aloud(post)
    &&& whole && !quiet && !(known && in_part(true)) && post.all_sessions != pre.all_sessions
        ==> told_aloud(post)
}

/// The step from `pre` to `post` touches nothing but the list and the status line.
pub open spec fn list_only(pre: HudView, post: HudView) -> bool {
    post == HudView {
        all_sessions: post.all_sessions,
        sessions: post.sessions,
        active: post.active,
        status: post.status,
        status_err: post.status_err,
        catalog_revision: post.catalog_revision,
        ..pre
    }
}

/// What is to be seen of a list answer: it leaves everything as it was, or the list
/// is kept in sight and just a failure is logged.
pub open spec fn list_effects_are(pre: HudView, post: HudView, fx: Seq<EffectView>) -> bool {
    ||| fx.len() == 0 && post.all_sessions == pre.all_sessions && post.sessions == pre.sessions
    ||| {
        &&& fx.len() > 0 && fx[0] == EffectView::ClampList(rows_in(post).len() as int)
        &&& !post.status_err ==> fx.len() == 1
        &&& post.status_err ==> fx.len() == 2 && fx[1] == EffectView::LogError(
            "no sessions from control"@,
        )
    }
}

proof fn lemma_ranked_after<D: Domain>(d: &D, pre: HudView, rows: Seq<RowView>, post: HudView)
    requires
        post.all_sessions == rows,
        reranked(
            d,
            HudView { all_sessions: rows, ..pre },
            HudView { status: pre.status, status_err: pre.status_err, ..post },
        ),
    ensures
        list_only(pre, post),
        post.catalog_revision == pre.catalog_revision,
        list_kept_or_ranked(d, pre, post),
{
    law_a_ranked_list(
        d,
        HudView { all_sessions: rows, ..pre },
        HudView { status: pre.status, status_err: pre.status_err, ..post },
    );
}

proof fn lemma_part_put<D: Domain>(
    d: &D,
    pre: HudView,
    rows: Seq<RowView>,
    post: HudView,
    fx: Seq<EffectView>,
)
    requires
        refilled(d, pre, rows, pre.status, false, post, fx),
        post.all_sessions == rows,
    ensures
        list_only(pre, post),
        list_kept_or_ranked(d, pre, post),
        list_effects_are(pre, post, fx),
        fx.len() > 0,
        post.catalog_revision == pre.catalog_revision,
        post.status == pre.status,
        !post.status_err,
{
    reveal(refilled);
    law_a_ranked_list(d, HudView { all_sessions: rows, status_err: false, ..pre }, post);
}

proof fn lemma_whole_put<D: Domain>(
    d: &D,
    pre: HudView,
    quiet: bool,
    post: HudView,
    fx: Seq<EffectView>,
)
    requires
        catalog_put(d, pre, post.all_sessions, quiet, post, fx),
    ensures
        list_only(pre, post),
        list_kept_or_ranked(d, pre, post),
        list_effects_are(pre, post, fx),
        fx.len() > 0,
        post.catalog_revision == pre.catalog_revision,
        quiet ==> post.status == pre.status && !post.status_err,
        !quiet ==> told_aloud(post),
{
    reveal(catalog_put);
    lemma_ranked_after(d, pre, post.all_sessions, post);
}

proof fn lemma_catalog_current<D: Domain>(
    d: &D,
    pre: HudView,
    incoming: Seq<RowView>,
    matched: i64,
    incomplete: bool,
    building: bool,
    quiet: bool,
    post: HudView,
    fx: Seq<EffectView>,
)
    requires
        catalog_taken(d, pre, incoming, matched, incomplete, building, quiet, post, fx),
    ensures
        kept_current(d, pre, incoming, matched, incomplete, building, quiet, post),
        list_kept_or_ranked(d, pre, post),
        list_only(pre, post),
        list_effects_are(pre, post, fx),
        post.catalog_revision == pre.catalog_revision,
        quiet ==> post.status == pre.status,
        fx.len() == 0 ==> post == pre,
        quiet && post.status_err ==> post == pre,
        pre.all_sessions.len() > 0 && !partial_says(
            d,
            incoming.len(),
            matched,
            false,
            incomplete,
            building,
            false,
        ) ==> post.status == pre.status && (incoming.len() > 0 ==> !post.status_err) && (
        incoming.len() == 0 ==> post == pre),
        !quiet && !(pre.all_sessions.len() > 0 && partial_says(
            d,
            incoming.len(),
            matched,
            false,
            incomplete,
            building,
            true,
        )) && fx.len() > 0 ==> told_aloud(post),
        !quiet && !(pre.all_sessions.len() > 0 && (incomplete || building || partial_says(
            d,
            incoming.len(),
            matched,
            false,
            incomplete,
            building,
            true,
        ))) ==> told_aloud(post),
{
    reveal(catalog_taken);
    if pre.all_sessions.len() > 0 && part_taken(d, pre, incoming, post, fx) && partial_says(
        d,
        incoming.len(),
        matched,
        false,
        incomplete,
        building,
        true,
    ) {
        if incoming.len() > 0 {
            lemma_part_put(d, pre, post.all_sessions, post, fx);
        }
    } else if catalog_put(d, pre, post.all_sessions, quiet, post, fx) {
        lemma_whole_put(d, pre, quiet, post, fx);
    }
}

/// A list that `page` reads from an answer, and the rows in it: those of the page,
/// or, without page, those that the answer lists.
pub open spec fn rows_read<D: Domain>(
    d: &D,
    data: Json,
    page: Option<PageView>,
    rows: Seq<RowView>,
) -> bool {
    match page {
        Some(p) => rows == p.sessions,
        None => rows_say(d, data, Some(rows)) || rows_say(d, data, None) && rows.len() == 0,
    }
}

/// The overview is asked for after a list was asked for aloud and there is none yet:
/// that of the session under the selection.
pub open spec fn overview_follows<D: Domain>(
    d: &D,
    pre: HudView,
    quiet: bool,
    post: HudView,
    fx: Seq<EffectView>,
) -> bool {
    let wanted = !quiet && pre.overview is None && rows_in(post).len() > 0;
    let row = chosen_row(post);
    &&& post.overview == pre.overview
    &&& forall|i: int|
        0 <= i < fx.len() && (#[trigger] fx[i]) is LoadOverview ==> {
            &&& wanted && row is Some && chosen_id(post).len() > 0
            &&& fx[i]->LoadOverview_sid == chosen_id(post)
            &&& fx[i]->LoadOverview_rpc_ref.len() > 0
            &&& ref_says(d, row->0.path, row->0.session_id, fx[i]->LoadOverview_rpc_ref)
            &&& !fx[i]->LoadOverview_quiet
            &&& fx[i]->LoadOverview_gen == pre.overview_gen + 1
            &&& post.overview_gen == pre.overview_gen + 1
            &&& post.overview_pending == chosen_id(post)
        }
    &&& wanted && chosen_id(post).len() > 0 && !ref_says(
        d,
        row->0.path,
        row->0.session_id,
        seq![],
    ) ==> exists|i: int| 0 <= i < fx.len() && (#[trigger] fx[i]) is LoadOverview
    &&& wanted && chosen_id(post).len() == 0 ==> post.overview_sid.len() == 0
        && post.overview_pending.len() == 0 && post.overview_gen == pre.overview_gen
    &&& !wanted ==> post.overview_sid == pre.overview_sid && post.overview_pending
        == pre.overview_pending && post.overview_gen == pre.overview_gen
}

proof fn lemma_overview_follows<D: Domain>(
    d: &D,
    pre: HudView,
    quiet: bool,
    post: HudView,
    told: Seq<EffectView>,
    load: Seq<EffectView>,
)
    requires
        list_followed(d, pre, quiet, post, load),
        forall|i: int| 0 <= i < told.len() ==> !((#[trigger] told[i]) is LoadOverview),
    ensures
        overview_follows(d, pre, quiet, post, told + load),
        post == (HudView {
            overview_sid: post.overview_sid,
            overview_pending: post.overview_pending,
            overview_gen: post.overview_gen,
            ..pre
        }),
{
    let fx = told + load;
    assert(rows_in(post) == rows_in(pre) && chosen_row(post) == chosen_row(pre));
    assert forall|i: int| 0 <= i < fx.len() && (#[trigger] fx[i]) is LoadOverview implies i
        == told.len() && fx[i] == load[0] by {
        if i < told.len() {
            assert(fx[i] == told[i]);
        } else {
            assert(fx[i] == load[i - told.len()]);
        }
    }
    if load.len() > 0 {
        assert(fx[told.len() as int] == load[0]);
    }
}

/// The parts of a list answer that is taken.
proof fn lemma_answer_parts<D: Domain>(
    d: &D,
    pre: HudView,
    data: Json,
    quiet: bool,
    post: HudView,
    fx: Seq<EffectView>,
) -> (r: (Option<PageView>, HudView, Seq<EffectView>, Seq<EffectView>))
    requires
        list_read(d, pre, data, quiet, post, fx),
    ensures
        page_says(d, data, r.0),
        quiet && falls_short(r.0) ==> post == pre && fx == seq![
            EffectView::FetchList { quiet, since: 0 },
        ],
        !(quiet && falls_short(r.0)) ==> {
            &&& listed(d, pre, data, r.0, quiet, r.1, r.2)
            &&& list_followed(d, r.1, quiet, post, r.3)
            &&& fx == r.2 + r.3
        },
{
    let page = choose|page: Option<PageView>| #[trigger]
        page_says(d, data, page) && list_taken(d, pre, data, page, quiet, post, fx);
    if quiet && falls_short(page) {
        (page, pre, fx, fx)
    } else {
        let (mid, rows, load) = choose|
            mid: HudView,
            rows: Seq<EffectView>,
            load: Seq<EffectView>,
        |
            {
                &&& #[trigger] listed(d, pre, data, page, quiet, mid, rows)
                &&& #[trigger] list_followed(d, mid, quiet, post, load)
                &&& fx == rows + load
            };
        (page, mid, rows, load)
    }
}

/// The rows that an answer lists, and what becomes of the list.
proof fn lemma_listed_current<D: Domain>(
    d: &D,
    pre: HudView,
    data: Json,
    page: Option<PageView>,
    quiet: bool,
    post: HudView,
    fx: Seq<EffectView>,
) -> (rows: Seq<RowView>)
    requires
        listed(d, pre, data, page, quiet, post, fx),
    ensures
        rows_read(d, data, page, rows),
        list_only(pre, post),
        list_kept_or_ranked(d, pre, post),
        list_effects_are(pre, post, fx),
        quiet ==> post.status == pre.status,
        post.catalog_revision == if page is Some && page->0.revision > 0 {
            page->0.revision
        } else {
            pre.catalog_revision
        },
        match page {
            Some(p) if quiet && p.unchanged => post.all_sessions == pre.all_sessions
                && !post.status_err && fx.len() == 0,
            Some(p) if p.delta => {
                &&& delta_says(d, pre.all_sessions, p.sessions, p.removed, post.all_sessions)
                &&& !post.status_err
                &&& !quiet ==> post.status == decimal(post.all_sessions.len())
                    + " sessions · ready"@
            },
            Some(p) => kept_current(
                d,
                pre,
                rows,
                p.matched,
                p.incomplete,
                p.building,
                quiet,
                post,
            ),
            None => kept_current(d, pre, rows, 0, false, false, quiet, post),
        },
        list_is_told(d, pre, page, rows, quiet, post),
{
    match page {
        Some(p) => {
            let v = revised(pre, p.revision);
            if quiet && p.unchanged {
            } else if p.delta {
                reveal(refilled);
                let status = if quiet {
                    v.status
                } else {
                    crate::catalog::count_line(post.all_sessions.len())
                };
                law_a_ranked_list(
                    d,
                    HudView {
                        all_sessions: post.all_sessions,
                        status,
                        status_err: false,
                        ..v
                    },
                    post,
                );
            } else {
                lemma_catalog_current(
                    d,
                    v,
                    p.sessions,
                    p.matched,
                    p.incomplete,
                    p.building,
                    quiet,
                    post,
                    fx,
                );
            }
            p.sessions
        },
        None => {
            let rows = choose|incoming: Seq<RowView>| #[trigger]
                bare_rows_are(d, data, incoming) && catalog_taken(
                    d,
                    pre,
                    incoming,
                    0,
                    false,
                    false,
                    quiet,
                    post,
                    fx,
                );
            lemma_catalog_current(d, pre, rows, 0, false, false, quiet, post, fx);
            rows
        },
    }
}

/// An answer to a request for the list keeps the catalog current. A change is made
/// to it, a part is added to it, and any other page is merged with it, whether the
/// answer is quiet or not. The revision of the page is the known one from then on.
/// The list is ranked for the new catalog, the selection follows, and nothing else
/// changes, but for the overview that is asked for when there is none.
pub proof fn law_a_list_answer<D: Domain>(
    d: &D,
    pre: HudView,
    m: Moment,
    quiet: bool,
    data: Value,
    post: HudView,
    fx: Seq<EffectView>,
) -> (r: (Option<PageView>, Seq<RowView>))
    requires
        steps(d, pre, m, Message::ListLoaded { quiet, result: Ok(data) }, post, fx),
    ensures
        page_says(d, json_of(data), r.0),
        quiet && cut_short(r.0) ==> post == pre && fx == seq![
            EffectView::FetchList { quiet: true, since: 0 },
        ],
        !(quiet && cut_short(r.0)) ==> {
            &&& rows_read(d, json_of(data), r.0, r.1)
            &&& post.catalog_revision == if r.0 is Some && r.0->0.revision > 0 {
                r.0->0.revision
            } else {
                pre.catalog_revision
            }
            &&& match r.0 {
                Some(p) if quiet && p.unchanged => post.all_sessions == pre.all_sessions
                    && !post.status_err && fx.len() == 0,
                Some(p) if p.delta => delta_says(
                    d,
                    pre.all_sessions,
                    p.sessions,
                    p.removed,
                    post.all_sessions,
                ),
                Some(p) => kept_current(
                    d,
                    pre,
                    r.1,
                    p.matched,
                    p.incomplete,
                    p.building,
                    quiet,
                    post,
                ),
                None => kept_current(d, pre, r.1, 0, false, false, quiet, post),
            }
            &&& list_kept_or_ranked(d, pre, post)
            &&& overview_follows(d, pre, quiet, post, fx)
            &&& list_only(
                HudView {
                    overview_sid: post.overview_sid,
                    overview_pending: post.overview_pending,
                    overview_gen: post.overview_gen,
                    ..pre
                },
                post,
            )
        },
{
    let (page, mid, told, load) = lemma_answer_parts(d, pre, json_of(data), quiet, post, fx);
    if quiet && cut_short(page) {
        (page, seq![])
    } else {
        let rows = lemma_listed_current(d, pre, json_of(data), page, quiet, mid, told);
        lemma_overview_follows(d, mid, quiet, post, told, load);
        assert(rows_in(post) == rows_in(mid));
        (page, rows)
    }
}

/// What is to be seen of a list answer. A quiet one leaves the status line. One that
/// was asked for aloud counts the sessions, or says that there are none or none that
/// match; only that there are none at all is a failure, and is logged. The list is
/// kept in sight.
pub proof fn law_a_list_is_told<D: Domain>(
    d: &D,
    pre: HudView,
    m: Moment,
    quiet: bool,
    data: Value,
    post: HudView,
    fx: Seq<EffectView>,
) -> (r: (Option<PageView>, Seq<RowView>))
    requires
        steps(d, pre, m, Message::ListLoaded { quiet, result: Ok(data) }, post, fx),
    ensures
        page_says(d, json_of(data), r.0),
        quiet ==> post.status == pre.status,
        quiet && cut_short(r.0) || rows_read(d, json_of(data), r.0, r.1),
        !(quiet && cut_short(r.0)) ==> {
            &&& list_is_told(d, pre, r.0, r.1, quiet, post)
            &&& post.all_sessions != pre.all_sessions || post.sessions != pre.sessions ==> fx.len()
                > 0 && fx[0] == EffectView::ClampList(rows_in(post).len() as int)
            &&& forall|i: int|
                0 <= i < fx.len() ==> {
                    ||| (#[trigger] fx[i]) == EffectView::ClampList(rows_in(post).len() as int)
                    ||| fx[i] is LoadOverview
                    ||| post.status_err && fx[i] == EffectView::LogError(
                        "no sessions from control"@,
                    )
                }
        },
{
    let (page, mid, told, load) = lemma_answer_parts(d, pre, json_of(data), quiet, post, fx);
    if quiet && cut_short(page) {
        (page, seq![])
    } else {
        let rows = lemma_listed_current(d, pre, json_of(data), page, quiet, mid, told);
        assert(rows_in(post) == rows_in(mid));
        assert forall|i: int| 0 <= i < fx.len() implies {
            ||| (#[trigger] fx[i]) == EffectView::ClampList(rows_in(post).len() as int)
            ||| fx[i] is LoadOverview
            ||| post.status_err && fx[i] == EffectView::LogError("no sessions from control"@)
        } by {
            if i < told.len() {
                assert(fx[i] == told[i]);
            } else {
                assert(fx[i] == load[i - told.len()]);
            }
        }
        (page, rows)
    }
}

/// A request for the list that fails leaves the list as it was: the status line says
/// what went wrong, and it is logged.
pub proof fn law_a_failed_list<D: Domain>(
    d: &D,
    pre: HudView,
    m: Moment,
    quiet: bool,
    e: String,
    post: HudView,
    fx: Seq<EffectView>,
)
    requires
        steps(d, pre, m, Message::ListLoaded { quiet, result: Err(e) }, post, fx),
    ensures
        post.status_err,
        down_says(d, e@, post.status),
        fx.len() > 0,
        fx[0] == EffectView::LogError(e@),
        post.all_sessions == pre.all_sessions,
        post.sessions == pre.sessions,
        post.active == pre.active,
        post.catalog_revision == pre.catalog_revision,
        overview_follows(d, pre, quiet, post, fx),
        list_only(
            HudView {
                overview_sid: post.overview_sid,
                overview_pending: post.overview_pending,
                overview_gen: post.overview_gen,
                ..pre
            },
            post,
        ),
{
    let (mid, load) = choose|mid: HudView, load: Seq<EffectView>|
        {
            &&& #[trigger] downed(d, pre, e@, mid)
            &&& #[trigger] list_followed(d, mid, quiet, post, load)
            &&& fx == seq![EffectView::LogError(e@)] + load
        };
    lemma_overview_follows(d, mid, quiet, post, seq![EffectView::LogError(e@)], load);
}

// ---------------------------------------------------------------------------
// Relations between answers, searches and the list
// ---------------------------------------------------------------------------

/// A whole page whose merge with the known sessions is not empty is taken: the catalog
/// is that merge, whether the answer was quiet or not.
pub proof fn law_a_whole_page_is_taken<D: Domain>(
    d: &D,
    pre: HudView,
    m: Moment,
    quiet: bool,
    data: Value,
    page: PageView,
    post: HudView,
    fx: Seq<EffectView>,
)
    requires
        steps(d, pre, m, Message::ListLoaded { quiet, result: Ok(data) }, post, fx),
        forall|x: Option<PageView>| #[trigger] page_says(d, json_of(data), x) ==> x == Some(page),
        !page.unchanged,
        !page.delta,
        page.matched <= page.sessions.len(),
        !partial_says(
            d,
            page.sessions.len(),
            page.matched,
            false,
            page.incomplete,
            page.building,
            true,
        ),
        !merge_says(d, pre.all_sessions, page.sessions, seq![]),
    ensures
        merge_says(d, pre.all_sessions, page.sessions, post.all_sessions),
        page.revision > 0 ==> post.catalog_revision == page.revision,
{
    let r = law_a_list_answer(d, pre, m, quiet, data, post, fx);
    assert(r.0 == Some(page));
}

/// A quiet refresh and a list that is asked for aloud keep the same catalog and the same
/// rows, when the page is whole, its merge not empty and the domain's answers fixed.
pub proof fn law_quiet_and_aloud_keep_the_same_catalog<D: Domain>(
    d: &D,
    pre: HudView,
    m: Moment,
    n: Moment,
    data: Value,
    page: PageView,
    a: HudView,
    b: HudView,
    fx: Seq<EffectView>,
    gx: Seq<EffectView>,
)
    requires
        steps(d, pre, m, Message::ListLoaded { quiet: true, result: Ok(data) }, a, fx),
        steps(d, pre, n, Message::ListLoaded { quiet: false, result: Ok(data) }, b, gx),
        forall|x: Option<PageView>| #[trigger] page_says(d, json_of(data), x) ==> x == Some(page),
        !page.unchanged,
        !page.delta,
        page.matched <= page.sessions.len(),
        !partial_says(
            d,
            page.sessions.len(),
            page.matched,
            false,
            page.incomplete,
            page.building,
            true,
        ),
        !merge_says(d, pre.all_sessions, page.sessions, seq![]),
        forall|x: Seq<RowView>, y: Seq<RowView>| #[trigger]
            merge_says(d, pre.all_sessions, page.sessions, x) && #[trigger] merge_says(
                d,
                pre.all_sessions,
                page.sessions,
                y,
            ) ==> x == y,
    ensures
        a.all_sessions == b.all_sessions,
        a.catalog_revision == b.catalog_revision,
{
    law_a_whole_page_is_taken(d, pre, m, true, data, page, a, fx);
    law_a_whole_page_is_taken(d, pre, n, false, data, page, b, gx);
    let _ = law_a_list_answer(d, pre, m, true, data, a, fx);
    let _ = law_a_list_answer(d, pre, n, false, data, b, gx);
}

/// A change is made to the known sessions, whatever the answer's tone.
pub proof fn law_a_change_is_made<D: Domain>(
    d: &D,
    pre: HudView,
    m: Moment,
    quiet: bool,
    data: Value,
    page: PageView,
    post: HudView,
    fx: Seq<EffectView>,
)
    requires
        steps(d, pre, m, Message::ListLoaded { quiet, result: Ok(data) }, post, fx),
        forall|x: Option<PageView>| #[trigger] page_says(d, json_of(data), x) ==> x == Some(page),
        page.delta,
        !page.unchanged,
    ensures
        delta_says(d, pre.all_sessions, page.sessions, page.removed, post.all_sessions),
        !post.status_err,
{
    let r = law_a_list_answer(d, pre, m, quiet, data, post, fx);
    let t = law_a_list_is_told(d, pre, m, quiet, data, post, fx);
    assert(r.0 == Some(page) && t.0 == Some(page));
}

/// When a search does not find the session that the user is at, the first row that it
/// finds is selected; when it does, that session stays selected.
pub proof fn law_a_search_selects<D: Domain>(
    d: &D,
    pre: HudView,
    m: Moment,
    q: String,
    at: Seq<char>,
    seen: Seq<RowView>,
    rows: Seq<RowView>,
    post: HudView,
    fx: Seq<EffectView>,
)
    requires
        steps(d, pre, m, Message::SearchChanged(q), post, fx),
        trimmed(q@).len() == 0 ==> seen == pre.all_sessions && rows == pre.all_sessions,
        trimmed(q@).len() > 0 ==> seen == pre.sessions && rows == post.sessions,
        at.len() > 0,
        if 0 <= pre.active < seen.len() && seen[pre.active].session_id.len() > 0 {
            seen[pre.active].session_id == at
        } else {
            pre.overview_sid == at
        },
    ensures
        (forall|i: int| 0 <= i < rows.len() ==> (#[trigger] rows[i]).session_id != at)
            ==> post.active == 0,
        forall|i: int|
            0 <= i < rows.len() && (#[trigger] rows[i]).session_id == at ==> 0 <= post.active <= i
                && rows[post.active].session_id == at,
{
    law_a_search(d, pre, m, q, post, fx);
    assert(rows == rows_in(post));
}

} // verus!
