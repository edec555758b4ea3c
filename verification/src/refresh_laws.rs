//! What the periodic refresh is for: what it goes by, what it fetches, and how often
//! it comes.

use vstd::prelude::*;
use serde_json::Value;

use crate::domain::{label_says, live_says, plan_says, Domain};
use crate::event::{EffectView, Message, Moment, PageSize};
use crate::hud::{any_live_is, overview_ref_is, selected_live_is, status_is, HudView};
use crate::json::{json_of, member, Json};
use crate::list_laws::{chosen_id, chosen_row};
use crate::model::{RowView, Tab, TickPlan, TickView};
use crate::pane_laws::{
    asks_overview, has_timeline_loaded, law_requests_name_the_shown_session, lemma_asks_overview,
    lemma_starts_timeline, names_shown,
};
use crate::refresh::{
    asks_for_palette, begin_effects, latest, list_effects, notify_pairs, notify_trees,
    overview_step, planned, rate_is, refreshed, tail_step, tick_begun, tick_finished, tick_input,
    PollRate,
};
use crate::timeline::tailed;
use crate::update::steps;
use crate::window::summon_effects;
use crate::window_laws::{brings_overlay, lemma_brings_overlay};

verus! {

// ---------------------------------------------------------------------------
// Terms
// ---------------------------------------------------------------------------

/// The palette of `v` at a time: a delete request whose time is up is cancelled, and
/// the status line says so.
pub open spec fn delete_times_out(v: HudView, now_ms: u64, w: HudView) -> bool {
    let due = v.note_delete_until is Some && now_ms >= v.note_delete_until->0;
    &&& !due ==> w == v
    &&& due ==> w == (HudView {
        note_delete_armed: seq![],
        note_delete_until: None,
        status: "Delete cancelled"@,
        ..v
    })
}

/// One of the notifications asks for the palette.
pub open spec fn show_is_asked(notifies: Seq<(String, Value)>) -> bool {
    exists|i: int| 0 <= i < notifies.len() && (#[trigger] notifies[i]).0@ == "hud/show"@
}

/// `pairs` are the notifications, each by its method and the session it is about.
pub open spec fn pairs_are(
    notifies: Seq<(String, Value)>,
    pairs: Seq<(Seq<char>, Seq<char>)>,
) -> bool {
    &&& pairs.len() == notifies.len()
    &&& forall|i: int|
        0 <= i < pairs.len() ==> {
            &&& (#[trigger] pairs[i]).0 == notifies[i].0@
            &&& match member(json_of(notifies[i].1), "sessionId"@) {
                Some(Json::Text(s)) => pairs[i].1 == s,
                _ => pairs[i].1.len() == 0,
            }
        }
}

/// `s` is a status that the selected session has: as the overview shows it, or, when
/// that is blank or there is none, as the list has it.
pub open spec fn has_status<D: Domain>(d: &D, v: HudView, s: Seq<char>) -> bool {
    let listed = match chosen_row(v) {
        Some(r) => r.status,
        None => seq![],
    };
    match v.overview {
        Some(o) => s.len() > 0 && label_says(d, o.meta, s) || label_says(d, o.meta, seq![]) && s
            == listed,
        None => s == listed,
    }
}

/// The domain takes the selected session for live, or not: by its status, and by the
/// turns in the overview.
pub open spec fn is_live<D: Domain>(d: &D, v: HudView, out: bool) -> bool {
    exists|s: Seq<char>| #[trigger]
        has_status(d, v, s) && live_says(
            d,
            s,
            match v.overview {
                Some(o) => Some(o.turns),
                None => None,
            },
            out,
        )
}

/// The domain takes the selected session, or by its status one of the catalog, for
/// live; or none of them.
pub open spec fn any_is_live<D: Domain>(
    d: &D,
    rows: Seq<RowView>,
    selected: bool,
    out: bool,
) -> bool {
    &&& selected ==> out
    &&& !selected && out ==> exists|i: int|
        0 <= i < rows.len() && live_says(d, (#[trigger] rows[i]).status, None, true)
    &&& !selected && !out ==> forall|i: int|
        0 <= i < rows.len() ==> live_says(d, (#[trigger] rows[i]).status, None, false)
}

/// The end of the timeline of session `sid` is looked at again, from a few rows before
/// its end on. A timeline that is not there yet is loaded, that of another session is
/// left, and so is one that a page is under way for.
pub open spec fn looks_at_end<D: Domain>(
    d: &D,
    pre: HudView,
    sid: Seq<char>,
    post: HudView,
    fx: Seq<EffectView>,
) -> bool {
    let idle = post == pre && fx.len() == 0;
    &&& pre.timeline_loading ==> idle
    &&& !pre.timeline_loading && pre.timeline_sid.len() == 0 ==> has_timeline_loaded(
        d,
        pre,
        sid,
        post,
        fx,
    )
    &&& !pre.timeline_loading && pre.timeline_sid.len() > 0 && pre.timeline_sid != sid ==> idle
    &&& !pre.timeline_loading && pre.timeline_sid.len() > 0 && pre.timeline_sid == sid ==> {
        &&& post == pre
        &&& fx.len() == 1
        &&& fx[0] is FetchTimeline
        &&& fx[0]->FetchTimeline_sid == sid
        &&& names_shown(d, pre, fx[0]->FetchTimeline_rpc_ref)
        &&& pre.timeline_next >= 4 ==> fx[0]->offset == pre.timeline_next - 4
        &&& pre.timeline_next < 4 ==> fx[0]->offset == 0
        &&& fx[0]->append
        &&& fx[0]->FetchTimeline_gen == pre.timeline_gen
        &&& fx[0]->limit == PageSize::LiveTail
    }
}

proof fn lemma_looks_at_end<D: Domain>(
    d: &D,
    pre: HudView,
    sid: Seq<char>,
    post: HudView,
    fx: Seq<EffectView>,
)
    requires
        tailed(d, pre, sid, post, fx),
    ensures
        looks_at_end(d, pre, sid, post, fx),
{
    if !pre.timeline_loading {
        if pre.timeline_sid.len() == 0 {
            lemma_starts_timeline(d, pre, sid, false, post, fx);
        } else if pre.timeline_sid == sid {
            let rpc_ref = choose|rpc_ref: Seq<char>| #[trigger]
                overview_ref_is(d, pre, rpc_ref) && fx == seq![
                    EffectView::FetchTimeline {
                        rpc_ref,
                        sid,
                        offset: crate::timeline::tail_offset(pre.timeline_next),
                        append: true,
                        gen: pre.timeline_gen,
                        limit: PageSize::LiveTail,
                    },
                ];
            law_requests_name_the_shown_session(d, pre, rpc_ref);
        }
    }
}

// ---------------------------------------------------------------------------
// Refreshing
// ---------------------------------------------------------------------------

/// What a refresh goes by: what came, what is selected and shown, whether the palette
/// is looked at, and how long ago the last refresh was.
pub open spec fn goes_by(
    v: HudView,
    now_ms: u64,
    live: bool,
    any_live: bool,
    input: TickView,
) -> bool {
    &&& input.selected_sid == chosen_id(v)
    &&& input.overview_sid == v.overview_sid
    &&& input.palette_live == (v.palette_live && v.visible)
    &&& now_ms >= v.last_live ==> input.list_elapsed_ms == now_ms - v.last_live
    &&& now_ms < v.last_live ==> input.list_elapsed_ms == 0
    &&& input.selected_live == live
    &&& input.any_live == any_live
    &&& input.on_timeline == (v.tab == Tab::Timeline)
    &&& input.notes_locked == v.note_compose_lock
}

pub proof fn lemma_live<D: Domain>(d: &D, v: HudView, live: bool, any_live: bool)
    requires
        selected_live_is(d, v, live),
        any_live_is(d, v, live, any_live),
    ensures
        is_live(d, v, live),
        any_is_live(d, v.all_sessions, live, any_live),
{
    let turns = match v.overview {
        Some(o) => Some(o.turns),
        None => None,
    };
    let s = choose|s: Seq<char>|
        #![trigger status_is(d, v, s)]
        status_is(d, v, s) && live_says(d, s, turns, live);
    assert(has_status(d, v, s));
}

proof fn lemma_pairs(notifies: Seq<(String, Value)>)
    ensures
        pairs_are(notifies, notify_pairs(notify_trees(notifies))),
        asks_for_palette(notify_pairs(notify_trees(notifies))) == show_is_asked(notifies),
{
    let pairs = notify_pairs(notify_trees(notifies));
    assert forall|i: int| 0 <= i < pairs.len() implies {
        &&& (#[trigger] pairs[i]).0 == notifies[i].0@
        &&& match member(json_of(notifies[i].1), "sessionId"@) {
            Some(Json::Text(s)) => pairs[i].1 == s,
            _ => pairs[i].1.len() == 0,
        }
    } by {
        assert(notify_trees(notifies)[i] == (notifies[i].0@, json_of(notifies[i].1)));
    }
    if show_is_asked(notifies) {
        let i = choose|i: int|
            0 <= i < notifies.len() && (#[trigger] notifies[i]).0@ == "hud/show"@;
        assert(pairs[i].0 == notifies[i].0@);
    }
    if asks_for_palette(pairs) {
        let i = choose|i: int|
            0 <= i < pairs.len() && crate::tray::notify_action((#[trigger] pairs[i]).0) == Some(
                crate::tray::TrayAction::Show,
            );
        assert(notifies[i].0@ == pairs[i].0);
    }
}

proof fn lemma_goes_by(
    v: HudView,
    pairs: Seq<(Seq<char>, Seq<char>)>,
    now_ms: u64,
    live: bool,
    any_live: bool,
)
    ensures
        goes_by(v, now_ms, live, any_live, tick_input(v, pairs, now_ms, live, any_live)),
{
    if chosen_id(v).len() == 0 {
        assert(chosen_id(v) =~= seq![]);
    }
}

/// The parts of a plan that is carried out.
proof fn lemma_plan_parts<D: Domain>(
    d: &D,
    pre: HudView,
    plan: TickPlan,
    now_ms: u64,
    post: HudView,
    fx: Seq<EffectView>,
) -> (r: (HudView, Seq<EffectView>, HudView, Seq<EffectView>))
    requires
        planned(d, pre, plan, now_ms, post, fx),
    ensures
        plan.load_overview ==> asks_overview(d, pre, true, r.0, r.1),
        !plan.load_overview ==> r.0 == pre && r.1.len() == 0,
        plan.refresh_timeline && chosen_id(r.0).len() > 0 ==> looks_at_end(
            d,
            r.0,
            chosen_id(r.0),
            r.2,
            r.3,
        ),
        !(plan.refresh_timeline && chosen_id(r.0).len() > 0) ==> r.2 == r.0 && r.3.len() == 0,
        post == refreshed(r.2, plan, now_ms),
        fx == list_effects(pre, plan.fetch_list) + r.1 + r.3,
{
    let (mid, last, load, tail) = choose|
        mid: HudView,
        last: HudView,
        load: Seq<EffectView>,
        tail: Seq<EffectView>,
    |
        {
            &&& #[trigger] overview_step(d, pre, plan.load_overview, mid, load)
            &&& #[trigger] tail_step(d, mid, plan.refresh_timeline, last, tail)
            &&& post == refreshed(last, plan, now_ms)
            &&& fx == list_effects(pre, plan.fetch_list) + load + tail
        };
    reveal(overview_step);
    reveal(tail_step);
    if plan.load_overview {
        lemma_asks_overview(d, pre, true, mid, load);
    }
    if plan.refresh_timeline && chosen_id(mid).len() > 0 {
        lemma_looks_at_end(d, mid, chosen_id(mid), last, tail);
    }
    (mid, load, last, tail)
}

/// How the effects of a refresh are put together.
proof fn lemma_refresh_effects(
    brought: Seq<EffectView>,
    list: Seq<EffectView>,
    load: Seq<EffectView>,
    tail: Seq<EffectView>,
)
    ensures
        (seq![EffectView::SyncTheme] + brought) + (list + load + tail) == seq![
            EffectView::SyncTheme,
        ] + brought + list + load + tail,
        list.len() == 0 ==> seq![EffectView::SyncTheme] + brought + list + load + tail == seq![
            EffectView::SyncTheme,
        ] + brought + load + tail,
{
    assert((seq![EffectView::SyncTheme] + brought) + (list + load + tail) =~= seq![
        EffectView::SyncTheme,
    ] + brought + list + load + tail);
    if list.len() == 0 {
        assert(seq![EffectView::SyncTheme] + brought + list =~= seq![EffectView::SyncTheme]
            + brought);
    }
}

/// A refresh reads the theme anew, cancels a delete request whose time is up, brings
/// the palette when a notification asks for it, and then carries out what the domain
/// plans: it asks for the list since the known revision, for the overview of the
/// selected session, and for the end of its timeline, all of them quietly. If anything
/// was planned, the time of the refresh is kept.
///
/// The result is the state after the delete request and after the notifications, the
/// effects of the latter, what the domain is asked and plans, and the state after, and
/// the effects of, the overview's and the timeline's part.
pub proof fn law_a_refresh<D: Domain>(
    d: &D,
    pre: HudView,
    m: Moment,
    notifies: Vec<(String, Value)>,
    post: HudView,
    fx: Seq<EffectView>,
) -> (r: (
    (HudView, HudView, Seq<EffectView>),
    (TickView, TickPlan),
    (HudView, Seq<EffectView>, HudView, Seq<EffectView>),
))
    requires
        steps(d, pre, m, Message::Tick(notifies), post, fx),
    ensures
        delete_times_out(pre, m.now_ms, r.0.0),
        show_is_asked(notifies@) ==> brings_overlay(r.0.0, m, r.0.1, r.0.2),
        !show_is_asked(notifies@) ==> r.0.1 == r.0.0 && r.0.2.len() == 0,
        is_live(d, r.0.1, r.1.0.selected_live),
        any_is_live(d, r.0.1.all_sessions, r.1.0.selected_live, r.1.0.any_live),
        goes_by(r.0.1, m.now_ms, r.1.0.selected_live, r.1.0.any_live, r.1.0),
        pairs_are(notifies@, r.1.0.notifies),
        plan_says(d, r.1.0, r.1.1),
        r.1.1.load_overview ==> asks_overview(d, r.0.1, true, r.2.0, r.2.1),
        !r.1.1.load_overview ==> r.2.0 == r.0.1 && r.2.1.len() == 0,
        r.1.1.refresh_timeline && chosen_id(r.2.0).len() > 0 ==> looks_at_end(
            d,
            r.2.0,
            chosen_id(r.2.0),
            r.2.2,
            r.2.3,
        ),
        !(r.1.1.refresh_timeline && chosen_id(r.2.0).len() > 0) ==> r.2.2 == r.2.0 && r.2.3.len()
            == 0,
        r.1.1.fetch_list || r.1.1.load_overview || r.1.1.refresh_timeline ==> post == (HudView {
            last_live: m.now_ms,
            ..r.2.2
        }),
        !(r.1.1.fetch_list || r.1.1.load_overview || r.1.1.refresh_timeline) ==> post == r.2.2,
        r.1.1.fetch_list ==> fx == seq![EffectView::SyncTheme] + r.0.2 + seq![
            EffectView::FetchList { quiet: true, since: pre.catalog_revision },
        ] + r.2.1 + r.2.3,
        !r.1.1.fetch_list ==> fx == seq![EffectView::SyncTheme] + r.0.2 + r.2.1 + r.2.3,
{
    let trees = notify_trees(notifies@);
    let pairs = notify_pairs(trees);
    lemma_pairs(notifies@);
    let v = crate::notes::delete_expired(pre, m.now_ms);
    let w = tick_begun(pre, m, pairs);
    let brought = if asks_for_palette(pairs) {
        summon_effects(v, m)
    } else {
        seq![]
    };
    lemma_brings_overlay(v, m);
    let rest = choose|rest: Seq<EffectView>| #[trigger]
        tick_finished(d, w, m.now_ms, pairs, post, rest) && fx == begin_effects(pre, m, pairs)
            + rest;
    let (live, any_live, plan) = choose|live: bool, any_live: bool, plan: TickPlan|
        {
            &&& #[trigger] selected_live_is(d, w, live)
            &&& #[trigger] any_live_is(d, w, live, any_live)
            &&& #[trigger] plan_says(d, tick_input(w, pairs, m.now_ms, live, any_live), plan)
            &&& planned(d, w, plan, m.now_ms, post, rest)
        };
    lemma_live(d, w, live, any_live);
    lemma_goes_by(w, pairs, m.now_ms, live, any_live);
    let (mid, load, last, tail) = lemma_plan_parts(d, w, plan, m.now_ms, post, rest);
    assert(w.catalog_revision == pre.catalog_revision);
    lemma_refresh_effects(brought, list_effects(w, plan.fetch_list), load, tail);
    (
        (v, w, brought),
        (tick_input(w, pairs, m.now_ms, live, any_live), plan),
        (mid, load, last, tail),
    )
}

/// A hidden palette is not refreshed, a visible one often while a session is live and
/// else seldom.
pub proof fn law_how_often_it_is_refreshed<D: Domain>(
    d: &D,
    v: HudView,
    out: Option<PollRate>,
) -> (r: (bool, bool))
    requires
        rate_is(d, v, out),
    ensures
        !v.visible ==> out is None,
        v.visible ==> {
            &&& is_live(d, v, r.0)
            &&& any_is_live(d, v.all_sessions, r.0, r.1)
            &&& r.1 ==> out == Some(PollRate::Live)
            &&& !r.1 ==> out == Some(PollRate::Idle)
        },
{
    if v.visible {
        let (live, any_live) = choose|live: bool, any_live: bool| #[trigger]
            selected_live_is(d, v, live) && #[trigger] any_live_is(d, v, live, any_live) && out
                == Some(
                if any_live {
                    PollRate::Live
                } else {
                    PollRate::Idle
                },
            );
        lemma_live(d, v, live, any_live);
        (live, any_live)
    } else {
        (false, false)
    }
}

/// Of the notifications that wait, the last sixty-four are kept, in their order.
pub proof fn law_the_latest_notifications_wait(ns: Seq<(Seq<char>, Json)>)
    ensures
        ns.len() <= 64 ==> latest(ns) == ns,
        ns.len() > 64 ==> latest(ns).len() == 64 && forall|i: int|
            0 <= i < 64 ==> (#[trigger] latest(ns)[i]) == ns[ns.len() - 64 + i],
{
}

} // verus!
