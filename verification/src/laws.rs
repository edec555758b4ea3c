//! What holds of the palette as a whole.

use vstd::prelude::*;
use vstd::arithmetic::div_mod::{
    lemma_mod_add_multiples_vanish, lemma_mod_self_0, lemma_small_mod,
};
use vstd::set_lib::{lemma_int_range, lemma_subset_equality, set_int_range};
use serde_json::Value;

use crate::catalog::{
    bare_rows_are, catalog_put, catalog_taken, in_order, kept_id, lemma_ahead, listed, picked,
    place_from, ranked_by, rearranged, refilled, reranked, revised, sorts,
};
use crate::domain::{
    overview_says, page_says, plan_says, rank_says, timeline_page_says, Domain,
};
use crate::event::{EffectView, HudEvent, HudKey, KeyMods, Message, Moment, WindowKind};
use crate::hud::{
    any_live_is, boot_view, downed, focus_place, overlay_mapped, selected_id, selected_live_is,
    shown, HudView,
};
use crate::json::Json;
use crate::keys::{
    is_slash, key_digit, keyed, list_key, looked_at, moved, row_above, row_below, row_selected,
    session_chosen, tab_beside, tab_set,
};
use crate::model::{
    blank_draft, EventView, KindFilter, OverviewView, PageView, RowView, Tab, TickPlan,
};
use crate::notes::{delete_asked, delete_expired, DELETE_WAIT_MS};
use crate::overview::{
    detail_reset, overview_answered, overview_asked, overview_shown, overview_taken, reply_tree,
    timeline_follows,
};
use crate::refresh::{
    asks_for_palette, begin_effects, list_effects, notify_pairs, notify_trees, overview_step,
    planned, refreshed, tail_step, tick_begun, tick_finished, tick_input, ticked,
};
use crate::text::trimmed;
use crate::timeline::{ensured, filled, page_taken, refiltered, tailed};
use crate::tray::TrayAction;
use crate::update::{
    falls_short, jump_begun, jump_loads, jumped, list_answered, list_failed, list_followed,
    list_read, list_taken, loaded_anew, page_answered, search_fills, steps, timeline_searched,
};
use crate::window::{focus_effects, retry_effects, started, summon_effects, FOCUS_ATTEMPTS};

verus! {

// ---------------------------------------------------------------------------
// What loading leaves alone
// ---------------------------------------------------------------------------

/// An effect that loads data, moves the keyboard or the view, or is logged: no window comes
/// or goes by it, no note changes, and the process goes on.
pub open spec fn harmless(e: EffectView) -> bool {
    match e {
        EffectView::FetchList { .. } => true,
        EffectView::LoadOverview { .. } => true,
        EffectView::FetchTimeline { .. } => true,
        EffectView::ContinueTimeline { .. } => true,
        EffectView::FocusInput(_) => true,
        EffectView::FocusWindow { .. } => true,
        EffectView::DelayedFocus { .. } => true,
        EffectView::ScrollTimeline(_) => true,
        EffectView::TimelineTop => true,
        EffectView::ClampList(_) => true,
        EffectView::RevealRow(_) => true,
        EffectView::LogError(_) => true,
        _ => false,
    }
}

/// Something is written to the error log.
pub open spec fn logs(fx: Seq<EffectView>) -> bool {
    exists|i: int| 0 <= i < fx.len() && (#[trigger] fx[i]) is LogError
}

/// The timeline is never asked for beyond its end.
pub open spec fn within_total(v: HudView) -> bool {
    v.timeline_total > 0 ==> v.timeline_next <= v.timeline_total
}

/// From `pre` to `post` the window and the delete request stay as they are, no
/// count of requests goes back, a failure that comes up is logged, and the effects
/// are harmless.
pub open spec fn undisturbed(pre: HudView, post: HudView, fx: Seq<EffectView>) -> bool {
    &&& post.visible == pre.visible
    &&& post.palette_live == pre.palette_live
    &&& post.window_mode == pre.window_mode
    &&& post.window_id == pre.window_id
    &&& post.note_delete_armed == pre.note_delete_armed
    &&& post.note_delete_until == pre.note_delete_until
    &&& post.overview_gen >= pre.overview_gen
    &&& post.timeline_gen >= pre.timeline_gen
    &&& within_total(pre) ==> within_total(post)
    &&& post.status_err && !pre.status_err ==> logs(fx)
    &&& forall|i: int| 0 <= i < fx.len() ==> harmless(#[trigger] fx[i])
}

proof fn lemma_undisturbed_join(
    a: HudView,
    b: HudView,
    c: HudView,
    fx: Seq<EffectView>,
    gx: Seq<EffectView>,
)
    requires
        undisturbed(a, b, fx),
        undisturbed(b, c, gx),
    ensures
        undisturbed(a, c, fx + gx),
{
    assert forall|i: int| 0 <= i < (fx + gx).len() implies harmless(#[trigger] (fx + gx)[i]) by {
        if i < fx.len() {
            assert(harmless(fx[i]));
        } else {
            assert(harmless(gx[i - fx.len()]));
        }
    }
    if c.status_err && !a.status_err {
        if b.status_err {
            let i = choose|i: int| 0 <= i < fx.len() && (#[trigger] fx[i]) is LogError;
            assert((fx + gx)[i] is LogError);
        } else {
            let i = choose|i: int| 0 <= i < gx.len() && (#[trigger] gx[i]) is LogError;
            assert((fx + gx)[fx.len() + i] is LogError);
        }
    }
}

/// A single line in the error log.
proof fn lemma_logs(line: Seq<char>)
    ensures
        logs(seq![EffectView::LogError(line)]),
{
    assert(seq![EffectView::LogError(line)][0] is LogError);
}

proof fn lemma_focus(v: HudView, attempt: u8)
    ensures
        undisturbed(v, v, focus_effects(v, attempt)),
{
}

proof fn lemma_catalog_taken<D: Domain>(
    d: &D,
    pre: HudView,
    incoming: Seq<RowView>,
    matched: i64,
    incomplete: bool,
    building: bool,
    quiet: bool,
    post: HudView,
    fx: Seq<EffectView>,
)
    requires
        catalog_taken(d, pre, incoming, matched, incomplete, building, quiet, post, fx),
    ensures
        undisturbed(pre, post, fx),
        quiet ==> post.status == pre.status,
{
    reveal(catalog_taken);
    reveal(catalog_put);
    reveal(refilled);
    reveal(reranked);
    assert(post.status_err && !pre.status_err ==> fx[1] is LogError);
}

proof fn lemma_listed<D: Domain>(
    d: &D,
    pre: HudView,
    data: Json,
    page: Option<PageView>,
    quiet: bool,
    post: HudView,
    fx: Seq<EffectView>,
)
    requires
        listed(d, pre, data, page, quiet, post, fx),
    ensures
        undisturbed(pre, post, fx),
        quiet ==> post.status == pre.status,
{
    reveal(refilled);
    reveal(reranked);
    match page {
        Some(p) => {
            let v = revised(pre, p.revision);
            if !(quiet && p.unchanged) && !p.delta {
                lemma_catalog_taken(
                    d,
                    v,
                    p.sessions,
                    p.matched,
                    p.incomplete,
                    p.building,
                    quiet,
                    post,
                    fx,
                );
            }
        },
        None => {
            let incoming = choose|incoming: Seq<RowView>| #[trigger]
                bare_rows_are(d, data, incoming) && catalog_taken(
                    d,
                    pre,
                    incoming,
                    0,
                    false,
                    false,
                    quiet,
                    post,
                    fx,
                );
            lemma_catalog_taken(d, pre, incoming, 0, false, false, quiet, post, fx);
        },
    }
}

proof fn lemma_ensured<D: Domain>(
    d: &D,
    pre: HudView,
    sid: Seq<char>,
    force: bool,
    post: HudView,
    fx: Seq<EffectView>,
)
    requires
        ensured(d, pre, sid, force, post, fx),
    ensures
        undisturbed(pre, post, fx),
{
}

proof fn lemma_filled<D: Domain>(
    d: &D,
    pre: HudView,
    sid: Seq<char>,
    post: HudView,
    fx: Seq<EffectView>,
)
    requires
        filled(d, pre, sid, post, fx),
    ensures
        undisturbed(pre, post, fx),
{
}

proof fn lemma_tailed<D: Domain>(
    d: &D,
    pre: HudView,
    sid: Seq<char>,
    post: HudView,
    fx: Seq<EffectView>,
)
    requires
        tailed(d, pre, sid, post, fx),
    ensures
        undisturbed(pre, post, fx),
{
}

proof fn lemma_page_taken<D: Domain>(
    d: &D,
    pre: HudView,
    sid: Seq<char>,
    offset: u32,
    append: bool,
    events: Seq<EventView>,
    total: u32,
    post: HudView,
    fx: Seq<EffectView>,
)
    requires
        page_taken(d, pre, sid, offset, append, events, total, post, fx),
    ensures
        undisturbed(pre, post, fx),
        within_total(post),
{
}

proof fn lemma_overview_asked<D: Domain>(
    d: &D,
    pre: HudView,
    quiet: bool,
    post: HudView,
    fx: Seq<EffectView>,
)
    requires
        overview_asked(d, pre, quiet, post, fx),
    ensures
        undisturbed(pre, post, fx),
{
}

proof fn lemma_overview_taken<D: Domain>(
    d: &D,
    pre: HudView,
    sid: Seq<char>,
    quiet: bool,
    o: OverviewView,
    post: HudView,
    fx: Seq<EffectView>,
)
    requires
        overview_taken(d, pre, sid, quiet, o, post, fx),
    ensures
        undisturbed(pre, post, fx),
{
    let (mid, load) = choose|mid: HudView, load: Seq<EffectView>|
        {
            &&& #[trigger] overview_shown(d, pre, sid, quiet, o, mid)
            &&& #[trigger] timeline_follows(d, mid, sid, post, load)
            &&& fx == load + if quiet {
                Seq::<EffectView>::empty()
            } else {
                focus_effects(post, 0)
            }
        };
    assert(undisturbed(pre, mid, seq![]));
    if post == mid && load == Seq::<EffectView>::empty() {
        assert(undisturbed(mid, post, load));
    } else {
        lemma_ensured(d, mid, sid, false, post, load);
    }
    let focus = if quiet {
        Seq::<EffectView>::empty()
    } else {
        focus_effects(post, 0)
    };
    assert(undisturbed(post, post, focus));
    lemma_undisturbed_join(mid, post, post, load, focus);
    lemma_undisturbed_join(pre, mid, post, seq![], fx);
    assert(Seq::<EffectView>::empty() + fx =~= fx);
}

proof fn lemma_overview_answered<D: Domain>(
    d: &D,
    pre: HudView,
    gen: int,
    sid: Seq<char>,
    quiet: bool,
    result: Result<Json, Seq<char>>,
    post: HudView,
    fx: Seq<EffectView>,
)
    requires
        overview_answered(d, pre, gen, sid, quiet, result, post, fx),
    ensures
        undisturbed(pre, post, fx),
{
    if gen == pre.overview_gen {
        if let Ok(data) = result {
            let read = choose|read: Result<OverviewView, Seq<char>>| #[trigger]
                overview_says(d, data, read) && match read {
                    Ok(o) => overview_taken(d, pre, sid, quiet, o, post, fx),
                    Err(e) => downed(d, pre, e, post) && fx == seq![EffectView::LogError(e)],
                };
            match read {
                Ok(o) => lemma_overview_taken(d, pre, sid, quiet, o, post, fx),
                Err(e) => lemma_logs(e),
            }
        } else {
            lemma_logs(result->Err_0);
        }
    }
}

proof fn lemma_tab_set<D: Domain>(
    d: &D,
    pre: HudView,
    tab: Tab,
    post: HudView,
    fx: Seq<EffectView>,
)
    requires
        tab_set(d, pre, tab, post, fx),
    ensures
        undisturbed(pre, post, fx),
{
    let turned = HudView { tab, ..pre };
    let load = choose|load: Seq<EffectView>| #[trigger]
        looked_at(d, turned, post, load) && fx == load + focus_effects(post, 0);
    match selected_id(turned) {
        Some(sid) if tab == Tab::Timeline => {
            lemma_ensured(d, turned, sid, false, post, load);
        },
        _ => {},
    }
    assert(undisturbed(pre, post, load));
    lemma_undisturbed_join(pre, post, post, load, focus_effects(post, 0));
}

proof fn lemma_row_selected<D: Domain>(
    d: &D,
    pre: HudView,
    active: int,
    post: HudView,
    fx: Seq<EffectView>,
)
    requires
        row_selected(d, pre, active, post, fx),
    ensures
        undisturbed(pre, post, fx),
{
    lemma_overview_asked(d, detail_reset(HudView { active, ..pre }), false, post, fx);
}

proof fn lemma_moved<D: Domain>(
    d: &D,
    pre: HudView,
    active: int,
    post: HudView,
    fx: Seq<EffectView>,
)
    requires
        moved(d, pre, active, post, fx),
    ensures
        undisturbed(pre, post, fx),
{
    let scroll = seq![EffectView::TimelineTop, EffectView::RevealRow(active)];
    let load = choose|load: Seq<EffectView>| #[trigger]
        row_selected(d, pre, active, post, load) && fx == scroll + load;
    lemma_row_selected(d, pre, active, post, load);
    assert(undisturbed(pre, pre, scroll));
    lemma_undisturbed_join(pre, pre, post, scroll, load);
}

proof fn lemma_session_chosen<D: Domain>(
    d: &D,
    pre: HudView,
    i: int,
    post: HudView,
    fx: Seq<EffectView>,
)
    requires
        session_chosen(d, pre, i, post, fx),
    ensures
        undisturbed(pre, post, fx),
{
    lemma_focus(pre, 0);
    if !(i >= shown(pre).len() || pre.active == i && pre.overview is Some) {
        let top = seq![EffectView::TimelineTop];
        let load = choose|load: Seq<EffectView>| #[trigger]
            row_selected(d, pre, i, post, load) && fx == top + load + focus_effects(post, 0);
        lemma_row_selected(d, pre, i, post, load);
        assert(undisturbed(pre, pre, top));
        lemma_undisturbed_join(pre, pre, post, top, load);
        lemma_focus(post, 0);
        lemma_undisturbed_join(pre, post, post, top + load, focus_effects(post, 0));
    }
}

proof fn lemma_list_key<D: Domain>(
    d: &D,
    pre: HudView,
    key: HudKey,
    post: HudView,
    fx: Seq<EffectView>,
)
    requires
        list_key(d, pre, key, post, fx),
    ensures
        undisturbed(pre, post, fx),
{
    let n = shown(pre).len() as int;
    match key {
        HudKey::ArrowDown if n > 0 => lemma_moved(d, pre, row_below(pre.active, n), post, fx),
        HudKey::ArrowUp if n > 0 => lemma_moved(d, pre, row_above(pre.active, n), post, fx),
        HudKey::Home if n > 0 => lemma_moved(d, pre, 0, post, fx),
        HudKey::End if n > 0 => lemma_moved(d, pre, n - 1, post, fx),
        HudKey::Enter => lemma_overview_asked(d, pre, false, post, fx),
        _ => {},
    }
}

proof fn lemma_keyed<D: Domain>(
    d: &D,
    pre: HudView,
    key: HudKey,
    mods: KeyMods,
    post: HudView,
    fx: Seq<EffectView>,
)
    requires
        keyed(d, pre, key, mods, post, fx),
        !(key is Escape),
    ensures
        undisturbed(pre, post, fx),
{
    let held = mods.control || mods.command;
    let digit = key_digit(key);
    if held && digit is Some {
        lemma_tab_set(d, pre, digit->0, post, fx);
    } else if pre.typing_notes || is_slash(key) && pre.tab == Tab::Timeline {
    } else if held && key is Tab {
        lemma_tab_set(d, pre, tab_beside(pre.tab, mods.shift), post, fx);
    } else {
        lemma_list_key(d, pre, key, post, fx);
    }
}

proof fn lemma_timeline_searched<D: Domain>(
    d: &D,
    pre: HudView,
    query: Seq<char>,
    kind: KindFilter,
    searching: bool,
    post: HudView,
    fx: Seq<EffectView>,
)
    requires
        timeline_searched(d, pre, query, kind, searching, post, fx),
    ensures
        undisturbed(pre, post, fx),
{
    let set = HudView { timeline_query: query, timeline_kind: kind, ..pre };
    let mid = choose|mid: HudView| #[trigger]
        refiltered(d, set, mid) && search_fills(d, mid, searching, post, fx);
    match selected_id(mid) {
        Some(sid) if searching => {
            if !(post == mid && fx == Seq::<EffectView>::empty()) {
                lemma_filled(d, mid, sid, post, fx);
            }
        },
        _ => {},
    }
}

proof fn lemma_jumped<D: Domain>(
    d: &D,
    pre: HudView,
    index: i64,
    post: HudView,
    fx: Seq<EffectView>,
)
    requires
        jumped(d, pre, index, post, fx),
    ensures
        undisturbed(pre, post, fx),
{
    let begun = jump_begun(pre, index);
    let mid = choose|mid: HudView| #[trigger]
        refiltered(d, begun, mid) && jump_loads(d, mid, post, fx);
    assert(undisturbed(pre, mid, seq![]));
    if let Some(sid) = selected_id(mid) {
        let scroll = seq![EffectView::ScrollTimeline(focus_place(mid))];
        assert(loaded_anew(d, mid, sid, post, fx));
        let load = choose|load: Seq<EffectView>| #[trigger]
            ensured(d, mid, sid, true, post, load) && fx == scroll + load;
        lemma_ensured(d, mid, sid, true, post, load);
        assert(undisturbed(mid, mid, scroll));
        lemma_undisturbed_join(mid, mid, post, scroll, load);
    }
    assert(undisturbed(mid, post, fx));
    lemma_undisturbed_join(pre, mid, post, seq![], fx);
    assert(Seq::<EffectView>::empty() + fx =~= fx);
}

proof fn lemma_page_answered<D: Domain>(
    d: &D,
    pre: HudView,
    gen: int,
    sid: Seq<char>,
    offset: u32,
    append: bool,
    result: Result<Json, Seq<char>>,
    post: HudView,
    fx: Seq<EffectView>,
)
    requires
        page_answered(d, pre, gen, sid, offset, append, result, post, fx),
    ensures
        undisturbed(pre, post, fx),
{
    let arrived = HudView { timeline_loading: false, ..pre };
    if gen == pre.timeline_gen {
        if let Ok(data) = result {
            let read = choose|read: Result<(Seq<EventView>, u32), Seq<char>>| #[trigger]
                timeline_page_says(d, data, read) && match read {
                    Ok(p) => page_taken(d, arrived, sid, offset, append, p.0, p.1, post, fx),
                    Err(e) => downed(d, arrived, e, post) && fx == seq![EffectView::LogError(e)],
                };
            match read {
                Ok(p) => lemma_page_taken(d, arrived, sid, offset, append, p.0, p.1, post, fx),
                Err(e) => lemma_logs(e),
            }
        } else {
            lemma_logs(result->Err_0);
        }
    }
}

proof fn lemma_list_followed<D: Domain>(
    d: &D,
    pre: HudView,
    quiet: bool,
    post: HudView,
    fx: Seq<EffectView>,
)
    requires
        list_followed(d, pre, quiet, post, fx),
    ensures
        undisturbed(pre, post, fx),
        quiet ==> post == pre,
{
    if !quiet && shown(pre).len() > 0 && pre.overview is None {
        lemma_overview_asked(d, pre, false, post, fx);
    }
}

proof fn lemma_list_taken<D: Domain>(
    d: &D,
    pre: HudView,
    data: Json,
    page: Option<PageView>,
    quiet: bool,
    post: HudView,
    fx: Seq<EffectView>,
)
    requires
        list_taken(d, pre, data, page, quiet, post, fx),
    ensures
        undisturbed(pre, post, fx),
        quiet ==> post.status == pre.status,
{
    if !(quiet && falls_short(page)) {
        let (mid, rows, load) = choose|
            mid: HudView,
            rows: Seq<EffectView>,
            load: Seq<EffectView>,
        |
            {
                &&& #[trigger] listed(d, pre, data, page, quiet, mid, rows)
                &&& #[trigger] list_followed(d, mid, quiet, post, load)
                &&& fx == rows + load
            };
        lemma_listed(d, pre, data, page, quiet, mid, rows);
        lemma_list_followed(d, mid, quiet, post, load);
        lemma_undisturbed_join(pre, mid, post, rows, load);
    }
}

proof fn lemma_list_answered<D: Domain>(
    d: &D,
    pre: HudView,
    quiet: bool,
    result: Result<Json, Seq<char>>,
    post: HudView,
    fx: Seq<EffectView>,
)
    requires
        list_answered(d, pre, quiet, result, post, fx),
    ensures
        undisturbed(pre, post, fx),
        quiet && result is Ok ==> post.status == pre.status,
{
    match result {
        Ok(data) => {
            assert(list_read(d, pre, data, quiet, post, fx));
            let page = choose|page: Option<PageView>| #[trigger]
                page_says(d, data, page) && list_taken(
                    d,
                    pre,
                    data,
                    page,
                    quiet,
                    post,
                    fx,
                );
            lemma_list_taken(d, pre, data, page, quiet, post, fx);
        },
        Err(e) => {
            assert(list_failed(d, pre, e, quiet, post, fx));
            let log = seq![EffectView::LogError(e)];
            let (mid, load) = choose|mid: HudView, load: Seq<EffectView>|
                {
                    &&& #[trigger] downed(d, pre, e, mid)
                    &&& #[trigger] list_followed(d, mid, quiet, post, load)
                    &&& fx == log + load
                };
            lemma_logs(e);
            assert(undisturbed(pre, mid, log));
            lemma_list_followed(d, mid, quiet, post, load);
            lemma_undisturbed_join(pre, mid, post, log, load);
        },
    }
}

proof fn lemma_planned<D: Domain>(
    d: &D,
    pre: HudView,
    plan: TickPlan,
    now_ms: u64,
    post: HudView,
    fx: Seq<EffectView>,
)
    requires
        planned(d, pre, plan, now_ms, post, fx),
    ensures
        undisturbed(pre, post, fx),
{
    reveal(overview_step);
    reveal(tail_step);
    let list = list_effects(pre, plan.fetch_list);
    let (mid, last, load, tail) = choose|
        mid: HudView,
        last: HudView,
        load: Seq<EffectView>,
        tail: Seq<EffectView>,
    |
        {
            &&& #[trigger] overview_step(d, pre, plan.load_overview, mid, load)
            &&& #[trigger] tail_step(d, mid, plan.refresh_timeline, last, tail)
            &&& post == refreshed(last, plan, now_ms)
            &&& fx == list + load + tail
        };
    assert(undisturbed(pre, pre, list));
    if plan.load_overview {
        lemma_overview_asked(d, pre, true, mid, load);
    }
    lemma_undisturbed_join(pre, pre, mid, list, load);
    match selected_id(mid) {
        Some(sid) if plan.refresh_timeline => lemma_tailed(d, mid, sid, last, tail),
        _ => {},
    }
    lemma_undisturbed_join(pre, mid, last, list + load, tail);
}

proof fn lemma_tick_finished<D: Domain>(
    d: &D,
    pre: HudView,
    now_ms: u64,
    pairs: Seq<(Seq<char>, Seq<char>)>,
    post: HudView,
    fx: Seq<EffectView>,
)
    requires
        tick_finished(d, pre, now_ms, pairs, post, fx),
    ensures
        undisturbed(pre, post, fx),
{
    let (live, any_live, plan) = choose|live: bool, any_live: bool, plan: TickPlan|
        {
            &&& #[trigger] selected_live_is(d, pre, live)
            &&& #[trigger] any_live_is(d, pre, live, any_live)
            &&& #[trigger] plan_says(
                d,
                tick_input(pre, pairs, now_ms, live, any_live),
                plan,
            )
            &&& planned(d, pre, plan, now_ms, post, fx)
        };
    lemma_planned(d, pre, plan, now_ms, post, fx);
}

proof fn lemma_ticked<D: Domain>(
    d: &D,
    pre: HudView,
    m: Moment,
    notifies: Seq<(Seq<char>, Json)>,
    post: HudView,
    fx: Seq<EffectView>,
) -> (rest: Seq<EffectView>)
    requires
        ticked(d, pre, m, notifies, post, fx),
    ensures
        undisturbed(tick_begun(pre, m, notify_pairs(notifies)), post, rest),
        fx == begin_effects(pre, m, notify_pairs(notifies)) + rest,
{
    let pairs = notify_pairs(notifies);
    let begun = tick_begun(pre, m, pairs);
    let rest = choose|rest: Seq<EffectView>| #[trigger]
        tick_finished(d, begun, m.now_ms, pairs, post, rest) && fx
            == begin_effects(pre, m, pairs) + rest;
    lemma_tick_finished(d, begun, m.now_ms, pairs, post, rest);
    rest
}

/// A message that can change the window or the notes.
pub open spec fn is_weighty(message: Message) -> bool {
    match message {
        Message::SaveNote => true,
        Message::RequestDelete(_) => true,
        Message::PopOutWindow => true,
        Message::Hotkey => true,
        Message::Tick(_) => true,
        Message::RawEvent(HudEvent::CloseRequested) => true,
        Message::RawEvent(HudEvent::KeyPressed { key: HudKey::Escape, .. }) => true,
        Message::WindowId(_) => true,
        Message::Hide => true,
        Message::Tray(_) => true,
        _ => false,
    }
}

/// Typing, searching, moving in the list and answers from control leave the
/// window and a delete request as they are, and only load data and move the
/// keyboard and the view.
pub proof fn law_light_messages_leave_the_window_alone<D: Domain>(
    d: &D,
    pre: HudView,
    m: Moment,
    message: Message,
    post: HudView,
    fx: Seq<EffectView>,
)
    requires
        steps(d, pre, m, message, post, fx),
        !is_weighty(message),
    ensures
        undisturbed(pre, post, fx),
{
    match message {
        Message::SearchChanged(q) => {
            reveal(reranked);
        },
        Message::SelectSession(i) => lemma_session_chosen(d, pre, i as int, post, fx),
        Message::SetTab(tab) => lemma_tab_set(d, pre, tab, post, fx),
        Message::TimelineQuery(q) => lemma_timeline_searched(
            d,
            pre,
            q@,
            pre.timeline_kind,
            trimmed(q@).len() > 0,
            post,
            fx,
        ),
        Message::TimelineKind(k) => lemma_timeline_searched(
            d,
            pre,
            pre.timeline_query,
            k,
            k != KindFilter::All,
            post,
            fx,
        ),
        Message::JumpTimeline(index) => lemma_jumped(d, pre, index, post, fx),
        Message::LoadMoreTimeline => {
            if fx != Seq::<EffectView>::empty() {
                lemma_filled(d, pre, pre.timeline_sid, post, fx);
            }
        },
        Message::FocusSearch(attempt) => lemma_focus(pre, attempt),
        Message::RawEvent(HudEvent::KeyPressed { key, modifiers }) => lemma_keyed(
            d,
            pre,
            key,
            modifiers,
            post,
            fx,
        ),
        Message::RawEvent(HudEvent::MousePressed) => lemma_focus(pre, 0),
        Message::ListLoaded { quiet, result } => lemma_list_answered(
            d,
            pre,
            quiet,
            reply_tree(result),
            post,
            fx,
        ),
        Message::OverviewLoaded { gen, sid, quiet, result } => lemma_overview_answered(
            d,
            pre,
            gen as int,
            sid@,
            quiet,
            reply_tree(result),
            post,
            fx,
        ),
        Message::TimelineLoaded { gen, sid, offset, append, result } => lemma_page_answered(
            d,
            pre,
            gen as int,
            sid@,
            offset,
            append,
            reply_tree(result),
            post,
            fx,
        ),
        Message::ContinueTimeline { sid, gen } => {
            if gen == pre.timeline_gen {
                lemma_filled(d, pre, sid@, post, fx);
            }
        },
        Message::Inited(_) | Message::NoteSaved(_) | Message::NoteDeleted { .. } => {
            assert(fx.len() > 0 ==> fx[0] is LogError);
        },
        _ => {},
    }
}

// ---------------------------------------------------------------------------
// The process and its notes
// ---------------------------------------------------------------------------

/// The process ends only when Quit is chosen in the tray.
pub proof fn law_only_quit_ends_the_process<D: Domain>(
    d: &D,
    pre: HudView,
    m: Moment,
    message: Message,
    post: HudView,
    fx: Seq<EffectView>,
)
    requires
        steps(d, pre, m, message, post, fx),
    ensures
        fx.contains(EffectView::Exit) <==> message == Message::Tray(TrayAction::Quit),
{
    if !is_weighty(message) {
        law_light_messages_leave_the_window_alone(d, pre, m, message, post, fx);
        assert(!fx.contains(EffectView::Exit)) by {
            if fx.contains(EffectView::Exit) {
                let i = choose|i: int| 0 <= i < fx.len() && fx[i] == EffectView::Exit;
                assert(harmless(fx[i]));
            }
        }
    } else {
        if message == Message::Tray(TrayAction::Quit) {
            assert(fx[0] == EffectView::Exit);
        }
        match message {
            Message::Tick(notifies) => {
                let trees = notify_trees(notifies@);
                let rest = lemma_ticked(d, pre, m, trees, post, fx);
                let begin = begin_effects(pre, m, notify_pairs(trees));
                assert forall|i: int| 0 <= i < fx.len() implies #[trigger] fx[i]
                    != EffectView::Exit by {
                    if i >= begin.len() {
                        assert(fx[i] == rest[i - begin.len()]);
                        assert(harmless(rest[i - begin.len()]));
                    } else {
                        assert(fx[i] == begin[i]);
                    }
                }
            },
            _ => {},
        }
    }
}

/// A note is deleted only by a request for the note that an earlier request has
/// armed.
pub proof fn law_a_delete_takes_two_requests<D: Domain>(
    d: &D,
    pre: HudView,
    m: Moment,
    message: Message,
    post: HudView,
    fx: Seq<EffectView>,
    i: int,
)
    requires
        steps(d, pre, m, message, post, fx),
        0 <= i < fx.len(),
        fx[i] is DeleteNote,
    ensures
        message is RequestDelete,
        message->RequestDelete_0@ == pre.note_delete_armed,
        message->RequestDelete_0@.len() > 0,
        fx[i]->nid == message->RequestDelete_0@,
{
    if !is_weighty(message) {
        law_light_messages_leave_the_window_alone(d, pre, m, message, post, fx);
        assert(harmless(fx[i]));
    } else {
        match message {
            Message::Tick(notifies) => {
                let trees = notify_trees(notifies@);
                let rest = lemma_ticked(d, pre, m, trees, post, fx);
                let begin = begin_effects(pre, m, notify_pairs(trees));
                if i >= begin.len() {
                    assert(fx[i] == rest[i - begin.len()]);
                    assert(harmless(rest[i - begin.len()]));
                } else {
                    assert(fx[i] == begin[i]);
                }
            },
            Message::RequestDelete(nid) => {},
            _ => {},
        }
    }
}

/// Two requests in a row for one note delete it: the first one only arms the note
/// and says so, the second one sends the note of the shown session to be deleted,
/// once, and leaves nothing armed.
pub proof fn law_two_requests_delete<D: Domain>(
    d: &D,
    a: HudView,
    b: HudView,
    c: HudView,
    nid: String,
    m: Moment,
    n: Moment,
    fx: Seq<EffectView>,
    gx: Seq<EffectView>,
)
    requires
        nid@.len() > 0,
        a.note_delete_armed != nid@,
        steps(d, a, m, Message::RequestDelete(nid), b, fx),
        steps(d, b, n, Message::RequestDelete(nid), c, gx),
    ensures
        fx.len() == 0,
        b.note_delete_armed == nid@,
        b.note_delete_until is Some,
        b.status == "Press Delete again to confirm"@,
        c.note_delete_armed.len() == 0,
        c.note_delete_until is None,
        match a.overview {
            Some(o) => {
                &&& gx.len() == 1
                &&& gx[0] is DeleteNote
                &&& gx[0]->nid == nid@
                &&& gx[0]->DeleteNote_revision == o.notes.revision
            },
            None => gx.len() == 0,
        },
{
}

/// A request for another note takes the place of an armed one: nothing is
/// deleted, and the first note needs two requests again.
pub proof fn law_another_note_rearms<D: Domain>(
    d: &D,
    pre: HudView,
    post: HudView,
    nid: Seq<char>,
    now_ms: u64,
    fx: Seq<EffectView>,
)
    requires
        nid.len() > 0,
        pre.note_delete_armed != nid,
        delete_asked(d, pre, nid, now_ms, post, fx),
    ensures
        fx.len() == 0,
        post.note_delete_armed == nid,
{
}

/// A delete request that is not confirmed in time is forgotten: a request after
/// that only arms the note again.
pub proof fn law_an_old_request_is_forgotten<D: Domain>(
    d: &D,
    a: HudView,
    b: HudView,
    c: HudView,
    nid: Seq<char>,
    now_ms: u64,
    late_ms: u64,
    again_ms: u64,
    fx: Seq<EffectView>,
    gx: Seq<EffectView>,
)
    requires
        nid.len() > 0,
        a.note_delete_armed != nid,
        now_ms + DELETE_WAIT_MS <= late_ms,
        delete_asked(d, a, nid, now_ms, b, fx),
        delete_asked(d, delete_expired(b, late_ms), nid, again_ms, c, gx),
    ensures
        fx.len() == 0,
        gx.len() == 0,
        c.note_delete_armed == nid,
{
}

/// A note is sent to be saved only when that is asked for.
pub proof fn law_only_a_save_saves<D: Domain>(
    d: &D,
    pre: HudView,
    m: Moment,
    message: Message,
    post: HudView,
    fx: Seq<EffectView>,
    i: int,
)
    requires
        steps(d, pre, m, message, post, fx),
        0 <= i < fx.len(),
        fx[i] is SaveNote,
    ensures
        message is SaveNote,
        post.note_saving,
{
    if !is_weighty(message) {
        law_light_messages_leave_the_window_alone(d, pre, m, message, post, fx);
        assert(harmless(fx[i]));
    } else {
        match message {
            Message::Tick(notifies) => {
                let trees = notify_trees(notifies@);
                let rest = lemma_ticked(d, pre, m, trees, post, fx);
                let begin = begin_effects(pre, m, notify_pairs(trees));
                if i >= begin.len() {
                    assert(fx[i] == rest[i - begin.len()]);
                    assert(harmless(rest[i - begin.len()]));
                } else {
                    assert(fx[i] == begin[i]);
                }
            },
            _ => {},
        }
    }
}

// ---------------------------------------------------------------------------
// The window
// ---------------------------------------------------------------------------

/// The desktop window stays open until it is closed: nothing else hides it.
pub proof fn law_the_window_stays_open<D: Domain>(
    d: &D,
    pre: HudView,
    m: Moment,
    message: Message,
    post: HudView,
    fx: Seq<EffectView>,
)
    requires
        steps(d, pre, m, message, post, fx),
        pre.window_mode,
        pre.visible,
        !post.visible,
    ensures
        message == Message::RawEvent(HudEvent::CloseRequested),
{
    if !is_weighty(message) {
        law_light_messages_leave_the_window_alone(d, pre, m, message, post, fx);
    } else if let Message::Tick(notifies) = message {
        let rest = lemma_ticked(d, pre, m, notify_trees(notifies@), post, fx);
    }
}

/// A visible desktop window stops being one only when it is closed, or when the
/// palette is asked for in the tray or by a notification.
pub proof fn law_what_ends_the_window<D: Domain>(
    d: &D,
    pre: HudView,
    m: Moment,
    message: Message,
    post: HudView,
    fx: Seq<EffectView>,
)
    requires
        steps(d, pre, m, message, post, fx),
        pre.window_mode,
        pre.visible,
        !post.window_mode,
    ensures
        match message {
            Message::RawEvent(HudEvent::CloseRequested) => true,
            Message::Tray(TrayAction::Show) => true,
            Message::Tick(notifies) => asks_for_palette(notify_pairs(notify_trees(notifies@))),
            _ => false,
        },
{
    if !is_weighty(message) {
        law_light_messages_leave_the_window_alone(d, pre, m, message, post, fx);
    } else if let Message::Tick(notifies) = message {
        let rest = lemma_ticked(d, pre, m, notify_trees(notifies@), post, fx);
    }
}

/// The overlay goes away only by Escape, the summon key, a request to hide it or
/// a request to close it.
pub proof fn law_what_hides_the_overlay<D: Domain>(
    d: &D,
    pre: HudView,
    m: Moment,
    message: Message,
    post: HudView,
    fx: Seq<EffectView>,
)
    requires
        steps(d, pre, m, message, post, fx),
        pre.visible,
        !post.visible,
    ensures
        match message {
            Message::Hide => true,
            Message::Hotkey => true,
            Message::RawEvent(HudEvent::CloseRequested) => true,
            Message::RawEvent(HudEvent::KeyPressed { key: HudKey::Escape, .. }) => true,
            _ => false,
        },
{
    if !is_weighty(message) {
        law_light_messages_leave_the_window_alone(d, pre, m, message, post, fx);
    } else if let Message::Tick(notifies) = message {
        let rest = lemma_ticked(d, pre, m, notify_trees(notifies@), post, fx);
    }
}

/// Escape hides the overlay and changes nothing of a desktop window.
pub proof fn law_escape_hides_the_overlay_only<D: Domain>(
    d: &D,
    pre: HudView,
    m: Moment,
    modifiers: KeyMods,
    post: HudView,
    fx: Seq<EffectView>,
)
    requires
        steps(
            d,
            pre,
            m,
            Message::RawEvent(HudEvent::KeyPressed { key: HudKey::Escape, modifiers }),
            post,
            fx,
        ),
    ensures
        pre.window_mode ==> post == pre && fx.len() == 0,
        !pre.window_mode ==> !post.visible && post.window_id == pre.window_id,
{
}

/// Closing the desktop window leaves the process running, and the summon key then
/// brings the overlay in a window of its own.
pub proof fn law_a_closed_window_comes_back_as_the_overlay<D: Domain>(
    d: &D,
    a: HudView,
    b: HudView,
    c: HudView,
    m: Moment,
    n: Moment,
    fx: Seq<EffectView>,
    gx: Seq<EffectView>,
)
    requires
        a.window_mode,
        steps(d, a, m, Message::RawEvent(HudEvent::CloseRequested), b, fx),
        steps(d, b, n, Message::Hotkey, c, gx),
    ensures
        !fx.contains(EffectView::Exit),
        !b.visible,
        b.window_id is None,
        overlay_mapped(c),
        c.palette_live,
        c.window_id == Some(n.fresh_window),
        gx.contains(
            EffectView::OpenWindow {
                kind: WindowKind::Palette,
                id: n.fresh_window,
            },
        ),
{
    law_only_quit_ends_the_process(
        d,
        a,
        m,
        Message::RawEvent(HudEvent::CloseRequested),
        b,
        fx,
    );
    assert(gx == summon_effects(b, n));
    assert(gx[1] == EffectView::OpenWindow {
        kind: WindowKind::Palette,
        id: n.fresh_window,
    });
}

/// The summon key leaves a visible desktop window as it is, and brings it to the
/// front.
pub proof fn law_the_summon_key_fronts_the_window<D: Domain>(
    d: &D,
    pre: HudView,
    m: Moment,
    post: HudView,
    fx: Seq<EffectView>,
    id: u64,
)
    requires
        pre.visible,
        pre.window_mode,
        pre.window_id == Some(id),
        steps(d, pre, m, Message::Hotkey, post, fx),
    ensures
        post == pre,
        fx == seq![EffectView::GainFocus(id)],
{
}

/// The summon key toggles the overlay: pressed twice, it brings back the palette
/// that was there, in the same window; only the time of the last refresh is new.
pub proof fn law_the_summon_key_toggles<D: Domain>(
    d: &D,
    a: HudView,
    b: HudView,
    c: HudView,
    m: Moment,
    n: Moment,
    fx: Seq<EffectView>,
    gx: Seq<EffectView>,
)
    requires
        overlay_mapped(a),
        a.palette_live,
        steps(d, a, m, Message::Hotkey, b, fx),
        steps(d, b, n, Message::Hotkey, c, gx),
    ensures
        !b.visible,
        c == (HudView { last_live: n.now_ms, ..a }),
{
}

/// Show brings the overlay in every state.
pub proof fn law_show_brings_the_overlay<D: Domain>(
    d: &D,
    pre: HudView,
    m: Moment,
    post: HudView,
    fx: Seq<EffectView>,
)
    requires
        steps(d, pre, m, Message::Tray(TrayAction::Show), post, fx),
    ensures
        overlay_mapped(post),
        pre.window_id is Some ==> post.window_id == pre.window_id,
{
}

/// Show does not map, resize or load anything when the overlay is there already:
/// it only brings the keyboard.
pub proof fn law_show_on_the_overlay_only_focuses<D: Domain>(
    d: &D,
    pre: HudView,
    m: Moment,
    post: HudView,
    fx: Seq<EffectView>,
)
    requires
        overlay_mapped(pre),
        steps(d, pre, m, Message::Tray(TrayAction::Show), post, fx),
    ensures
        post == pre,
        fx == focus_effects(pre, 0),
{
}

/// The show that a notification asks for is the one of the tray.
pub proof fn law_a_notification_shows_like_the_tray<D: Domain>(
    d: &D,
    pre: HudView,
    m: Moment,
    notifies: Vec<(String, Value)>,
    post: HudView,
    fx: Seq<EffectView>,
)
    requires
        asks_for_palette(notify_pairs(notify_trees(notifies@))),
        steps(d, pre, m, Message::Tick(notifies), post, fx),
    ensures
        overlay_mapped(post),
        pre.window_id is Some ==> post.window_id == pre.window_id,
{
    let rest = lemma_ticked(d, pre, m, notify_trees(notifies@), post, fx);
}

/// That a window could not be named changes nothing.
pub proof fn law_no_window_id_changes_nothing<D: Domain>(
    d: &D,
    pre: HudView,
    m: Moment,
    post: HudView,
    fx: Seq<EffectView>,
)
    requires
        steps(d, pre, m, Message::WindowId(None), post, fx),
    ensures
        post == pre,
        fx.len() == 0,
{
}

/// Attempts to get the keyboard end: each one has a higher number, and none has a
/// number above the limit.
pub proof fn law_focus_attempts_end(focused: bool, attempt: u8)
    ensures
        retry_effects(focused, attempt).len() <= 1,
        forall|i: int|
            0 <= i < retry_effects(focused, attempt).len() ==> {
                let e = #[trigger] retry_effects(focused, attempt)[i];
                e is DelayedFocus && attempt < e->DelayedFocus_attempt <= FOCUS_ATTEMPTS
            },
        attempt >= FOCUS_ATTEMPTS ==> retry_effects(focused, attempt).len() == 0,
{
}

// ---------------------------------------------------------------------------
// Every state
// ---------------------------------------------------------------------------

/// What holds of every state that the palette can be in.
pub open spec fn sound(v: HudView) -> bool {
    &&& v.palette_live == v.visible
    &&& v.window_mode ==> v.visible
    &&& v.note_delete_armed.len() > 0 <==> v.note_delete_until is Some
    &&& within_total(v)
}

/// The palette starts as the overlay, not as a desktop window, and in a sound
/// state.
pub proof fn law_it_starts_as_the_overlay(hotkey_hint: Seq<char>, theme_name: Seq<char>, m: Moment)
    ensures
        overlay_mapped(started(hotkey_hint, theme_name, m)),
        sound(started(hotkey_hint, theme_name, m)),
        sound(boot_view(hotkey_hint, theme_name, m.now_ms)),
{
}

/// Every step leads from a sound state to a sound state: the palette is refreshed
/// just while it is visible, a desktop window is visible, a delete request has a
/// deadline, and the timeline is not asked for beyond its end.
pub proof fn law_every_state_is_sound<D: Domain>(
    d: &D,
    pre: HudView,
    m: Moment,
    message: Message,
    post: HudView,
    fx: Seq<EffectView>,
)
    requires
        sound(pre),
        steps(d, pre, m, message, post, fx),
    ensures
        sound(post),
{
    if !is_weighty(message) {
        law_light_messages_leave_the_window_alone(d, pre, m, message, post, fx);
    } else if let Message::Tick(notifies) = message {
        let trees = notify_trees(notifies@);
        let rest = lemma_ticked(d, pre, m, trees, post, fx);
        assert(sound(delete_expired(pre, m.now_ms)));
        assert(sound(tick_begun(pre, m, notify_pairs(trees))));
    }
}

/// A failure that comes up in the status line is written to the error log.
pub proof fn law_failures_are_logged<D: Domain>(
    d: &D,
    pre: HudView,
    m: Moment,
    message: Message,
    post: HudView,
    fx: Seq<EffectView>,
)
    requires
        steps(d, pre, m, message, post, fx),
        !pre.status_err,
        post.status_err,
    ensures
        exists|i: int| 0 <= i < fx.len() && (#[trigger] fx[i]) is LogError,
{
    if !is_weighty(message) {
        law_light_messages_leave_the_window_alone(d, pre, m, message, post, fx);
    } else if let Message::Tick(notifies) = message {
        let trees = notify_trees(notifies@);
        let rest = lemma_ticked(d, pre, m, trees, post, fx);
        let begin = begin_effects(pre, m, notify_pairs(trees));
        let i = choose|i: int| 0 <= i < rest.len() && (#[trigger] rest[i]) is LogError;
        assert(fx[begin.len() + i] == rest[i]);
    }
}

/// No count of requests ever goes back.
pub proof fn law_counts_never_go_back<D: Domain>(
    d: &D,
    pre: HudView,
    m: Moment,
    message: Message,
    post: HudView,
    fx: Seq<EffectView>,
)
    requires
        steps(d, pre, m, message, post, fx),
    ensures
        post.overview_gen >= pre.overview_gen,
        post.timeline_gen >= pre.timeline_gen,
{
    if !is_weighty(message) {
        law_light_messages_leave_the_window_alone(d, pre, m, message, post, fx);
    } else if let Message::Tick(notifies) = message {
        let rest = lemma_ticked(d, pre, m, notify_trees(notifies@), post, fx);
    }
}

/// An answer that is not to the newest request changes nothing and asks for
/// nothing.
pub proof fn law_stale_answers_change_nothing<D: Domain>(
    d: &D,
    pre: HudView,
    m: Moment,
    message: Message,
    post: HudView,
    fx: Seq<EffectView>,
)
    requires
        steps(d, pre, m, message, post, fx),
        match message {
            Message::OverviewLoaded { gen, .. } => gen != pre.overview_gen,
            Message::TimelineLoaded { gen, .. } => gen != pre.timeline_gen,
            Message::ContinueTimeline { gen, .. } => gen != pre.timeline_gen,
            _ => false,
        },
    ensures
        post == pre,
        fx.len() == 0,
{
}

/// Once another row is chosen, every answer for the timeline that was there is
/// stale, and nothing of the old session is shown any more.
pub proof fn law_choosing_a_row_makes_answers_stale<D: Domain>(
    d: &D,
    pre: HudView,
    m: Moment,
    i: usize,
    post: HudView,
    fx: Seq<EffectView>,
)
    requires
        i < shown(pre).len(),
        pre.active != i || pre.overview is None,
        steps(d, pre, m, Message::SelectSession(i), post, fx),
    ensures
        post.active == i,
        post.timeline_gen > pre.timeline_gen,
        post.overview is None,
        post.timeline.len() == 0,
        post.tl_filter.len() == 0,
        post.tab == Tab::Overview,
        post.note_draft == blank_draft(),
{
    let top = seq![EffectView::TimelineTop];
    let load = choose|load: Seq<EffectView>| #[trigger]
        row_selected(d, pre, i as int, post, load) && fx == top + load + focus_effects(post, 0);
    assert(row_selected(d, pre, i as int, post, load));
}

/// While a page of the timeline is under way, no further one is asked for.
pub proof fn law_one_page_at_a_time<D: Domain>(
    d: &D,
    pre: HudView,
    m: Moment,
    message: Message,
    post: HudView,
    fx: Seq<EffectView>,
)
    requires
        pre.timeline_loading,
        steps(d, pre, m, message, post, fx),
        message is LoadMoreTimeline || message is ContinueTimeline,
    ensures
        post == pre,
        fx.len() == 0,
{
}

/// A quiet overview that can be read leaves the status line as it is.
pub proof fn law_quiet_overviews_keep_the_status_line<D: Domain>(
    d: &D,
    pre: HudView,
    sid: Seq<char>,
    o: OverviewView,
    post: HudView,
    fx: Seq<EffectView>,
)
    requires
        overview_taken(d, pre, sid, true, o, post, fx),
    ensures
        post.status == pre.status,
        post.overview == Some(o),
        post.overview_sid == sid,
{
    let (mid, load) = choose|mid: HudView, load: Seq<EffectView>|
        {
            &&& #[trigger] overview_shown(d, pre, sid, true, o, mid)
            &&& #[trigger] timeline_follows(d, mid, sid, post, load)
            &&& fx == load + Seq::<EffectView>::empty()
        };
    assert(overview_shown(d, pre, sid, true, o, mid));
}

/// A quiet answer to a request for the list leaves the status line as it is.
pub proof fn law_quiet_lists_keep_the_status_line<D: Domain>(
    d: &D,
    pre: HudView,
    m: Moment,
    data: Value,
    post: HudView,
    fx: Seq<EffectView>,
)
    requires
        steps(d, pre, m, Message::ListLoaded { quiet: true, result: Ok(data) }, post, fx),
    ensures
        post.status == pre.status,
{
    lemma_list_answered(
        d,
        pre,
        true,
        reply_tree(Ok(data)),
        post,
        fx,
    );
}

// ---------------------------------------------------------------------------
// The list
// ---------------------------------------------------------------------------

/// Without a search the list is the whole catalog, and there is no second copy of
/// it.
pub proof fn law_no_search_shows_the_catalog<D: Domain>(
    d: &D,
    pre: HudView,
    m: Moment,
    q: String,
    post: HudView,
    fx: Seq<EffectView>,
)
    requires
        trimmed(q@).len() == 0,
        steps(d, pre, m, Message::SearchChanged(q), post, fx),
    ensures
        shown(post) == pre.all_sessions,
        post.sessions.len() == 0,
{
    reveal(reranked);
}

/// A place that [`place_from`] finds is the first one of the session.
proof fn lemma_place(rows: Seq<RowView>, sid: Seq<char>, from: int, at: int)
    requires
        0 <= from <= at < rows.len(),
        rows[at].session_id == sid,
    ensures
        place_from(rows, sid, from) is Some,
        from <= place_from(rows, sid, from)->0 <= at,
        rows[place_from(rows, sid, from)->0].session_id == sid,
    decreases at - from,
{
    if rows[from].session_id != sid {
        lemma_place(rows, sid, from + 1, at);
    }
}

proof fn lemma_place_in_range(rows: Seq<RowView>, sid: Seq<char>, from: int)
    requires
        0 <= from,
    ensures
        match place_from(rows, sid, from) {
            Some(i) => from <= i < rows.len() && rows[i].session_id == sid,
            None => true,
        },
    decreases rows.len() - from,
{
    if from < rows.len() && rows[from].session_id != sid {
        lemma_place_in_range(rows, sid, from + 1);
    }
}

/// When the list is ranked anew, the selection stays with its session if the list
/// still has it.
pub proof fn law_the_selection_follows_its_session<D: Domain>(
    d: &D,
    pre: HudView,
    post: HudView,
    at: int,
)
    requires
        reranked(d, pre, post),
        selected_id(pre) is Some,
        0 <= at < shown(post).len(),
        shown(post)[at].session_id == selected_id(pre)->0,
    ensures
        selected_id(post) == selected_id(pre),
{
    reveal(reranked);
    lemma_place(shown(post), selected_id(pre)->0, 0, at);
}

/// When the list is ranked anew, a row of it is selected, unless it is empty.
pub proof fn law_the_selection_is_in_the_list<D: Domain>(d: &D, pre: HudView, post: HudView)
    requires
        pre.active >= 0,
        reranked(d, pre, post),
    ensures
        shown(post).len() > 0 ==> 0 <= post.active < shown(post).len(),
        shown(post).len() == 0 ==> post.active == 0,
{
    reveal(reranked);
    lemma_place_in_range(shown(post), kept_id(pre), 0);
}

/// A place that is picked comes from the list.
proof fn lemma_picked(rows: Seq<RowView>, places: Seq<usize>, i: int) -> (j: int)
    requires
        0 <= i < picked(rows, places).len(),
    ensures
        0 <= j < rows.len(),
        picked(rows, places)[i] == rows[j],
    decreases places.len(),
{
    let rest = picked(rows, places.drop_last());
    if i < rest.len() {
        lemma_picked(rows, places.drop_last(), i)
    } else {
        places.last() as int
    }
}

/// A search shows rows of the catalog only.
pub proof fn law_a_search_shows_catalog_rows<D: Domain>(
    d: &D,
    pre: HudView,
    m: Moment,
    q: String,
    post: HudView,
    fx: Seq<EffectView>,
    i: int,
) -> (j: int)
    requires
        steps(d, pre, m, Message::SearchChanged(q), post, fx),
        0 <= i < shown(post).len(),
    ensures
        0 <= j < pre.all_sessions.len(),
        shown(post)[i] == pre.all_sessions[j],
{
    reveal(reranked);
    if trimmed(q@).len() == 0 {
        i
    } else {
        let rows = pre.all_sessions;
        let set = HudView { query: q@, ..pre };
        let places = choose|places: Seq<usize>| #[trigger]
            rank_says(d, trimmed(q@), rows, places) && ranked_by(set, places, post);
        let from = choose|from: Seq<int>| #[trigger]
            rearranged(picked(rows, places), post.sessions, from) && in_order(
                post.sessions,
                from,
            );
        assert(0 <= from[i] < picked(rows, places).len());
        lemma_picked(rows, places, from[i])
    }
}

/// The order of the list is fixed: there is one way to sort rows.
pub proof fn law_there_is_one_order(rows: Seq<RowView>, a: Seq<RowView>, b: Seq<RowView>)
    requires
        sorts(rows, a),
        sorts(rows, b),
    ensures
        a == b,
{
    let p = choose|p: Seq<int>| #[trigger] rearranged(rows, a, p) && in_order(a, p);
    let q = choose|q: Seq<int>| #[trigger] rearranged(rows, b, q) && in_order(b, q);
    lemma_same_arrangement(rows, a, b, p, q, 0);
    assert(a =~= b);
}

/// Every place occurs in an arrangement.
pub proof fn lemma_arrangement_covers(p: Seq<int>, n: int, x: int) -> (k: int)
    requires
        p.len() == n,
        forall|i: int| 0 <= i < n ==> 0 <= #[trigger] p[i] < n,
        forall|i: int, j: int| 0 <= i < j < n ==> #[trigger] p[i] != #[trigger] p[j],
        0 <= x < n,
    ensures
        0 <= k < n,
        p[k] == x,
{
    let range = set_int_range(0, n);
    lemma_int_range(0, n);
    assert(p.no_duplicates());
    p.unique_seq_to_set();
    assert(p.to_set().subset_of(range)) by {
        assert forall|y: int| p.to_set().contains(y) implies range.contains(y) by {
            let i = choose|i: int| 0 <= i < p.len() && p[i] == y;
            assert(0 <= p[i] < n);
        }
    }
    lemma_subset_equality(p.to_set(), range);
    assert(p.to_set().contains(x));
    p.index_of(x)
}

/// Two arrangements in order are the same from place `k` on, if they are the same
/// before it.
proof fn lemma_same_arrangement(
    rows: Seq<RowView>,
    a: Seq<RowView>,
    b: Seq<RowView>,
    p: Seq<int>,
    q: Seq<int>,
    k: int,
)
    requires
        rearranged(rows, a, p),
        rearranged(rows, b, q),
        in_order(a, p),
        in_order(b, q),
        0 <= k <= rows.len(),
        forall|i: int| 0 <= i < k ==> #[trigger] p[i] == q[i],
    ensures
        p == q,
    decreases rows.len() - k,
{
    let n = rows.len() as int;
    if k < n {
        if p[k] != q[k] {
            let i = lemma_arrangement_covers(p, n, q[k]);
            let j = lemma_arrangement_covers(q, n, p[k]);
            assert(i > k) by {
                if i < k {
                    assert(p[i] == q[i]);
                    assert(q[i] != q[k]);
                }
            }
            assert(j > k) by {
                if j < k {
                    assert(p[j] == q[j]);
                    assert(p[j] != p[k]);
                }
            }
            assert(a[k] == rows[p[k]] && a[i] == rows[p[i]]);
            assert(b[k] == rows[q[k]] && b[j] == rows[q[j]]);
            lemma_ahead(a[k], a[i], a[i]);
        }
        lemma_same_arrangement(rows, a, b, p, q, k + 1);
    } else {
        assert(p =~= q);
    }
}

// ---------------------------------------------------------------------------
// Keys
// ---------------------------------------------------------------------------

/// Down and up undo each other, and come round at the ends of the list.
pub proof fn law_up_undoes_down(active: int, n: int)
    requires
        0 <= active < n,
    ensures
        row_above(row_below(active, n), n) == active,
        row_below(row_above(active, n), n) == active,
        0 <= row_below(active, n) < n,
        0 <= row_above(active, n) < n,
        row_below(n - 1, n) == 0,
        row_above(0, n) == n - 1,
{
    lemma_rows_beside(active, n);
    lemma_rows_beside(n - 1, n);
    lemma_rows_beside(0, n);
    lemma_rows_beside(row_below(active, n), n);
    lemma_rows_beside(row_above(active, n), n);
}

/// The rows beside a row, without a remainder.
pub proof fn lemma_rows_beside(active: int, n: int)
    requires
        0 <= active < n,
    ensures
        row_below(active, n) == if active + 1 < n {
            active + 1
        } else {
            0
        },
        row_above(active, n) == if active > 0 {
            active - 1
        } else {
            n - 1
        },
{
    if active + 1 < n {
        lemma_small_mod((active + 1) as nat, n as nat);
    } else {
        lemma_mod_self_0(n);
    }
    if active > 0 {
        lemma_mod_add_multiples_vanish(active - 1, n);
        lemma_small_mod((active - 1) as nat, n as nat);
    } else {
        lemma_small_mod((n - 1) as nat, n as nat);
    }
}

/// An arrow key, pressed while no note is typed, selects the row beside the selected
/// one and leaves the list as it is.
proof fn lemma_arrow<D: Domain>(
    d: &D,
    pre: HudView,
    key: HudKey,
    mods: KeyMods,
    post: HudView,
    fx: Seq<EffectView>,
)
    requires
        !pre.typing_notes,
        0 <= pre.active < shown(pre).len(),
        key is ArrowDown || key is ArrowUp,
        keyed(d, pre, key, mods, post, fx),
    ensures
        post.active == if key is ArrowDown {
            row_below(pre.active, shown(pre).len() as int)
        } else {
            row_above(pre.active, shown(pre).len() as int)
        },
        shown(post) == shown(pre),
        !post.typing_notes,
{
    let n = shown(pre).len() as int;
    let active = if key is ArrowDown {
        row_below(pre.active, n)
    } else {
        row_above(pre.active, n)
    };
    assert(moved(d, pre, active, post, fx));
    let load = choose|load: Seq<EffectView>| #[trigger]
        row_selected(d, pre, active, post, load) && fx == seq![
            EffectView::TimelineTop,
            EffectView::RevealRow(active),
        ] + load;
    assert(row_selected(d, pre, active, post, load));
}

/// The two arrow keys undo each other: each moves the selection by one row, round
/// the ends of the list, and the other one moves it back.
pub proof fn law_the_arrow_keys_undo_each_other<D: Domain>(
    d: &D,
    a: HudView,
    b: HudView,
    c: HudView,
    m: Moment,
    n: Moment,
    first: HudKey,
    second: HudKey,
    mods: KeyMods,
    fx: Seq<EffectView>,
    gx: Seq<EffectView>,
)
    requires
        !a.typing_notes,
        0 <= a.active < shown(a).len(),
        first is ArrowDown && second is ArrowUp || first is ArrowUp && second is ArrowDown,
        steps(
            d,
            a,
            m,
            Message::RawEvent(HudEvent::KeyPressed { key: first, modifiers: mods }),
            b,
            fx,
        ),
        steps(
            d,
            b,
            n,
            Message::RawEvent(HudEvent::KeyPressed { key: second, modifiers: mods }),
            c,
            gx,
        ),
    ensures
        first is ArrowDown ==> b.active == (a.active + 1) % shown(a).len() as int,
        first is ArrowUp ==> b.active == (a.active + shown(a).len() - 1) % shown(a).len() as int,
        c.active == a.active,
        shown(c) == shown(a),
{
    law_up_undoes_down(a.active, shown(a).len() as int);
    lemma_arrow(d, a, first, mods, b, fx);
    lemma_arrow(d, b, second, mods, c, gx);
}

/// The next tab and the one before undo each other, and five steps go round the
/// bar.
pub proof fn law_tabs_are_a_circle(tab: Tab)
    ensures
        tab_beside(tab_beside(tab, false), true) == tab,
        tab_beside(tab_beside(tab, true), false) == tab,
        tab_beside(
            tab_beside(tab_beside(tab_beside(tab_beside(tab, false), false), false), false),
            false,
        ) == tab,
{
    assert(tab_beside(Tab::Overview, false) == Tab::Turns);
    assert(tab_beside(Tab::Turns, false) == Tab::Timeline);
    assert(tab_beside(Tab::Timeline, false) == Tab::Findings);
    assert(tab_beside(Tab::Findings, false) == Tab::Notes);
    assert(tab_beside(Tab::Notes, false) == Tab::Overview);
}

} // verus!
