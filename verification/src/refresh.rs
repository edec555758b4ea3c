//! The periodic refresh: when it comes, and what it fetches.

use std::collections::VecDeque;

use vstd::prelude::*;
use serde_json::Value;

use crate::domain::{ask_plan, plan_says, Domain};
use crate::event::{both, effects_of, nothing, only, Effect, EffectView, Moment};
use crate::hud::{any_live_is, selected_id, selected_live_is, Hud, HudView};
use crate::json;
use crate::json::{json_of, member, text_in, Json};
use crate::model::{pairs_of, Tab, TickInput, TickPlan, TickView};
use crate::notes::delete_expired;
use crate::overview::overview_asked;
use crate::timeline::tailed;
use crate::tray::{action_from_notify, notify_action, TrayAction};
use crate::window::{summon_effects, summoned};

verus! {

/// How many notifications wait at most.
pub const NOTIFY_LIMIT: usize = 64;

/// How often a delete request is looked at.
pub const DELETE_POLL_MS: u64 = 250;

// ---------------------------------------------------------------------------
// Notifications
// ---------------------------------------------------------------------------

/// A notification over mathematical values: its method and its parameters.
pub open spec fn notify_tree(n: (String, Value)) -> (Seq<char>, Json) {
    (n.0@, json_of(n.1))
}

/// Notifications over mathematical values.
pub open spec fn notify_trees(ns: Seq<(String, Value)>) -> Seq<(Seq<char>, Json)> {
    ns.map_values(|n: (String, Value)| notify_tree(n))
}

/// The last [`NOTIFY_LIMIT`] of some notifications.
pub open spec fn latest(ns: Seq<(Seq<char>, Json)>) -> Seq<(Seq<char>, Json)> {
    if ns.len() <= NOTIFY_LIMIT {
        ns
    } else {
        ns.skip(ns.len() - NOTIFY_LIMIT)
    }
}

/// The notifications that wait for the next refresh.
pub struct NotifyQueue {
    waiting: VecDeque<(String, Value)>,
}

impl View for NotifyQueue {
    type V = Seq<(Seq<char>, Json)>;

    closed spec fn view(&self) -> Seq<(Seq<char>, Json)> {
        notify_trees(self.waiting@)
    }
}

impl NotifyQueue {
    /// No more notifications wait than the limit.
    pub open spec fn fits(&self) -> bool {
        self@.len() <= NOTIFY_LIMIT
    }

    /// A queue in which nothing waits.
    pub fn new() -> (r: NotifyQueue)
        ensures
            r@ == Seq::<(Seq<char>, Json)>::empty(),
            r.fits(),
    {
        let r = NotifyQueue { waiting: VecDeque::new() };
        assert(r@ =~= Seq::<(Seq<char>, Json)>::empty());
        r
    }

    /// Adds a notification; the oldest one gives way when too many wait.
    pub fn push(&mut self, method: String, params: Value)
        requires
            old(self).fits(),
        ensures
            final(self)@ == latest(old(self)@.push((method@, json_of(params)))),
            final(self).fits(),
    {
        let ghost all = old(self)@.push((method@, json_of(params)));
        self.waiting.push_back((method, params));
        assert(self@ =~= all);
        if self.waiting.len() > NOTIFY_LIMIT {
            let _ = self.waiting.pop_front();
            assert(self@ =~= all.skip(1));
        }
    }

    /// Takes all notifications out, the oldest first.
    pub fn drain(&mut self) -> (r: Vec<(String, Value)>)
        ensures
            notify_trees(r@) == old(self)@,
            final(self)@ == Seq::<(Seq<char>, Json)>::empty(),
            final(self).fits(),
    {
        let mut out: Vec<(String, Value)> = Vec::new();
        let ghost all = self.waiting@;
        assert(all.take(0) =~= out@);
        while self.waiting.len() > 0
            invariant
                out@ + self.waiting@ == all,
            decreases self.waiting@.len(),
        {
            let ghost before = self.waiting@;
            if let Some(n) = self.waiting.pop_front() {
                let ghost done = out@;
                out.push(n);
                assert(out@ + self.waiting@ =~= done + before);
            }
        }
        assert(out@ =~= all);
        assert(self@ =~= Seq::<(Seq<char>, Json)>::empty());
        out
    }
}

/// The session that a notification is about; empty when it names none.
pub open spec fn notify_session(params: Json) -> Seq<char> {
    match member(params, "sessionId"@) {
        Some(v) => match text_in(v) {
            Some(s) => s,
            None => seq![],
        },
        None => seq![],
    }
}

/// The methods of some notifications, each with its session.
pub open spec fn notify_pairs(ns: Seq<(Seq<char>, Json)>) -> Seq<(Seq<char>, Seq<char>)> {
    ns.map_values(|n: (Seq<char>, Json)| (n.0, notify_session(n.1)))
}

/// The session that a notification is about.
fn session_of(params: &Value) -> (r: String)
    ensures
        r@ == notify_session(json_of(*params)),
{
    if let Some(v) = json::get(params, "sessionId") {
        if let Some(s) = json::as_text(v) {
            return s.to_string();
        }
    }
    let none: String = String::new();
    assert(none@ =~= seq![]);
    none
}

/// The methods of some notifications, each with its session.
pub fn pairs(ns: &Vec<(String, Value)>) -> (r: Vec<(String, String)>)
    ensures
        pairs_of(r@) == notify_pairs(notify_trees(ns@)),
{
    let n: usize = ns.len();
    let mut out: Vec<(String, String)> = Vec::new();
    let mut i: usize = 0;
    while i < n
        invariant
            n == ns@.len(),
            i <= n,
            out@.len() == i,
            forall|k: int|
                0 <= k < i ==> (#[trigger] out@[k]).0@ == ns@[k].0@ && out@[k].1@ == notify_session(
                    json_of(ns@[k].1),
                ),
        decreases n - i,
    {
        out.push((ns[i].0.clone(), session_of(&ns[i].1)));
        i = i + 1;
    }
    assert(pairs_of(out@) =~= notify_pairs(notify_trees(ns@)));
    out
}

/// One of the notifications asks for the palette.
pub open spec fn asks_for_palette(pairs: Seq<(Seq<char>, Seq<char>)>) -> bool {
    exists|i: int|
        0 <= i < pairs.len() && notify_action((#[trigger] pairs[i]).0) == Some(TrayAction::Show)
}

/// Whether one of the notifications asks for the palette.
pub fn wants_palette(pairs: &Vec<(String, String)>) -> (r: bool)
    ensures
        r == asks_for_palette(pairs_of(pairs@)),
{
    let ghost all = pairs_of(pairs@);
    let n: usize = pairs.len();
    let mut i: usize = 0;
    while i < n
        invariant
            n == pairs@.len(),
            i <= n,
            all == pairs_of(pairs@),
            forall|k: int|
                0 <= k < i ==> notify_action((#[trigger] all[k]).0) != Some(TrayAction::Show),
        decreases n - i,
    {
        assert(all[i as int].0 == pairs@[i as int].0@);
        if let Some(TrayAction::Show) = action_from_notify(pairs[i].0.as_str()) {
            return true;
        }
        i = i + 1;
    }
    false
}

// ---------------------------------------------------------------------------
// Carrying out a plan
// ---------------------------------------------------------------------------

/// The list is asked for, if the plan says so.
pub open spec fn list_effects(v: HudView, fetch: bool) -> Seq<EffectView> {
    if fetch {
        seq![EffectView::FetchList { quiet: true, since: v.catalog_revision }]
    } else {
        Seq::empty()
    }
}

/// The overview is asked for, if the plan says so.
#[verifier::opaque]
pub open spec fn overview_step<D: Domain>(
    d: &D,
    pre: HudView,
    load: bool,
    post: HudView,
    fx: Seq<EffectView>,
) -> bool {
    if load {
        overview_asked(d, pre, true, post, fx)
    } else {
        post == pre && fx == Seq::<EffectView>::empty()
    }
}

/// The end of the timeline is asked for, if the plan says so and a session is
/// selected.
#[verifier::opaque]
pub open spec fn tail_step<D: Domain>(
    d: &D,
    pre: HudView,
    refresh: bool,
    post: HudView,
    fx: Seq<EffectView>,
) -> bool {
    match selected_id(pre) {
        Some(sid) if refresh => tailed(d, pre, sid, post, fx),
        _ => post == pre && fx == Seq::<EffectView>::empty(),
    }
}

/// The palette after a plan was carried out: anything that was fetched counts as a
/// refresh at `now_ms`.
pub open spec fn refreshed(v: HudView, plan: TickPlan, now_ms: u64) -> HudView {
    if plan.fetch_list || plan.load_overview || plan.refresh_timeline {
        HudView { last_live: now_ms, ..v }
    } else {
        v
    }
}

/// A plan is carried out: the list, then the overview, then the end of the
/// timeline.
pub open spec fn planned<D: Domain>(
    d: &D,
    pre: HudView,
    plan: TickPlan,
    now_ms: u64,
    post: HudView,
    fx: Seq<EffectView>,
) -> bool {
    exists|mid: HudView, last: HudView, load: Seq<EffectView>, tail: Seq<EffectView>|
        {
            &&& #[trigger] overview_step(d, pre, plan.load_overview, mid, load)
            &&& #[trigger] tail_step(d, mid, plan.refresh_timeline, last, tail)
            &&& post == refreshed(last, plan, now_ms)
            &&& fx == list_effects(pre, plan.fetch_list) + load + tail
        }
}

/// What the plan of a refresh goes by.
pub open spec fn tick_input(
    v: HudView,
    notifies: Seq<(Seq<char>, Seq<char>)>,
    now_ms: u64,
    live: bool,
    any_live: bool,
) -> TickView {
    TickView {
        notifies,
        selected_sid: match selected_id(v) {
            Some(s) => s,
            None => seq![],
        },
        overview_sid: v.overview_sid,
        palette_live: v.palette_live && v.visible,
        list_elapsed_ms: if now_ms >= v.last_live {
            (now_ms - v.last_live) as u64
        } else {
            0
        },
        selected_live: live,
        any_live,
        on_timeline: v.tab == Tab::Timeline,
        notes_locked: v.note_compose_lock,
    }
}

/// The palette as a refresh finds it: a delete request that is too old is
/// forgotten, and a notification can have brought the overlay.
pub open spec fn tick_begun(v: HudView, m: Moment, pairs: Seq<(Seq<char>, Seq<char>)>) -> HudView {
    let w = delete_expired(v, m.now_ms);
    if asks_for_palette(pairs) {
        summoned(w, m)
    } else {
        w
    }
}

/// The effects that a refresh begins with.
pub open spec fn begin_effects(
    v: HudView,
    m: Moment,
    pairs: Seq<(Seq<char>, Seq<char>)>,
) -> Seq<EffectView> {
    seq![EffectView::SyncTheme] + if asks_for_palette(pairs) {
        summon_effects(delete_expired(v, m.now_ms), m)
    } else {
        Seq::empty()
    }
}

/// The rest of a refresh: it plans what to fetch, and fetches it.
pub open spec fn tick_finished<D: Domain>(
    d: &D,
    pre: HudView,
    now_ms: u64,
    pairs: Seq<(Seq<char>, Seq<char>)>,
    post: HudView,
    fx: Seq<EffectView>,
) -> bool {
    exists|live: bool, any_live: bool, plan: TickPlan|
        {
            &&& #[trigger] selected_live_is(d, pre, live)
            &&& #[trigger] any_live_is(d, pre, live, any_live)
            &&& #[trigger] plan_says(d, tick_input(pre, pairs, now_ms, live, any_live), plan)
            &&& planned(d, pre, plan, now_ms, post, fx)
        }
}

/// A refresh at a moment, with the notifications that came since the last one.
pub open spec fn ticked<D: Domain>(
    d: &D,
    pre: HudView,
    m: Moment,
    notifies: Seq<(Seq<char>, Json)>,
    post: HudView,
    fx: Seq<EffectView>,
) -> bool {
    let pairs = notify_pairs(notifies);
    exists|rest: Seq<EffectView>| #[trigger]
        tick_finished(d, tick_begun(pre, m, pairs), m.now_ms, pairs, post, rest) && fx
            == begin_effects(pre, m, pairs) + rest
}

impl Hud {
    /// Asks for the overview, if the plan says so.
    fn plan_overview<D: Domain>(&mut self, d: &D, load: bool) -> (fx: Vec<Effect>)
        requires
            old(self).has_room(),
        ensures
            overview_step(d, old(self)@, load, final(self)@, effects_of(fx@)),
            final(self).timeline_gen == old(self).timeline_gen,
    {
        reveal(overview_step);
        if load {
            self.load_overview(d, true)
        } else {
            nothing()
        }
    }

    /// Asks for the end of the timeline, if the plan says so.
    fn plan_tail<D: Domain>(&mut self, d: &D, refresh: bool) -> (fx: Vec<Effect>)
        requires
            old(self).timeline_gen < u64::MAX,
        ensures
            tail_step(d, old(self)@, refresh, final(self)@, effects_of(fx@)),
    {
        reveal(tail_step);
        if refresh {
            match self.selected_sid() {
                Some(sid) => self.refresh_timeline_tail(d, sid),
                None => nothing(),
            }
        } else {
            nothing()
        }
    }

    /// Takes note of a refresh.
    fn count_refresh(&mut self, plan: TickPlan, now_ms: u64)
        ensures
            final(self)@ == refreshed(old(self)@, plan, now_ms),
    {
        if plan.fetch_list || plan.load_overview || plan.refresh_timeline {
            self.last_live = now_ms;
        }
    }

    /// Carries out a plan.
    pub fn run_plan<D: Domain>(&mut self, d: &D, plan: TickPlan, now_ms: u64) -> (fx: Vec<Effect>)
        requires
            old(self).has_room(),
        ensures
            planned(d, old(self)@, plan, now_ms, final(self)@, effects_of(fx@)),
    {
        let ghost pre = self@;
        let list: Vec<Effect> = if plan.fetch_list {
            only(Effect::FetchList { quiet: true, since: self.catalog_revision })
        } else {
            nothing()
        };
        let load: Vec<Effect> = self.plan_overview(d, plan.load_overview);
        let ghost mid = self@;
        let tail: Vec<Effect> = self.plan_tail(d, plan.refresh_timeline);
        assert(overview_step(d, pre, plan.load_overview, mid, effects_of(load@)));
        assert(tail_step(d, mid, plan.refresh_timeline, self@, effects_of(tail@)));
        self.count_refresh(plan, now_ms);
        both(both(list, load), tail)
    }

    /// Plans what to fetch, and fetches it.
    fn finish_tick<D: Domain>(
        &mut self,
        d: &D,
        now_ms: u64,
        notifies: Vec<(String, String)>,
    ) -> (fx: Vec<Effect>)
        requires
            old(self).has_room(),
        ensures
            tick_finished(
                d,
                old(self)@,
                now_ms,
                pairs_of(notifies@),
                final(self)@,
                effects_of(fx@),
            ),
    {
        let ghost pre = self@;
        let selected_sid: String = match self.selected_sid() {
            Some(s) => s,
            None => {
                let none: String = String::new();
                assert(none@ =~= seq![]);
                none
            },
        };
        let live: bool = self.selected_live(d);
        let any_live: bool = self.any_live(d, live);
        assert(selected_live_is(d, pre, live));
        assert(any_live_is(d, pre, live, any_live));
        let input = TickInput {
            notifies,
            selected_sid,
            overview_sid: self.overview_sid.clone(),
            palette_live: self.palette_live && self.visible,
            list_elapsed_ms: now_ms.saturating_sub(self.last_live),
            selected_live: live,
            any_live,
            on_timeline: self.tab == Tab::Timeline,
            notes_locked: self.note_compose_lock,
        };
        let plan: TickPlan = ask_plan(d, &input);
        assert(input@ == tick_input(pre, pairs_of(notifies@), now_ms, live, any_live));
        assert(plan_says(d, tick_input(pre, pairs_of(notifies@), now_ms, live, any_live), plan));
        self.run_plan(d, plan, now_ms)
    }

    /// Refreshes the palette.
    pub fn on_tick<D: Domain>(&mut self, d: &D, m: Moment, notifies: Vec<(String, Value)>) -> (fx:
        Vec<Effect>)
        requires
            old(self).has_room(),
        ensures
            ticked(d, old(self)@, m, notify_trees(notifies@), final(self)@, effects_of(fx@)),
    {
        let ghost pre = self@;
        self.expire_delete(m.now_ms);
        let pairs: Vec<(String, String)> = pairs(&notifies);
        let begin: Vec<Effect> = if wants_palette(&pairs) {
            both(only(Effect::SyncTheme), self.show_palette(m))
        } else {
            both(only(Effect::SyncTheme), nothing())
        };
        assert(self@ == tick_begun(pre, m, pairs_of(pairs@)));
        assert(self.has_room());
        let rest: Vec<Effect> = self.finish_tick(d, m.now_ms, pairs);
        both(begin, rest)
    }
}

// ---------------------------------------------------------------------------
// Timers
// ---------------------------------------------------------------------------

/// How often the visible palette is refreshed.
#[derive(Debug, Clone, Copy, PartialEq, Eq, Structural)]
pub enum PollRate {
    /// While a session is live.
    Live,
    /// While none is.
    Idle,
}

/// The timers that run.
#[derive(Debug, Clone, Copy, PartialEq, Eq, Structural)]
pub struct Timers {
    /// The refresh of the visible palette.
    pub refresh: Option<PollRate>,
    /// The watch over a delete request, in milliseconds.
    pub delete_ms: Option<u64>,
}

/// `out` says how often the palette is refreshed: not at all while it is hidden,
/// else by whether any session is live.
pub open spec fn rate_is<D: Domain>(d: &D, v: HudView, out: Option<PollRate>) -> bool {
    if v.visible {
        exists|live: bool, any_live: bool| #[trigger]
            selected_live_is(d, v, live) && #[trigger] any_live_is(d, v, live, any_live) && out
                == Some(
                if any_live {
                    PollRate::Live
                } else {
                    PollRate::Idle
                },
            )
    } else {
        out is None
    }
}

impl Hud {
    /// The timers that run in this state.
    pub fn timers<D: Domain>(&self, d: &D) -> (r: Timers)
        ensures
            rate_is(d, self@, r.refresh),
            r.delete_ms == if self@.note_delete_until is Some {
                Some(DELETE_POLL_MS)
            } else {
                None
            },
    {
        let refresh: Option<PollRate> = if self.visible {
            let live: bool = self.selected_live(d);
            let any_live: bool = self.any_live(d, live);
            assert(selected_live_is(d, self@, live));
            assert(any_live_is(d, self@, live, any_live));
            if any_live {
                Some(PollRate::Live)
            } else {
                Some(PollRate::Idle)
            }
        } else {
            None
        };
        let delete_ms: Option<u64> = if self.note_delete_until.is_some() {
            Some(DELETE_POLL_MS)
        } else {
            None
        };
        Timers { refresh, delete_ms }
    }
}

} // verus!
