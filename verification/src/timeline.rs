//! The timeline: which rows are shown, and how they are loaded.

use vstd::prelude::*;

use crate::domain::{
    ask_continue, ask_filter, ask_missing, ask_seek, ask_timeline_merge, continue_says,
    filter_says, missing_says, seek_says, timeline_merge_says, Domain,
};
use crate::event::{and, effects_of, nothing, only, Effect, EffectView, PageSize};
use crate::hud::{complete_is, overview_ref_is, selected_id, Hud, HudView};
use crate::model::{events_of, EventView, MergedTimeline, Tab, TimelineEvent, TimelinePage};
use crate::text;

verus! {

/// How many rows the first request for a timeline asks for.
pub const FIRST_PAGE: u32 = 120;

/// How many rows before the marked one are loaded with it.
pub const SEEK_BEFORE: u32 = 20;

/// How many loaded rows a look at the end of the timeline goes back.
pub const TAIL_OVERLAP: u32 = 4;

/// The pause before the next page of a timeline is asked for.
pub const CONTINUE_WAIT_MS: u64 = 50;

/// The shown rows are found anew: none while the timeline is of another session
/// than the overview.
pub open spec fn refiltered<D: Domain>(d: &D, pre: HudView, post: HudView) -> bool {
    &&& post == HudView { tl_filter: post.tl_filter, ..pre }
    &&& if pre.timeline_sid != pre.overview_sid {
        post.tl_filter == Seq::<usize>::empty()
    } else {
        filter_says(d, pre.timeline, pre.timeline_kind, pre.timeline_query, post.tl_filter)
    }
}

/// `seed` is where loading starts: near the marked row, else at the beginning.
pub open spec fn seed_is<D: Domain>(d: &D, focus: Option<i64>, seed: u32) -> bool {
    match focus {
        Some(i) => seek_says(d, i, SEEK_BEFORE, seed),
        None => seed == 0,
    }
}

/// The timeline as a new load begins; what was loaded goes away when `clear`.
pub open spec fn load_begun(v: HudView, clear: bool) -> HudView {
    let w = HudView { timeline_gen: v.timeline_gen + 1, timeline_loading: true, ..v };
    if clear {
        HudView {
            timeline: seq![],
            timeline_total: 0,
            timeline_next: 0,
            tl_filter: seq![],
            ..w
        }
    } else {
        w
    }
}

/// The timeline of session `sid` is loaded from its first page on, unless it is
/// there already; `force` loads it anew.
pub open spec fn ensured<D: Domain>(
    d: &D,
    pre: HudView,
    sid: Seq<char>,
    force: bool,
    post: HudView,
    fx: Seq<EffectView>,
) -> bool {
    if !force && pre.timeline_sid == sid && pre.timeline.len() > 0 && !pre.timeline_loading {
        post == pre && fx == Seq::<EffectView>::empty()
    } else {
        let clear = force || pre.timeline_sid != sid;
        &&& post == load_begun(pre, clear)
        &&& exists|seed: u32, rpc_ref: Seq<char>| #[trigger]
            seed_is(d, pre.timeline_focus, seed) && #[trigger] overview_ref_is(d, post, rpc_ref)
                && fx == first_page(clear, rpc_ref, sid, seed, post.timeline_gen)
    }
}

/// The effects that ask for the first page of a timeline.
pub open spec fn first_page(
    clear: bool,
    rpc_ref: Seq<char>,
    sid: Seq<char>,
    seed: u32,
    gen: int,
) -> Seq<EffectView> {
    let ask = EffectView::FetchTimeline {
        rpc_ref,
        sid,
        offset: seed,
        append: false,
        gen,
        limit: PageSize::Rows(FIRST_PAGE),
    };
    if clear {
        seq![EffectView::TimelineTop, ask]
    } else {
        seq![ask]
    }
}

/// The next missing rows of the timeline are asked for, unless it is complete or
/// a request is under way.
pub open spec fn filled<D: Domain>(
    d: &D,
    pre: HudView,
    sid: Seq<char>,
    post: HudView,
    fx: Seq<EffectView>,
) -> bool {
    ||| {
        &&& pre.timeline_loading || complete_is(d, pre, true)
        &&& post == pre
        &&& fx == Seq::<EffectView>::empty()
    }
    ||| {
        &&& !pre.timeline_loading
        &&& complete_is(d, pre, false)
        &&& post == HudView { timeline_loading: true, ..pre }
        &&& exists|offset: u32, rpc_ref: Seq<char>| #[trigger]
            missing_says(d, pre.timeline, pre.timeline_total, offset) && #[trigger] overview_ref_is(
                d,
                post,
                rpc_ref,
            ) && fx == seq![
                EffectView::FetchTimeline {
                    rpc_ref,
                    sid,
                    offset,
                    append: true,
                    gen: pre.timeline_gen,
                    limit: PageSize::Chunk,
                },
            ]
    }
}

/// More of the timeline is asked for: only of the selected session's, while it is
/// looked at.
pub open spec fn more_asked<D: Domain>(
    d: &D,
    pre: HudView,
    post: HudView,
    fx: Seq<EffectView>,
) -> bool {
    if pre.tab == Tab::Timeline && !pre.timeline_loading && selected_id(pre) == Some(
        pre.timeline_sid,
    ) {
        ||| complete_is(d, pre, true) && post == pre && fx == Seq::<EffectView>::empty()
        ||| complete_is(d, pre, false) && filled(d, pre, pre.timeline_sid, post, fx)
    } else {
        post == pre && fx == Seq::<EffectView>::empty()
    }
}

/// The end of the timeline is asked for again.
pub open spec fn tailed<D: Domain>(
    d: &D,
    pre: HudView,
    sid: Seq<char>,
    post: HudView,
    fx: Seq<EffectView>,
) -> bool {
    if pre.timeline_loading {
        post == pre && fx == Seq::<EffectView>::empty()
    } else if pre.timeline_sid.len() == 0 {
        ensured(d, pre, sid, false, post, fx)
    } else if pre.timeline_sid != sid {
        post == pre && fx == Seq::<EffectView>::empty()
    } else {
        &&& post == pre
        &&& exists|rpc_ref: Seq<char>| #[trigger]
            overview_ref_is(d, pre, rpc_ref) && fx == seq![
                EffectView::FetchTimeline {
                    rpc_ref,
                    sid,
                    offset: tail_offset(pre.timeline_next),
                    append: true,
                    gen: pre.timeline_gen,
                    limit: PageSize::LiveTail,
                },
            ]
    }
}

/// Where a look at the end of the timeline starts.
pub open spec fn tail_offset(next: u32) -> u32 {
    if next >= TAIL_OVERLAP {
        (next - TAIL_OVERLAP) as u32
    } else {
        0
    }
}

/// The row after a page of `n` rows from `offset` on, in 32 bits.
pub open spec fn page_end(offset: u32, n: nat) -> int {
    let end = offset + n % 0x1_0000_0000;
    if end <= u32::MAX {
        end
    } else {
        u32::MAX as int
    }
}

/// The row after the last one asked for, once a page has come.
pub open spec fn next_row(next: u32, end: int, total: u32) -> int {
    let reached = if end > next {
        end
    } else {
        next as int
    };
    if total > 0 && reached > total {
        total as int
    } else {
        reached
    }
}

/// The timeline `rows` after a page came, and how many rows count as added: the
/// page is merged into the timeline it belongs to, else it takes its place.
pub open spec fn page_merged<D: Domain>(
    d: &D,
    pre: HudView,
    sid: Seq<char>,
    append: bool,
    events: Seq<EventView>,
    rows: Seq<EventView>,
    added: usize,
) -> bool {
    if append && pre.timeline_sid == sid && pre.timeline.len() > 0 {
        timeline_merge_says(d, pre.timeline, events, rows, added)
    } else {
        rows == events && added == events.len()
    }
}

/// A page of the timeline of session `sid` came.
pub open spec fn page_taken<D: Domain>(
    d: &D,
    pre: HudView,
    sid: Seq<char>,
    offset: u32,
    append: bool,
    events: Seq<EventView>,
    total: u32,
    post: HudView,
    fx: Seq<EffectView>,
) -> bool {
    let all = if total > 0 {
        total
    } else {
        pre.timeline_total
    };
    let looked_at = post.tab == Tab::Timeline;
    &&& refiltered(
        d,
        HudView {
            timeline: post.timeline,
            timeline_sid: sid,
            timeline_total: all,
            timeline_next: next_row(
                pre.timeline_next,
                page_end(offset, events.len()),
                all,
            ) as u32,
            timeline_loading: false,
            status_err: false,
            ..pre
        },
        post,
    )
    &&& exists|added: usize, complete: bool, go: bool| #[trigger]
        page_merged(d, pre, sid, append, events, post.timeline, added) && #[trigger] complete_is(
            d,
            post,
            complete,
        ) && #[trigger] continue_says(d, looked_at, complete, false, go) && fx
            == if go && added > 0 {
            seq![
                EffectView::ContinueTimeline {
                    sid,
                    gen: post.timeline_gen,
                    wait_ms: CONTINUE_WAIT_MS as int,
                },
            ]
        } else {
            Seq::<EffectView>::empty()
        }
}

/// The row after the last one asked for, once a page of `n` rows has come.
pub fn row_after(next: u32, offset: u32, n: usize, total: u32) -> (r: u32)
    ensures
        r == next_row(next, page_end(offset, n as nat), total),
{
    let rows: u32 = (n as u64 % 0x1_0000_0000) as u32;
    let end: u32 = offset.saturating_add(rows);
    let reached: u32 = if end > next {
        end
    } else {
        next
    };
    if total > 0 && reached > total {
        total
    } else {
        reached
    }
}

impl Hud {
    /// Finds the shown rows anew.
    pub fn rebuild_tl_filter<D: Domain>(&mut self, d: &D)
        ensures
            refiltered(d, old(self)@, final(self)@),
            final(self).has_room() == old(self).has_room(),
    {
        if text::same(self.timeline_sid.as_str(), self.overview_sid.as_str()) {
            self.tl_filter =
            ask_filter(d, &self.timeline, self.timeline_kind, &self.timeline_query);
        } else {
            self.tl_filter = Vec::new();
        }
    }

    /// Loads the timeline of a session from its first page on.
    pub fn ensure_timeline<D: Domain>(&mut self, d: &D, sid: String, force: bool) -> (fx: Vec<
        Effect,
    >)
        requires
            old(self).timeline_gen < u64::MAX,
        ensures
            ensured(d, old(self)@, sid@, force, final(self)@, effects_of(fx@)),
            final(self).overview_gen == old(self).overview_gen,
    {
        let ghost pre = self@;
        let same: bool = text::same(self.timeline_sid.as_str(), sid.as_str());
        if !force && same && self.timeline.len() > 0 && !self.timeline_loading {
            return nothing();
        }
        self.timeline_gen = self.timeline_gen + 1;
        self.timeline_loading = true;
        let clear: bool = force || !same;
        if clear {
            self.timeline = Vec::new();
            self.timeline_total = 0;
            self.timeline_next = 0;
            self.tl_filter = Vec::new();
            assert(events_of(self.timeline@) =~= seq![]);
            assert(self.tl_filter@ =~= seq![]);
        }
        let seed: u32 = match self.timeline_focus {
            Some(i) => ask_seek(d, i, SEEK_BEFORE),
            None => 0,
        };
        assert(seed_is(d, pre.timeline_focus, seed));
        let rpc_ref: String = self.overview_rpc_ref(d);
        assert(self@ == load_begun(pre, clear));
        assert(overview_ref_is(d, self@, rpc_ref@));
        let ask = Effect::FetchTimeline {
            rpc_ref,
            sid,
            offset: seed,
            append: false,
            gen: self.timeline_gen,
            limit: PageSize::Rows(FIRST_PAGE),
        };
        let fx: Vec<Effect> = if clear {
            and(only(Effect::TimelineTop), ask)
        } else {
            only(ask)
        };
        assert(effects_of(fx@) =~= first_page(clear, rpc_ref@, sid@, seed, self@.timeline_gen));
        fx
    }

    /// Asks for the next missing rows of the timeline.
    pub fn fill_timeline<D: Domain>(&mut self, d: &D, sid: String) -> (fx: Vec<Effect>)
        ensures
            filled(d, old(self)@, sid@, final(self)@, effects_of(fx@)),
            final(self).has_room() == old(self).has_room(),
    {
        let ghost pre = self@;
        if self.timeline_complete(d) || self.timeline_loading {
            return nothing();
        }
        let offset: u32 = ask_missing(d, &self.timeline, self.timeline_total);
        assert(missing_says(d, pre.timeline, pre.timeline_total, offset));
        self.timeline_loading = true;
        let rpc_ref: String = self.overview_rpc_ref(d);
        assert(overview_ref_is(d, self@, rpc_ref@));
        only(
            Effect::FetchTimeline {
                rpc_ref,
                sid,
                offset,
                append: true,
                gen: self.timeline_gen,
                limit: PageSize::Chunk,
            },
        )
    }

    /// Asks for more of the selected session's timeline.
    pub fn load_more_timeline<D: Domain>(&mut self, d: &D) -> (fx: Vec<Effect>)
        ensures
            more_asked(d, old(self)@, final(self)@, effects_of(fx@)),
            final(self).has_room() == old(self).has_room(),
    {
        if self.tab != Tab::Timeline || self.timeline_loading {
            return nothing();
        }
        let sid: String = match self.selected_sid() {
            Some(s) => s,
            None => {
                return nothing();
            },
        };
        if !text::same(self.timeline_sid.as_str(), sid.as_str()) {
            return nothing();
        }
        if self.timeline_complete(d) {
            return nothing();
        }
        self.fill_timeline(d, sid)
    }

    /// Asks for the end of the timeline again.
    pub fn refresh_timeline_tail<D: Domain>(&mut self, d: &D, sid: String) -> (fx: Vec<Effect>)
        requires
            old(self).timeline_gen < u64::MAX,
        ensures
            tailed(d, old(self)@, sid@, final(self)@, effects_of(fx@)),
            final(self).overview_gen == old(self).overview_gen,
    {
        if self.timeline_loading {
            return nothing();
        }
        if self.timeline_sid.as_str().is_empty() {
            return self.ensure_timeline(d, sid, false);
        }
        if !text::same(self.timeline_sid.as_str(), sid.as_str()) {
            return nothing();
        }
        let offset: u32 = self.timeline_next.saturating_sub(TAIL_OVERLAP);
        let rpc_ref: String = self.overview_rpc_ref(d);
        assert(overview_ref_is(d, self@, rpc_ref@));
        only(
            Effect::FetchTimeline {
                rpc_ref,
                sid,
                offset,
                append: true,
                gen: self.timeline_gen,
                limit: PageSize::LiveTail,
            },
        )
    }

    /// Puts the rows of a page into the timeline, and counts those added.
    fn merge_page<D: Domain>(
        &mut self,
        d: &D,
        sid: &String,
        append: bool,
        batch: Vec<TimelineEvent>,
    ) -> (added: usize)
        ensures
            final(self)@ == (HudView { timeline: final(self)@.timeline, ..old(self)@ }),
            page_merged(
                d,
                old(self)@,
                sid@,
                append,
                events_of(batch@),
                final(self)@.timeline,
                added,
            ),
    {
        if append && text::same(self.timeline_sid.as_str(), sid.as_str()) && self.timeline.len()
            > 0 {
            let merged: MergedTimeline = ask_timeline_merge(d, &self.timeline, &batch);
            self.timeline = merged.events;
            merged.added
        } else {
            let n: usize = batch.len();
            self.timeline = batch;
            n
        }
    }

    /// Takes a page of a timeline.
    pub fn take_page<D: Domain>(
        &mut self,
        d: &D,
        sid: String,
        offset: u32,
        append: bool,
        page: TimelinePage,
    ) -> (fx: Vec<Effect>)
        ensures
            page_taken(
                d,
                old(self)@,
                sid@,
                offset,
                append,
                events_of(page.events@),
                page.total,
                final(self)@,
                effects_of(fx@),
            ),
            final(self).has_room() == old(self).has_room(),
    {
        let ghost pre = self@;
        let ghost events = events_of(page.events@);
        let total: u32 = if page.total > 0 {
            page.total
        } else {
            self.timeline_total
        };
        let next: u32 = row_after(self.timeline_next, offset, page.events.len(), total);
        let added: usize = self.merge_page(d, &sid, append, page.events);
        self.timeline_sid = sid.clone();
        self.timeline_total = total;
        self.timeline_next = next;
        self.timeline_loading = false;
        self.status_err = false;
        self.rebuild_tl_filter(d);
        let complete: bool = self.timeline_complete(d);
        assert(complete_is(d, self@, complete));
        let go: bool = ask_continue(d, self.tab == Tab::Timeline, complete, self.timeline_loading);
        assert(continue_says(d, self@.tab == Tab::Timeline, complete, false, go));
        if go && added > 0 {
            only(
                Effect::ContinueTimeline {
                    sid,
                    gen: self.timeline_gen,
                    wait_ms: CONTINUE_WAIT_MS,
                },
            )
        } else {
            nothing()
        }
    }
}

} // verus!
