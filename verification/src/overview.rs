//! The overview of the selected session.

use vstd::prelude::*;
use vstd::string::*;
use serde_json::Value;

use crate::domain::{
    ask_fetch, ask_meta, ask_overview, decoded_overview, fetch_says, meta_says, overview_says,
    Domain,
};
use crate::event::{both, effects_of, nothing, only, Effect, EffectView};
use crate::hud::{downed, selected_id, selected_ref_is, Hud, HudView};
use crate::json::{json_of, Json};
use crate::model::{
    blank_draft, events_of, KindFilter, NoteDraft, Overview, OverviewView,
    Tab,
};
use crate::notes::remarked;
use crate::timeline::{ensured, refiltered};
use crate::window::focus_effects;

verus! {

/// The detail pane with nothing in it. Answers for the timeline that was there
/// are stale from now on.
pub open spec fn detail_reset(v: HudView) -> HudView {
    HudView {
        tab: Tab::Overview,
        timeline_query: seq![],
        timeline_kind: KindFilter::All,
        timeline: seq![],
        timeline_sid: seq![],
        timeline_total: 0,
        timeline_next: 0,
        timeline_gen: v.timeline_gen + 1,
        timeline_focus: None,
        note_draft: blank_draft(),
        note_compose_lock: false,
        typing_notes: false,
        overview: None,
        overview_sid: seq![],
        tl_filter: seq![],
        turn_marks: Map::empty(),
        event_marks: Map::empty(),
        ..v
    }
}

/// The overview of the selected session is asked for. Without such a session
/// there is no overview.
pub open spec fn overview_asked<D: Domain>(
    d: &D,
    pre: HudView,
    quiet: bool,
    post: HudView,
    fx: Seq<EffectView>,
) -> bool {
    match selected_id(pre) {
        None => {
            &&& post == HudView {
                overview: None,
                overview_sid: seq![],
                overview_pending: seq![],
                ..pre
            }
            &&& fx == Seq::<EffectView>::empty()
        },
        Some(sid) => {
            ||| {
                &&& selected_ref_is(d, pre, None)
                &&& post == pre
                &&& fx == Seq::<EffectView>::empty()
            }
            ||| {
                &&& post == HudView {
                    overview_pending: sid,
                    overview_gen: pre.overview_gen + 1,
                    ..pre
                }
                &&& exists|rpc_ref: Seq<char>| #[trigger]
                    selected_ref_is(d, pre, Some(rpc_ref)) && fx == seq![
                        EffectView::LoadOverview { rpc_ref, sid, gen: post.overview_gen, quiet },
                    ]
            }
        },
    }
}

/// The overview `o` of session `sid` is shown.
pub open spec fn overview_shown<D: Domain>(
    d: &D,
    pre: HudView,
    sid: Seq<char>,
    quiet: bool,
    o: OverviewView,
    post: HudView,
) -> bool {
    let patched = HudView {
        all_sessions: post.all_sessions,
        sessions: post.sessions,
        status: if quiet {
            pre.status
        } else {
            sid + " · "@ + o.meta.status
        },
        status_err: false,
        overview: Some(o),
        overview_sid: sid,
        overview_pending: seq![],
        ..pre
    };
    &&& meta_says(d, pre.all_sessions, sid, o.meta, post.all_sessions)
    &&& meta_says(d, pre.sessions, sid, o.meta, post.sessions)
    &&& remarked(d, patched, HudView { tl_filter: pre.tl_filter, ..post })
    &&& refiltered(
        d,
        HudView { turn_marks: post.turn_marks, event_marks: post.event_marks, ..patched },
        post,
    )
}

/// The overview `o` of session `sid` came; the timeline follows while it is
/// looked at, and the keyboard unless the answer is quiet.
pub open spec fn overview_taken<D: Domain>(
    d: &D,
    pre: HudView,
    sid: Seq<char>,
    quiet: bool,
    o: OverviewView,
    post: HudView,
    fx: Seq<EffectView>,
) -> bool {
    exists|mid: HudView, load: Seq<EffectView>|
        {
            &&& #[trigger] overview_shown(d, pre, sid, quiet, o, mid)
            &&& #[trigger] timeline_follows(d, mid, sid, post, load)
            &&& fx == load + if quiet {
                Seq::<EffectView>::empty()
            } else {
                focus_effects(post, 0)
            }
        }
}

/// The timeline of session `sid` is loaded along with its overview, if it is to
/// be.
pub open spec fn timeline_follows<D: Domain>(
    d: &D,
    pre: HudView,
    sid: Seq<char>,
    post: HudView,
    fx: Seq<EffectView>,
) -> bool {
    let looked_at = pre.tab == Tab::Timeline;
    ||| fetch_says(d, looked_at, true) && ensured(d, pre, sid, false, post, fx)
    ||| fetch_says(d, looked_at, false) && post == pre && fx == Seq::<EffectView>::empty()
}

/// A request for an overview failed.
pub open spec fn overview_failed<D: Domain>(
    d: &D,
    pre: HudView,
    quiet: bool,
    err: Seq<char>,
    post: HudView,
) -> bool {
    downed(
        d,
        if quiet {
            pre
        } else {
            HudView { overview: None, overview_sid: seq![], overview_pending: seq![], ..pre }
        },
        err,
        post,
    )
}

/// The answer number `gen` to a request for an overview came. One that is not the
/// newest changes nothing.
pub open spec fn overview_answered<D: Domain>(
    d: &D,
    pre: HudView,
    gen: int,
    sid: Seq<char>,
    quiet: bool,
    result: Result<Json, Seq<char>>,
    post: HudView,
    fx: Seq<EffectView>,
) -> bool {
    if gen != pre.overview_gen {
        post == pre && fx == Seq::<EffectView>::empty()
    } else {
        match result {
            Ok(data) => exists|read: Result<OverviewView, Seq<char>>| #[trigger]
                overview_says(d, data, read) && match read {
                    Ok(o) => overview_taken(d, pre, sid, quiet, o, post, fx),
                    Err(e) => downed(d, pre, e, post) && fx == seq![EffectView::LogError(e)],
                },
            Err(e) => overview_failed(d, pre, quiet, e, post) && fx == seq![
                EffectView::LogError(e),
            ],
        }
    }
}

/// A reply or an error over mathematical values.
pub open spec fn reply_tree(r: Result<Value, String>) -> Result<Json, Seq<char>> {
    match r {
        Ok(v) => Ok(json_of(v)),
        Err(e) => Err(e@),
    }
}

impl Hud {
    /// Empties the detail pane.
    pub fn reset_detail_chrome(&mut self)
        requires
            old(self).timeline_gen < u64::MAX,
        ensures
            final(self)@ == detail_reset(old(self)@),
            final(self).overview_gen == old(self).overview_gen,
    {
        self.tab = Tab::Overview;
        self.timeline_query = String::new();
        self.timeline_kind = KindFilter::All;
        self.timeline = Vec::new();
        self.timeline_sid = String::new();
        self.timeline_total = 0;
        self.timeline_next = 0;
        self.timeline_gen = self.timeline_gen + 1;
        self.timeline_focus = None;
        self.note_draft = NoteDraft::default();
        self.note_compose_lock = false;
        self.typing_notes = false;
        self.overview = None;
        self.overview_sid = String::new();
        self.tl_filter = Vec::new();
        self.turn_marks.clear();
        self.event_marks.clear();
        proof {
            assert(self.timeline_query@ =~= seq![]);
            assert(self.timeline_sid@ =~= seq![]);
            assert(self.overview_sid@ =~= seq![]);
            assert(self.tl_filter@ =~= seq![]);
            assert(events_of(self.timeline@) =~= seq![]);
        }
    }

    /// Leaves the palette without an overview.
    fn forget_overview(&mut self)
        ensures
            final(self)@ == (HudView {
                overview: None,
                overview_sid: seq![],
                overview_pending: seq![],
                ..old(self)@
            }),
            final(self).has_room() == old(self).has_room(),
    {
        self.overview = None;
        self.overview_sid = String::new();
        self.overview_pending = String::new();
        proof {
            assert(self.overview_sid@ =~= seq![]);
            assert(self.overview_pending@ =~= seq![]);
        }
    }

    /// Asks for the overview of the selected session.
    pub fn load_overview<D: Domain>(&mut self, d: &D, quiet: bool) -> (fx: Vec<Effect>)
        requires
            old(self).overview_gen < u64::MAX,
        ensures
            overview_asked(d, old(self)@, quiet, final(self)@, effects_of(fx@)),
            final(self).timeline_gen == old(self).timeline_gen,
    {
        let ghost pre = self@;
        let sid: String = match self.selected_sid() {
            Some(s) => s,
            None => {
                self.forget_overview();
                return nothing();
            },
        };
        let rpc_ref: String = match self.selected_rpc_ref(d) {
            Some(r) => r,
            None => {
                return nothing();
            },
        };
        assert(selected_ref_is(d, pre, Some(rpc_ref@)));
        self.overview_pending = sid.clone();
        self.overview_gen = self.overview_gen + 1;
        only(Effect::LoadOverview { rpc_ref, sid, gen: self.overview_gen, quiet })
    }

    /// Shows an overview.
    fn show_overview<D: Domain>(&mut self, d: &D, sid: &String, quiet: bool, o: Overview)
        ensures
            overview_shown(d, old(self)@, sid@, quiet, o@, final(self)@),
            final(self).has_room() == old(self).has_room(),
    {
        self.all_sessions = ask_meta(d, &self.all_sessions, sid, &o.meta);
        self.sessions = ask_meta(d, &self.sessions, sid, &o.meta);
        if !quiet {
            let mut line: String = sid.clone();
            line.append(" · ");
            line.append(o.meta.status.as_str());
            self.status = line;
        }
        self.status_err = false;
        self.overview = Some(o);
        self.overview_sid = sid.clone();
        self.overview_pending = String::new();
        assert(self.overview_pending@ =~= seq![]);
        self.rebuild_marks(d);
        self.rebuild_tl_filter(d);
    }

    /// Takes an overview.
    pub fn take_overview<D: Domain>(&mut self, d: &D, sid: String, quiet: bool, o: Overview) -> (fx:
        Vec<Effect>)
        requires
            old(self).timeline_gen < u64::MAX,
        ensures
            overview_taken(d, old(self)@, sid@, quiet, o@, final(self)@, effects_of(fx@)),
            final(self).overview_gen == old(self).overview_gen,
    {
        let ghost pre = self@;
        self.show_overview(d, &sid, quiet, o);
        let ghost mid = self@;
        assert(overview_shown(d, pre, sid@, quiet, o@, mid));
        let load: Vec<Effect> = if ask_fetch(d, self.tab == Tab::Timeline) {
            self.ensure_timeline(d, sid, false)
        } else {
            nothing()
        };
        assert(timeline_follows(d, mid, sid@, self@, effects_of(load@)));
        let focus: Vec<Effect> = if quiet {
            nothing()
        } else {
            self.on_focus_search(0)
        };
        both(load, focus)
    }

    /// Takes the answer to a request for an overview.
    pub fn on_overview<D: Domain>(
        &mut self,
        d: &D,
        gen: u64,
        sid: String,
        quiet: bool,
        result: Result<Value, String>,
    ) -> (fx: Vec<Effect>)
        requires
            old(self).timeline_gen < u64::MAX,
        ensures
            overview_answered(
                d,
                old(self)@,
                gen as int,
                sid@,
                quiet,
                reply_tree(result),
                final(self)@,
                effects_of(fx@),
            ),
            final(self).overview_gen == old(self).overview_gen,
    {
        if gen != self.overview_gen {
            return nothing();
        }
        match result {
            Ok(data) => {
                let read: Result<Overview, String> = ask_overview(d, &data);
                assert(overview_says(d, json_of(data), decoded_overview(read)));
                match read {
                    Ok(o) => self.take_overview(d, sid, quiet, o),
                    Err(e) => {
                        self.mark_down(d, &e);
                        only(Effect::LogError(e))
                    },
                }
            },
            Err(e) => {
                if !quiet {
                    self.forget_overview();
                }
                self.mark_down(d, &e);
                only(Effect::LogError(e))
            },
        }
    }
}

} // verus!
