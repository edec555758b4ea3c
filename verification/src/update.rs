//! One step of the palette: a message comes in, the state changes, effects go
//! out.

use vstd::prelude::*;
use vstd::string::*;
use serde_json::Value;

use crate::catalog::{listed, reranked};
use crate::domain::{
    ask_field, ask_page, ask_soft, ask_timeline_page, decoded_timeline, field_says, page_says,
    soft_says, timeline_page_says, Domain,
};
use crate::event::{
    both, effects_of, nothing, only, Effect, EffectView, HudEvent, Message, Moment,
};
use crate::hud::{complete_is, downed, focus_place, selected_id, shown, Hud, HudView};
use crate::json::{json_of, Json};
use crate::keys::{keyed, session_chosen, tab_set};
use crate::model::{
    blank_draft, page_of, pairs_of, DraftView, EventView, KindFilter, NoteDraft,
    PageView, SessionListPage, Tab, TimelinePage,
};
use crate::notes::{delete_asked, note_opened, note_sent, snapshot_taken, DELETE_WAIT_MS};
use crate::overview::{overview_answered, overview_asked, reply_tree};
use crate::refresh::{notify_trees, ticked};
use crate::text;
use crate::text::trimmed;
use crate::timeline::{ensured, filled, more_asked, page_taken, refiltered};
use crate::window::{
    dismiss_effects, dismissed, focus_effects, hidden, hide_effects, pop_out_effects, popped_out,
    retry_effects, toggle_effects, toggled, tray_done, tray_effects, window_effects, window_known,
};

verus! {

// ---------------------------------------------------------------------------
// Searching in the timeline
// ---------------------------------------------------------------------------

/// While the timeline is searched, the rest of it is loaded.
pub open spec fn search_fills<D: Domain>(
    d: &D,
    pre: HudView,
    searching: bool,
    post: HudView,
    fx: Seq<EffectView>,
) -> bool {
    let idle = post == pre && fx == Seq::<EffectView>::empty();
    match selected_id(pre) {
        Some(sid) if searching => {
            ||| complete_is(d, pre, true) && idle
            ||| complete_is(d, pre, false) && filled(d, pre, sid, post, fx)
        },
        _ => idle,
    }
}

/// The timeline is searched by a query and a kind.
pub open spec fn timeline_searched<D: Domain>(
    d: &D,
    pre: HudView,
    query: Seq<char>,
    kind: KindFilter,
    searching: bool,
    post: HudView,
    fx: Seq<EffectView>,
) -> bool {
    exists|mid: HudView| #[trigger]
        refiltered(d, HudView { timeline_query: query, timeline_kind: kind, ..pre }, mid)
            && search_fills(d, mid, searching, post, fx)
}

/// The timeline is opened at a row: unfiltered, scrolled there, and loaded anew
/// from there.
pub open spec fn jumped<D: Domain>(
    d: &D,
    pre: HudView,
    index: i64,
    post: HudView,
    fx: Seq<EffectView>,
) -> bool {
    exists|mid: HudView| #[trigger]
        refiltered(d, jump_begun(pre, index), mid) && jump_loads(d, mid, post, fx)
}

/// The timeline page, unfiltered, with a row marked.
pub open spec fn jump_begun(v: HudView, index: i64) -> HudView {
    HudView {
        timeline_focus: Some(index),
        tab: Tab::Timeline,
        timeline_query: seq![],
        timeline_kind: KindFilter::All,
        ..v
    }
}

/// The timeline is scrolled to the marked row, and that of session `sid` loaded
/// anew.
pub open spec fn loaded_anew<D: Domain>(
    d: &D,
    pre: HudView,
    sid: Seq<char>,
    post: HudView,
    fx: Seq<EffectView>,
) -> bool {
    exists|load: Seq<EffectView>| #[trigger]
        ensured(d, pre, sid, true, post, load) && fx == seq![
            EffectView::ScrollTimeline(focus_place(pre)),
        ] + load
}

/// The timeline is scrolled to the marked row, and that of the selected session
/// loaded anew.
pub open spec fn jump_loads<D: Domain>(
    d: &D,
    pre: HudView,
    post: HudView,
    fx: Seq<EffectView>,
) -> bool {
    match selected_id(pre) {
        Some(sid) => loaded_anew(d, pre, sid, post, fx),
        None => post == pre && fx == seq![EffectView::ScrollTimeline(focus_place(pre))],
    }
}

/// The palette after a timeline row was clicked: the row is marked, or not any
/// more.
pub open spec fn row_marked(v: HudView, index: i64) -> HudView {
    HudView {
        timeline_focus: if v.timeline_focus == Some(index) {
            None
        } else {
            Some(index)
        },
        ..v
    }
}

/// The palette after the timeline was scrolled: a marked row that went out of
/// sight is not marked any more.
pub open spec fn row_unmarked(v: HudView, outside: bool) -> HudView {
    if outside && focus_place(v) is Some {
        HudView { timeline_focus: None, ..v }
    } else {
        v
    }
}

/// A page of the timeline came as answer number `gen`. One for an older timeline
/// changes nothing.
pub open spec fn page_answered<D: Domain>(
    d: &D,
    pre: HudView,
    gen: int,
    sid: Seq<char>,
    offset: u32,
    append: bool,
    result: Result<Json, Seq<char>>,
    post: HudView,
    fx: Seq<EffectView>,
) -> bool {
    let arrived = HudView { timeline_loading: false, ..pre };
    if gen != pre.timeline_gen {
        post == pre && fx == Seq::<EffectView>::empty()
    } else {
        match result {
            Ok(data) => exists|read: Result<(Seq<EventView>, u32), Seq<char>>| #[trigger]
                timeline_page_says(d, data, read) && match read {
                    Ok(p) => page_taken(d, arrived, sid, offset, append, p.0, p.1, post, fx),
                    Err(e) => downed(d, arrived, e, post) && fx == seq![EffectView::LogError(e)],
                },
            Err(e) => downed(d, arrived, e, post) && fx == seq![EffectView::LogError(e)],
        }
    }
}

/// The next page of the timeline is asked for, unless the timeline is another one
/// by now.
pub open spec fn continued<D: Domain>(
    d: &D,
    pre: HudView,
    sid: Seq<char>,
    gen: int,
    post: HudView,
    fx: Seq<EffectView>,
) -> bool {
    if gen != pre.timeline_gen {
        post == pre && fx == Seq::<EffectView>::empty()
    } else {
        filled(d, pre, sid, post, fx)
    }
}

// ---------------------------------------------------------------------------
// The list
// ---------------------------------------------------------------------------

/// The list is searched.
pub open spec fn searched<D: Domain>(
    d: &D,
    pre: HudView,
    query: Seq<char>,
    post: HudView,
    fx: Seq<EffectView>,
) -> bool {
    &&& reranked(d, HudView { query, ..pre }, post)
    &&& fx == seq![EffectView::ClampList(shown(post).len() as int)]
}

/// A quiet answer that claims to be the whole catalog and is not: it is asked for
/// again.
pub open spec fn falls_short(page: Option<PageView>) -> bool {
    match page {
        Some(p) => !p.unchanged && !p.delta && p.matched > p.sessions.len(),
        None => false,
    }
}

/// After a list came that was asked for aloud, the overview follows if there is
/// none.
pub open spec fn list_followed<D: Domain>(
    d: &D,
    pre: HudView,
    quiet: bool,
    post: HudView,
    fx: Seq<EffectView>,
) -> bool {
    if !quiet && shown(pre).len() > 0 && pre.overview is None {
        overview_asked(d, pre, false, post, fx)
    } else {
        post == pre && fx == Seq::<EffectView>::empty()
    }
}

/// A list with `page` in it is taken.
pub open spec fn list_taken<D: Domain>(
    d: &D,
    pre: HudView,
    data: Json,
    page: Option<PageView>,
    quiet: bool,
    post: HudView,
    fx: Seq<EffectView>,
) -> bool {
    if quiet && falls_short(page) {
        post == pre && fx == seq![EffectView::FetchList { quiet, since: 0 }]
    } else {
        exists|mid: HudView, rows: Seq<EffectView>, load: Seq<EffectView>|
            {
                &&& #[trigger] listed(d, pre, data, page, quiet, mid, rows)
                &&& #[trigger] list_followed(d, mid, quiet, post, load)
                &&& fx == rows + load
            }
    }
}

/// A list is read and taken.
pub open spec fn list_read<D: Domain>(
    d: &D,
    pre: HudView,
    data: Json,
    quiet: bool,
    post: HudView,
    fx: Seq<EffectView>,
) -> bool {
    exists|page: Option<PageView>| #[trigger]
        page_says(d, data, page) && list_taken(d, pre, data, page, quiet, post, fx)
}

/// A request for the list failed.
pub open spec fn list_failed<D: Domain>(
    d: &D,
    pre: HudView,
    err: Seq<char>,
    quiet: bool,
    post: HudView,
    fx: Seq<EffectView>,
) -> bool {
    exists|mid: HudView, load: Seq<EffectView>|
        {
            &&& #[trigger] downed(d, pre, err, mid)
            &&& #[trigger] list_followed(d, mid, quiet, post, load)
            &&& fx == seq![EffectView::LogError(err)] + load
        }
}

/// The answer to a request for the list came.
pub open spec fn list_answered<D: Domain>(
    d: &D,
    pre: HudView,
    quiet: bool,
    result: Result<Json, Seq<char>>,
    post: HudView,
    fx: Seq<EffectView>,
) -> bool {
    match result {
        Ok(data) => list_read(d, pre, data, quiet, post, fx),
        Err(e) => list_failed(d, pre, e, quiet, post, fx),
    }
}

// ---------------------------------------------------------------------------
// Notes
// ---------------------------------------------------------------------------

/// The palette with a new note begun.
pub open spec fn note_begun(v: HudView, turn: Seq<char>, event: Seq<char>) -> HudView {
    HudView {
        note_draft: DraftView { id: seq![], turn_index: turn, event_index: event, fields: seq![] },
        note_compose_lock: true,
        typing_notes: true,
        tab: Tab::Notes,
        ..v
    }
}

/// The palette with the draft given up.
pub open spec fn draft_dropped(v: HudView) -> HudView {
    HudView {
        note_draft: blank_draft(),
        note_compose_lock: false,
        typing_notes: false,
        note_saving: false,
        ..v
    }
}

/// A field of the draft is edited.
pub open spec fn field_edited<D: Domain>(
    d: &D,
    pre: HudView,
    id: Seq<char>,
    value: Seq<char>,
    post: HudView,
) -> bool {
    &&& post == HudView {
        note_draft: post.note_draft,
        note_compose_lock: true,
        typing_notes: true,
        ..pre
    }
    &&& field_says(d, pre.note_draft, id, value, post.note_draft)
}

/// The palette with the draft's turn edited.
pub open spec fn turn_edited(v: HudView, turn: Seq<char>) -> HudView {
    HudView {
        note_draft: DraftView { turn_index: turn, ..v.note_draft },
        note_compose_lock: true,
        ..v
    }
}

/// A failed note request is logged; with `light` in front when it leaves the
/// control channel usable.
pub open spec fn failure_logged<D: Domain>(
    d: &D,
    light: Seq<char>,
    err: Seq<char>,
    fx: Seq<EffectView>,
) -> bool {
    ||| soft_says(d, err, true) && fx == seq![EffectView::LogError(light + err)]
    ||| soft_says(d, err, false) && fx == seq![EffectView::LogError(err)]
}

/// Logs a failed note request.
fn log_failure<D: Domain>(d: &D, light: &str, err: String) -> (fx: Vec<Effect>)
    ensures
        failure_logged(d, light@, err@, effects_of(fx@)),
{
    if ask_soft(d, &err) {
        let mut line: String = light.to_string();
        line.append(err.as_str());
        only(Effect::LogError(line))
    } else {
        only(Effect::LogError(err))
    }
}

/// The answer to a request to save the draft came.
pub open spec fn save_answered<D: Domain>(
    d: &D,
    pre: HudView,
    result: Result<Json, Seq<char>>,
    post: HudView,
    fx: Seq<EffectView>,
) -> bool {
    match result {
        Ok(snapshot) => fx == Seq::<EffectView>::empty() && exists|mid: HudView| #[trigger]
            snapshot_taken(d, pre, snapshot, mid) && post == HudView {
                status: "Note saved"@,
                status_err: false,
                ..draft_dropped(mid)
            },
        Err(e) => {
            &&& post == HudView {
                note_saving: false,
                status: "Note save failed: "@ + e,
                status_err: true,
                ..pre
            }
            &&& failure_logged(d, "note save (soft): "@, e, fx)
        },
    }
}

/// The palette after note `id` was deleted: a draft of it goes too.
pub open spec fn deleted(v: HudView, id: Seq<char>) -> HudView {
    let w = HudView { status: "Note deleted"@, status_err: false, ..v };
    if v.note_draft.id == id {
        HudView { note_draft: blank_draft(), note_compose_lock: false, ..w }
    } else {
        w
    }
}

/// The answer to a request to delete note `id` came.
pub open spec fn delete_answered<D: Domain>(
    d: &D,
    pre: HudView,
    id: Seq<char>,
    result: Result<Json, Seq<char>>,
    post: HudView,
    fx: Seq<EffectView>,
) -> bool {
    match result {
        Ok(snapshot) => fx == Seq::<EffectView>::empty() && exists|mid: HudView| #[trigger]
            snapshot_taken(d, pre, snapshot, mid) && post == deleted(mid, id),
        Err(e) => {
            &&& post == HudView {
                status: "Note delete failed: "@ + e,
                status_err: true,
                ..pre
            }
            &&& failure_logged(d, "note delete (soft): "@, e, fx)
        },
    }
}

// ---------------------------------------------------------------------------
// Events and greetings
// ---------------------------------------------------------------------------

/// An event of the window system came.
pub open spec fn event_done<D: Domain>(
    d: &D,
    pre: HudView,
    event: HudEvent,
    post: HudView,
    fx: Seq<EffectView>,
) -> bool {
    match event {
        HudEvent::CloseRequested => if pre.window_mode {
            post == dismissed(pre) && fx == dismiss_effects(pre)
        } else {
            post == hidden(pre) && fx == hide_effects(pre)
        },
        HudEvent::KeyPressed { key, modifiers } => keyed(d, pre, key, modifiers, post, fx),
        HudEvent::MousePressed => post == pre && fx == focus_effects(pre, 0),
        HudEvent::Other => post == pre && fx == Seq::<EffectView>::empty(),
    }
}

/// The greeting was answered: by the socket named `name`, or with an error.
pub open spec fn greeted<D: Domain>(
    d: &D,
    pre: HudView,
    result: Result<String, String>,
    post: HudView,
    fx: Seq<EffectView>,
) -> bool {
    match result {
        Ok(name) => {
            &&& post == HudView { status: "ready · "@ + name@, status_err: false, ..pre }
            &&& fx == Seq::<EffectView>::empty()
        },
        Err(e) => downed(d, pre, e@, post) && fx == seq![EffectView::LogError(e@)],
    }
}

// ---------------------------------------------------------------------------
// One step
// ---------------------------------------------------------------------------

/// The state after, and the effects of, a message at a moment.
pub open spec fn steps<D: Domain>(
    d: &D,
    pre: HudView,
    m: Moment,
    message: Message,
    post: HudView,
    fx: Seq<EffectView>,
) -> bool {
    let silent = fx == Seq::<EffectView>::empty();
    match message {
        Message::SearchChanged(q) => searched(d, pre, q@, post, fx),
        Message::SelectSession(i) => session_chosen(d, pre, i as int, post, fx),
        Message::SetTab(tab) => tab_set(d, pre, tab, post, fx),
        Message::TimelineQuery(q) => timeline_searched(
            d,
            pre,
            q@,
            pre.timeline_kind,
            trimmed(q@).len() > 0,
            post,
            fx,
        ),
        Message::TimelineKind(k) => timeline_searched(
            d,
            pre,
            pre.timeline_query,
            k,
            k != KindFilter::All,
            post,
            fx,
        ),
        Message::JumpTimeline(index) => jumped(d, pre, index, post, fx),
        Message::SelectTimeline(index) => post == row_marked(pre, index) && silent,
        Message::LoadMoreTimeline => more_asked(d, pre, post, fx),
        Message::StartNote { turn, event } => post == note_begun(pre, turn@, event@) && silent,
        Message::OpenNote(nid) => note_opened(pre, nid@, post) && silent,
        Message::ResetDraft => post == draft_dropped(pre) && silent,
        Message::NoteField { id, value } => field_edited(d, pre, id@, value@, post) && silent,
        Message::NoteTurn(turn) => post == turn_edited(pre, turn@) && silent,
        Message::SaveNote => note_sent(d, pre, post, fx),
        Message::RequestDelete(nid) => delete_asked(d, pre, nid@, m.now_ms, post, fx),
        Message::PopOutWindow => post == popped_out(pre, m) && fx == pop_out_effects(pre, m),
        Message::Hotkey => post == toggled(pre, m) && fx == toggle_effects(pre, m),
        Message::Tick(notifies) => ticked(d, pre, m, notify_trees(notifies@), post, fx),
        Message::FocusSearch(attempt) => post == pre && fx == focus_effects(pre, attempt),
        Message::RawEvent(event) => event_done(d, pre, event, post, fx),
        Message::Inited(result) => greeted(d, pre, result, post, fx),
        Message::ListLoaded { quiet, result } => list_answered(
            d,
            pre,
            quiet,
            reply_tree(result),
            post,
            fx,
        ),
        Message::OverviewLoaded { gen, sid, quiet, result } => overview_answered(
            d,
            pre,
            gen as int,
            sid@,
            quiet,
            reply_tree(result),
            post,
            fx,
        ),
        Message::TimelineLoaded { gen, sid, offset, append, result } => page_answered(
            d,
            pre,
            gen as int,
            sid@,
            offset,
            append,
            reply_tree(result),
            post,
            fx,
        ),
        Message::NoteSaved(result) => save_answered(d, pre, reply_tree(result), post, fx),
        Message::NoteDeleted { id, result } => delete_answered(
            d,
            pre,
            id@,
            reply_tree(result),
            post,
            fx,
        ),
        Message::WindowId(id) => post == window_known(pre, id) && fx == window_effects(pre, id),
        Message::X11Focus { focused, attempt } => post == pre && fx == retry_effects(
            focused,
            attempt,
        ),
        Message::Hide => post == hidden(pre) && fx == hide_effects(pre),
        Message::Tray(action) => post == tray_done(pre, m, action) && fx == tray_effects(
            pre,
            m,
            action,
        ),
        Message::MdLink(url) => post == (HudView { status: url@, status_err: false, ..pre })
            && silent,
        Message::TimelineScroll { focus_outside } => post == row_unmarked(pre, focus_outside)
            && silent,
        Message::ContinueTimeline { sid, gen } => continued(d, pre, sid@, gen as int, post, fx),
    }
}

impl Hud {
    /// Searches the list.
    pub fn search<D: Domain>(&mut self, d: &D, query: String) -> (fx: Vec<Effect>)
        ensures
            searched(d, old(self)@, query@, final(self)@, effects_of(fx@)),
    {
        self.query = query;
        self.rerank_visible(d)
    }

    /// Sets what the timeline is searched for.
    fn set_timeline_search(&mut self, query: String, kind: KindFilter)
        ensures
            final(self)@ == (HudView {
                timeline_query: query@,
                timeline_kind: kind,
                ..old(self)@
            }),
            final(self).has_room() == old(self).has_room(),
    {
        self.timeline_query = query;
        self.timeline_kind = kind;
    }

    /// Loads the rest of the timeline while it is searched.
    fn fill_for_search<D: Domain>(&mut self, d: &D, searching: bool) -> (fx: Vec<Effect>)
        ensures
            search_fills(d, old(self)@, searching, final(self)@, effects_of(fx@)),
    {
        if !searching {
            return nothing();
        }
        match self.selected_sid() {
            Some(sid) => if self.timeline_complete(d) {
                nothing()
            } else {
                self.fill_timeline(d, sid)
            },
            None => nothing(),
        }
    }

    /// Searches the timeline.
    pub fn search_timeline<D: Domain>(
        &mut self,
        d: &D,
        query: String,
        kind: KindFilter,
        searching: bool,
    ) -> (fx: Vec<Effect>)
        ensures
            timeline_searched(
                d,
                old(self)@,
                query@,
                kind,
                searching,
                final(self)@,
                effects_of(fx@),
            ),
    {
        self.set_timeline_search(query, kind);
        self.rebuild_tl_filter(d);
        self.fill_for_search(d, searching)
    }

    /// Opens the timeline page, unfiltered, with a row marked.
    fn begin_jump(&mut self, index: i64)
        ensures
            final(self)@ == jump_begun(old(self)@, index),
            final(self).has_room() == old(self).has_room(),
    {
        self.timeline_focus = Some(index);
        self.tab = Tab::Timeline;
        self.timeline_query = String::new();
        self.timeline_kind = KindFilter::All;
        assert(self.timeline_query@ =~= seq![]);
    }

    /// Opens the timeline at a row.
    pub fn jump_timeline<D: Domain>(&mut self, d: &D, index: i64) -> (fx: Vec<Effect>)
        requires
            old(self).has_room(),
        ensures
            jumped(d, old(self)@, index, final(self)@, effects_of(fx@)),
    {
        let ghost pre = self@;
        self.begin_jump(index);
        self.rebuild_tl_filter(d);
        let ghost mid = self@;
        assert(refiltered(d, jump_begun(pre, index), mid));
        let scroll: Vec<Effect> = only(Effect::ScrollTimeline(self.timeline_focus_pos()));
        assert(effects_of(scroll@) == seq![EffectView::ScrollTimeline(focus_place(mid))]);
        let fx: Vec<Effect> = match self.selected_sid() {
            Some(sid) => {
                let load: Vec<Effect> = self.ensure_timeline(d, sid, true);
                assert(ensured(d, mid, sid@, true, self@, effects_of(load@)));
                both(scroll, load)
            },
            None => scroll,
        };
        assert(jump_loads(d, mid, self@, effects_of(fx@)));
        fx
    }

    /// Marks a timeline row, or unmarks it.
    pub fn select_timeline(&mut self, index: i64)
        ensures
            final(self)@ == row_marked(old(self)@, index),
    {
        let same: bool = match self.timeline_focus {
            Some(i) => i == index,
            None => false,
        };
        self.timeline_focus = if same {
            None
        } else {
            Some(index)
        };
    }

    /// Unmarks a row that went out of sight.
    pub fn on_timeline_scroll(&mut self, focus_outside: bool)
        ensures
            final(self)@ == row_unmarked(old(self)@, focus_outside),
    {
        if focus_outside && self.timeline_focus_pos().is_some() {
            self.timeline_focus = None;
        }
    }

    /// Takes note that no page of the timeline is under way.
    fn page_arrived(&mut self)
        ensures
            final(self)@ == (HudView { timeline_loading: false, ..old(self)@ }),
            final(self).has_room() == old(self).has_room(),
    {
        self.timeline_loading = false;
    }

    /// Takes the answer to a request for a page of the timeline.
    pub fn on_timeline_page<D: Domain>(
        &mut self,
        d: &D,
        gen: u64,
        sid: String,
        offset: u32,
        append: bool,
        result: Result<Value, String>,
    ) -> (fx: Vec<Effect>)
        ensures
            page_answered(
                d,
                old(self)@,
                gen as int,
                sid@,
                offset,
                append,
                reply_tree(result),
                final(self)@,
                effects_of(fx@),
            ),
    {
        if gen != self.timeline_gen {
            return nothing();
        }
        self.page_arrived();
        match result {
            Ok(data) => {
                let read: Result<TimelinePage, String> = ask_timeline_page(d, &data);
                assert(timeline_page_says(d, json_of(data), decoded_timeline(read)));
                match read {
                    Ok(page) => self.take_page(d, sid, offset, append, page),
                    Err(e) => {
                        self.mark_down(d, &e);
                        only(Effect::LogError(e))
                    },
                }
            },
            Err(e) => {
                self.mark_down(d, &e);
                only(Effect::LogError(e))
            },
        }
    }

    /// Asks for the next page of the timeline.
    pub fn continue_timeline<D: Domain>(&mut self, d: &D, sid: String, gen: u64) -> (fx: Vec<
        Effect,
    >)
        ensures
            continued(d, old(self)@, sid@, gen as int, final(self)@, effects_of(fx@)),
    {
        if gen != self.timeline_gen {
            nothing()
        } else {
            self.fill_timeline(d, sid)
        }
    }

    /// Asks for the overview after a list came.
    fn follow_list<D: Domain>(&mut self, d: &D, quiet: bool) -> (fx: Vec<Effect>)
        requires
            old(self).has_room(),
        ensures
            list_followed(d, old(self)@, quiet, final(self)@, effects_of(fx@)),
    {
        if !quiet && self.sessions().len() > 0 && self.overview.is_none() {
            self.load_overview(d, false)
        } else {
            nothing()
        }
    }

    /// Takes a list, with the page that was read from it.
    pub fn take_list<D: Domain>(
        &mut self,
        d: &D,
        data: &Value,
        page: Option<SessionListPage>,
        quiet: bool,
    ) -> (fx: Vec<Effect>)
        requires
            old(self).has_room(),
        ensures
            list_taken(
                d,
                old(self)@,
                json_of(*data),
                page_of(page),
                quiet,
                final(self)@,
                effects_of(fx@),
            ),
    {
        let short: bool = match &page {
            Some(p) => !p.unchanged && !p.delta && p.matched > 0 && p.matched as u64
                > p.sessions.len() as u64,
            None => false,
        };
        assert(short == falls_short(page_of(page)));
        if quiet && short {
            return only(Effect::FetchList { quiet, since: 0 });
        }
        let ghost pre = self@;
        let rows: Vec<Effect> = self.apply_list(d, data, page, quiet);
        let ghost mid = self@;
        assert(listed(d, pre, json_of(*data), page_of(page), quiet, mid, effects_of(rows@)));
        let load: Vec<Effect> = self.follow_list(d, quiet);
        assert(list_followed(d, mid, quiet, self@, effects_of(load@)));
        both(rows, load)
    }

    /// Takes the answer to a request for the list.
    pub fn on_list<D: Domain>(&mut self, d: &D, quiet: bool, result: Result<Value, String>) -> (fx:
        Vec<Effect>)
        requires
            old(self).has_room(),
        ensures
            list_answered(
                d,
                old(self)@,
                quiet,
                reply_tree(result),
                final(self)@,
                effects_of(fx@),
            ),
    {
        match result {
            Ok(data) => {
                let page: Option<SessionListPage> = ask_page(d, &data);
                assert(page_says(d, json_of(data), page_of(page)));
                self.take_list(d, &data, page, quiet)
            },
            Err(e) => {
                let ghost pre = self@;
                self.mark_down(d, &e);
                let ghost mid = self@;
                assert(downed(d, pre, e@, mid));
                let load: Vec<Effect> = self.follow_list(d, quiet);
                assert(list_followed(d, mid, quiet, self@, effects_of(load@)));
                both(only(Effect::LogError(e)), load)
            },
        }
    }

    /// Begins a new note.
    pub fn start_note(&mut self, turn: String, event: String)
        ensures
            final(self)@ == note_begun(old(self)@, turn@, event@),
    {
        self.note_draft =
        NoteDraft {
            id: String::new(),
            turn_index: turn,
            event_index: event,
            fields: Vec::new(),
        };
        self.note_compose_lock = true;
        self.typing_notes = true;
        self.tab = Tab::Notes;
        proof {
            assert(self.note_draft.id@ =~= seq![]);
            assert(pairs_of(self.note_draft.fields@) =~= seq![]);
        }
    }

    /// Gives the draft up.
    pub fn reset_draft(&mut self)
        ensures
            final(self)@ == draft_dropped(old(self)@),
    {
        self.note_draft = NoteDraft::default();
        self.note_compose_lock = false;
        self.typing_notes = false;
        self.note_saving = false;
    }

    /// Edits a field of the draft.
    pub fn edit_field<D: Domain>(&mut self, d: &D, id: &String, value: &String)
        ensures
            field_edited(d, old(self)@, id@, value@, final(self)@),
    {
        self.note_draft = ask_field(d, &self.note_draft, id, value);
        self.note_compose_lock = true;
        self.typing_notes = true;
    }

    /// Edits the draft's turn.
    pub fn edit_turn(&mut self, turn: String)
        ensures
            final(self)@ == turn_edited(old(self)@, turn@),
    {
        self.note_draft.turn_index = turn;
        self.note_compose_lock = true;
    }

    /// Takes the answer to a request to save the draft.
    pub fn on_note_saved<D: Domain>(&mut self, d: &D, result: Result<Value, String>) -> (fx: Vec<
        Effect,
    >)
        ensures
            save_answered(d, old(self)@, reply_tree(result), final(self)@, effects_of(fx@)),
    {
        match result {
            Ok(snapshot) => {
                let ghost pre = self@;
                self.apply_notes_snapshot(d, &snapshot);
                assert(snapshot_taken(d, pre, json_of(snapshot), self@));
                self.reset_draft();
                self.set_status("Note saved".to_string(), false);
                nothing()
            },
            Err(e) => {
                let mut line: String = "Note save failed: ".to_string();
                line.append(e.as_str());
                self.note_saving = false;
                self.set_status(line, true);
                log_failure(d, "note save (soft): ", e)
            },
        }
    }

    /// Forgets the draft of a note that was deleted.
    fn drop_deleted(&mut self, id: &String)
        ensures
            final(self)@ == deleted(old(self)@, id@),
    {
        if text::same(self.note_draft.id.as_str(), id.as_str()) {
            self.note_draft = NoteDraft::default();
            self.note_compose_lock = false;
        }
        self.status = "Note deleted".to_string();
        self.status_err = false;
    }

    /// Takes the answer to a request to delete a note.
    pub fn on_note_deleted<D: Domain>(
        &mut self,
        d: &D,
        id: String,
        result: Result<Value, String>,
    ) -> (fx: Vec<Effect>)
        ensures
            delete_answered(
                d,
                old(self)@,
                id@,
                reply_tree(result),
                final(self)@,
                effects_of(fx@),
            ),
    {
        match result {
            Ok(snapshot) => {
                let ghost pre = self@;
                self.apply_notes_snapshot(d, &snapshot);
                assert(snapshot_taken(d, pre, json_of(snapshot), self@));
                self.drop_deleted(&id);
                nothing()
            },
            Err(e) => {
                let mut line: String = "Note delete failed: ".to_string();
                line.append(e.as_str());
                self.set_status(line, true);
                log_failure(d, "note delete (soft): ", e)
            },
        }
    }

    /// Takes the answer to the greeting.
    pub fn on_inited<D: Domain>(&mut self, d: &D, result: Result<String, String>) -> (fx: Vec<
        Effect,
    >)
        ensures
            greeted(d, old(self)@, result, final(self)@, effects_of(fx@)),
    {
        match result {
            Ok(name) => {
                let mut line: String = "ready · ".to_string();
                line.append(name.as_str());
                self.set_status(line, false);
                nothing()
            },
            Err(e) => {
                self.mark_down(d, &e);
                only(Effect::LogError(e))
            },
        }
    }

    /// Answers an event of the window system.
    pub fn on_event<D: Domain>(&mut self, d: &D, event: HudEvent) -> (fx: Vec<Effect>)
        requires
            old(self).has_room(),
        ensures
            event_done(d, old(self)@, event, final(self)@, effects_of(fx@)),
    {
        match event {
            HudEvent::CloseRequested => if self.window_mode {
                self.dismiss_window()
            } else {
                self.hide_palette()
            },
            HudEvent::KeyPressed { key, modifiers } => self.on_key(d, key, modifiers),
            HudEvent::MousePressed => self.on_focus_search(0),
            HudEvent::Other => nothing(),
        }
    }

    /// Makes `name` the theme.
    pub fn sync_theme(&mut self, name: String)
        ensures
            final(self)@ == (HudView { theme_name: name@, ..old(self)@ }),
            final(self).has_room() == old(self).has_room(),
    {
        self.theme_name = name;
    }

    /// Takes a message.
    pub fn update<D: Domain>(&mut self, d: &D, m: Moment, message: Message) -> (fx: Vec<Effect>)
        requires
            old(self).has_room(),
            m.now_ms + DELETE_WAIT_MS <= u64::MAX,
        ensures
            steps(d, old(self)@, m, message, final(self)@, effects_of(fx@)),
    {
        match message {
            Message::SearchChanged(q) => self.search(d, q),
            Message::SelectSession(i) => self.select_session(d, i),
            Message::SetTab(tab) => self.set_tab(d, tab),
            Message::TimelineQuery(q) => {
                let kind: KindFilter = self.timeline_kind;
                let searching: bool = !text::is_blank(q.as_str());
                self.search_timeline(d, q, kind, searching)
            },
            Message::TimelineKind(kind) => {
                let query: String = self.timeline_query.clone();
                self.search_timeline(d, query, kind, kind != KindFilter::All)
            },
            Message::JumpTimeline(index) => self.jump_timeline(d, index),
            Message::SelectTimeline(index) => {
                self.select_timeline(index);
                nothing()
            },
            Message::LoadMoreTimeline => self.load_more_timeline(d),
            Message::StartNote { turn, event } => {
                self.start_note(turn, event);
                nothing()
            },
            Message::OpenNote(nid) => {
                self.open_note(&nid);
                nothing()
            },
            Message::ResetDraft => {
                self.reset_draft();
                nothing()
            },
            Message::NoteField { id, value } => {
                self.edit_field(d, &id, &value);
                nothing()
            },
            Message::NoteTurn(turn) => {
                self.edit_turn(turn);
                nothing()
            },
            Message::SaveNote => self.save_note(d),
            Message::RequestDelete(nid) => self.request_delete(d, nid, m.now_ms),
            Message::PopOutWindow => self.pop_out_window(m),
            Message::Hotkey => self.on_hotkey(m),
            Message::Tick(notifies) => self.on_tick(d, m, notifies),
            Message::FocusSearch(attempt) => self.on_focus_search(attempt),
            Message::RawEvent(event) => self.on_event(d, event),
            Message::Inited(result) => self.on_inited(d, result),
            Message::ListLoaded { quiet, result } => self.on_list(d, quiet, result),
            Message::OverviewLoaded { gen, sid, quiet, result } => self.on_overview(
                d,
                gen,
                sid,
                quiet,
                result,
            ),
            Message::TimelineLoaded { gen, sid, offset, append, result } => self.on_timeline_page(
                d,
                gen,
                sid,
                offset,
                append,
                result,
            ),
            Message::NoteSaved(result) => self.on_note_saved(d, result),
            Message::NoteDeleted { id, result } => self.on_note_deleted(d, id, result),
            Message::WindowId(id) => self.on_window(id),
            Message::X11Focus { focused, attempt } => self.after_x11_focus(focused, attempt),
            Message::Hide => self.hide_palette(),
            Message::Tray(action) => self.on_tray(m, action),
            Message::MdLink(url) => {
                self.set_status(url, false);
                nothing()
            },
            Message::TimelineScroll { focus_outside } => {
                self.on_timeline_scroll(focus_outside);
                nothing()
            },
            Message::ContinueTimeline { sid, gen } => self.continue_timeline(d, sid, gen),
        }
    }
}

} // verus!
