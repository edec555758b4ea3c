//! What the detail pane is for: which session a request names, what choosing a row
//! or a tab does, what each key does, and what an overview brings.

use vstd::prelude::*;
use serde_json::Value;

use crate::domain::{
    down_says, fetch_says, filter_says, marks_say, meta_says, overview_says, ref_says, seek_says,
    Domain,
};
use crate::event::{
    EffectView, HudEvent, HudKey, Input, KeyMods, Message, Moment, PageSize,
};
use crate::hud::{overview_ref_is, HudView};
use crate::json::json_of;
use crate::keys::{looked_at, moved, row_selected, tab_set};
use crate::list_laws::{chosen_id, chosen_row, rows_in};
use crate::model::{blank_draft, KindFilter, OverviewView, RowView, Tab};
use crate::overview::{overview_asked, overview_shown, overview_taken, timeline_follows};
use crate::timeline::{ensured, seed_is};
use crate::update::steps;
use crate::window::focus_effects;

verus! {

// ---------------------------------------------------------------------------
// The session that a request names
// ---------------------------------------------------------------------------

/// The domain has a name for the session at this path with this id, and no other
/// answer than a name.
pub open spec fn has_name<D: Domain>(d: &D, path: Seq<char>, sid: Seq<char>) -> bool {
    !ref_says(d, path, sid, seq![])
}

/// The domain has no name for the session at this path with this id.
pub open spec fn has_no_name<D: Domain>(d: &D, path: Seq<char>, sid: Seq<char>) -> bool {
    forall|t: Seq<char>| #[trigger] ref_says(d, path, sid, t) ==> t.len() == 0
}

/// `out` is a name that the domain gives the session.
pub open spec fn is_name<D: Domain>(
    d: &D,
    path: Seq<char>,
    sid: Seq<char>,
    out: Seq<char>,
) -> bool {
    out.len() > 0 && ref_says(d, path, sid, out)
}

/// `out` names the session that is shown, whichever row is selected: the one in the
/// overview, or, without an overview that has a name, the one under the selection.
pub open spec fn names_shown<D: Domain>(d: &D, v: HudView, out: Seq<char>) -> bool {
    let nameless = match v.overview {
        Some(o) => has_no_name(d, o.meta.path, v.overview_sid),
        None => true,
    };
    &&& v.overview is Some && has_name(d, v.overview->0.meta.path, v.overview_sid) ==> is_name(
        d,
        v.overview->0.meta.path,
        v.overview_sid,
        out,
    )
    &&& nameless ==> match chosen_row(v) {
        Some(r) => {
            &&& has_name(d, r.path, r.session_id) ==> is_name(d, r.path, r.session_id, out)
            &&& has_no_name(d, r.path, r.session_id) ==> out == r.session_id
        },
        None => out.len() == 0,
    }
}

/// A request for what is shown names the session in the overview, whichever row is
/// selected by then.
pub proof fn law_requests_name_the_shown_session<D: Domain>(d: &D, v: HudView, out: Seq<char>)
    requires
        overview_ref_is(d, v, out),
    ensures
        names_shown(d, v, out),
{
    if let Some(r) = chosen_row(v) {
        assert(r.session_id.len() == 0 ==> r.session_id =~= seq![]);
    }
}

/// `e` asks for the overview of the session in `row`.
pub open spec fn asks_overview_of<D: Domain>(
    d: &D,
    row: RowView,
    gen: int,
    quiet: bool,
    e: EffectView,
) -> bool {
    &&& e is LoadOverview
    &&& e->LoadOverview_sid == row.session_id
    &&& is_name(d, row.path, row.session_id, e->LoadOverview_rpc_ref)
    &&& e->LoadOverview_gen == gen
    &&& e->LoadOverview_quiet == quiet
}

/// The overview of the session under the selection is asked for, under a new
/// number; without such a session there is no overview. Nothing else changes.
pub open spec fn asks_overview<D: Domain>(
    d: &D,
    pre: HudView,
    quiet: bool,
    post: HudView,
    fx: Seq<EffectView>,
) -> bool {
    match chosen_row(pre) {
        Some(r) if r.session_id.len() > 0 => {
            &&& post == HudView {
                overview_pending: post.overview_pending,
                overview_gen: post.overview_gen,
                ..pre
            }
            &&& has_name(d, r.path, r.session_id) ==> fx.len() == 1
            &&& has_no_name(d, r.path, r.session_id) ==> fx.len() == 0
            &&& fx.len() == 0 ==> post == pre
            &&& fx.len() > 0 ==> {
                &&& fx.len() == 1
                &&& asks_overview_of(d, r, pre.overview_gen + 1, quiet, fx[0])
                &&& post.overview_gen == pre.overview_gen + 1
                &&& post.overview_pending == r.session_id
            }
        },
        _ => {
            &&& fx.len() == 0
            &&& post == HudView {
                overview: None,
                overview_sid: seq![],
                overview_pending: seq![],
                ..pre
            }
        },
    }
}

pub proof fn lemma_asks_overview<D: Domain>(
    d: &D,
    pre: HudView,
    quiet: bool,
    post: HudView,
    fx: Seq<EffectView>,
)
    requires
        overview_asked(d, pre, quiet, post, fx),
    ensures
        asks_overview(d, pre, quiet, post, fx),
{
}

// ---------------------------------------------------------------------------
// Choosing
// ---------------------------------------------------------------------------

/// The pane of `v` with nothing in it, and row `row` of the list selected. What was
/// typed into it is gone, and answers for the timeline that was there are stale.
pub open spec fn pane_cleared(v: HudView, row: int) -> HudView {
    HudView {
        active: row,
        tab: Tab::Overview,
        overview: None,
        overview_sid: seq![],
        timeline: seq![],
        timeline_sid: seq![],
        timeline_total: 0,
        timeline_next: 0,
        timeline_gen: v.timeline_gen + 1,
        timeline_query: seq![],
        timeline_kind: KindFilter::All,
        timeline_focus: None,
        tl_filter: seq![],
        note_draft: blank_draft(),
        note_compose_lock: false,
        typing_notes: false,
        turn_marks: Map::empty(),
        event_marks: Map::empty(),
        ..v
    }
}

/// The effects that move the keyboard to a visible palette: to its window, and to
/// the search field unless a note is being written.
pub open spec fn keyboard_moves(v: HudView, attempt: u8, fx: Seq<EffectView>) -> bool {
    &&& forall|i: int|
        0 <= i < fx.len() ==> {
            ||| v.visible && v.window_id is Some && (#[trigger] fx[i])
                == EffectView::FocusWindow { id: v.window_id->0, attempt }
            ||| v.visible && !v.note_compose_lock && fx[i] == EffectView::FocusInput(Input::Search)
        }
    &&& v.visible && v.window_id is Some ==> fx.contains(
        EffectView::FocusWindow { id: v.window_id->0, attempt },
    )
    &&& v.visible && !v.note_compose_lock ==> fx.contains(EffectView::FocusInput(Input::Search))
}

pub proof fn lemma_keyboard_moves(v: HudView, attempt: u8)
    ensures
        keyboard_moves(v, attempt, focus_effects(v, attempt)),
{
    let fx = focus_effects(v, attempt);
    if v.visible {
        if v.window_id is Some {
            assert(fx[0] == EffectView::FocusWindow { id: v.window_id->0, attempt });
        }
        if !v.note_compose_lock {
            assert(fx[fx.len() - 1] == EffectView::FocusInput(Input::Search));
        }
    }
}

/// Choosing a row selects it, clears the pane and asks for its overview. Choosing
/// the row that is shown already, or one that is not there, only moves the keyboard.
pub proof fn law_choosing_a_row<D: Domain>(
    d: &D,
    pre: HudView,
    m: Moment,
    i: usize,
    post: HudView,
    fx: Seq<EffectView>,
) -> (r: (Seq<EffectView>, Seq<EffectView>))
    requires
        steps(d, pre, m, Message::SelectSession(i), post, fx),
    ensures
        i >= rows_in(pre).len() || i == pre.active && pre.overview is Some ==> post == pre
            && keyboard_moves(pre, 0, fx),
        i < rows_in(pre).len() && !(i == pre.active && pre.overview is Some) ==> {
            &&& asks_overview(d, pane_cleared(pre, i as int), false, post, r.0)
            &&& keyboard_moves(post, 0, r.1)
            &&& fx == seq![EffectView::TimelineTop] + r.0 + r.1
        },
{
    if i >= rows_in(pre).len() || i == pre.active && pre.overview is Some {
        lemma_keyboard_moves(pre, 0);
        (seq![], fx)
    } else {
        let load = choose|load: Seq<EffectView>| #[trigger]
            row_selected(d, pre, i as int, post, load) && fx == seq![EffectView::TimelineTop] + load
                + focus_effects(post, 0);
        lemma_keyboard_moves(post, 0);
        lemma_asks_overview(d, pane_cleared(pre, i as int), false, post, load);
        (load, focus_effects(post, 0))
    }
}

// ---------------------------------------------------------------------------
// Tabs and the first page of a timeline
// ---------------------------------------------------------------------------

/// The first page of the timeline of session `sid` is asked for under a new number,
/// from just before the marked row on. What was loaded goes away when `fresh`.
pub open spec fn starts_timeline<D: Domain>(
    d: &D,
    pre: HudView,
    sid: Seq<char>,
    fresh: bool,
    post: HudView,
    fx: Seq<EffectView>,
) -> bool {
    &&& post == HudView {
        timeline_gen: pre.timeline_gen + 1,
        timeline_loading: true,
        timeline: if fresh {
            seq![]
        } else {
            pre.timeline
        },
        timeline_total: if fresh {
            0
        } else {
            pre.timeline_total
        },
        timeline_next: if fresh {
            0
        } else {
            pre.timeline_next
        },
        tl_filter: if fresh {
            seq![]
        } else {
            pre.tl_filter
        },
        ..pre
    }
    &&& fx.len() == if fresh {
        2nat
    } else {
        1
    }
    &&& fresh ==> fx[0] == EffectView::TimelineTop
    &&& {
        let ask = fx.last();
        &&& ask is FetchTimeline
        &&& ask->FetchTimeline_sid == sid
        &&& names_shown(d, pre, ask->FetchTimeline_rpc_ref)
        &&& !ask->append
        &&& ask->FetchTimeline_gen == pre.timeline_gen + 1
        &&& ask->limit == PageSize::Rows(120)
        &&& pre.timeline_focus is None ==> ask->offset == 0
        &&& pre.timeline_focus is Some ==> seek_says(d, pre.timeline_focus->0, 20, ask->offset)
    }
}

/// The timeline of session `sid` is loaded, unless it is there already and nothing is
/// under way.
pub open spec fn has_timeline_loaded<D: Domain>(
    d: &D,
    pre: HudView,
    sid: Seq<char>,
    post: HudView,
    fx: Seq<EffectView>,
) -> bool {
    if pre.timeline_sid == sid && pre.timeline.len() > 0 && !pre.timeline_loading {
        post == pre && fx.len() == 0
    } else {
        starts_timeline(d, pre, sid, pre.timeline_sid != sid, post, fx)
    }
}

pub proof fn lemma_starts_timeline<D: Domain>(
    d: &D,
    pre: HudView,
    sid: Seq<char>,
    force: bool,
    post: HudView,
    fx: Seq<EffectView>,
)
    requires
        ensured(d, pre, sid, force, post, fx),
    ensures
        force ==> starts_timeline(d, pre, sid, true, post, fx),
        !force ==> has_timeline_loaded(d, pre, sid, post, fx),
{
    if force || !(pre.timeline_sid == sid && pre.timeline.len() > 0 && !pre.timeline_loading) {
        let (seed, rpc_ref) = choose|seed: u32, rpc_ref: Seq<char>| #[trigger]
            seed_is(d, pre.timeline_focus, seed) && #[trigger] overview_ref_is(d, post, rpc_ref)
                && fx == crate::timeline::first_page(
                force || pre.timeline_sid != sid,
                rpc_ref,
                sid,
                seed,
                post.timeline_gen,
            );
        law_requests_name_the_shown_session(d, post, rpc_ref);
        assert(chosen_row(post) == chosen_row(pre));
    }
}

/// Tab `tab` is shown. On the timeline page the timeline of the session under the
/// selection is loaded, on any other page nothing is.
pub open spec fn shows_tab<D: Domain>(
    d: &D,
    pre: HudView,
    tab: Tab,
    post: HudView,
    load: Seq<EffectView>,
) -> bool {
    if tab == Tab::Timeline && chosen_id(pre).len() > 0 {
        has_timeline_loaded(d, HudView { tab, ..pre }, chosen_id(pre), post, load)
    } else {
        post == (HudView { tab, ..pre }) && load.len() == 0
    }
}

proof fn lemma_shows_tab<D: Domain>(
    d: &D,
    pre: HudView,
    tab: Tab,
    post: HudView,
    fx: Seq<EffectView>,
) -> (r: (Seq<EffectView>, Seq<EffectView>))
    requires
        tab_set(d, pre, tab, post, fx),
    ensures
        shows_tab(d, pre, tab, post, r.0),
        keyboard_moves(post, 0, r.1),
        fx == r.0 + r.1,
{
    let load = choose|load: Seq<EffectView>| #[trigger]
        looked_at(d, HudView { tab, ..pre }, post, load) && fx == load + focus_effects(post, 0);
    lemma_keyboard_moves(post, 0);
    let v = HudView { tab, ..pre };
    assert(chosen_row(v) == chosen_row(pre));
    if tab == Tab::Timeline && chosen_id(pre).len() > 0 {
        lemma_starts_timeline(d, v, chosen_id(pre), false, post, load);
    }
    (load, focus_effects(post, 0))
}

/// Choosing a tab shows it, loads the timeline if that is the tab, and moves the
/// keyboard to the palette.
pub proof fn law_choosing_a_tab<D: Domain>(
    d: &D,
    pre: HudView,
    m: Moment,
    tab: Tab,
    post: HudView,
    fx: Seq<EffectView>,
) -> (r: (Seq<EffectView>, Seq<EffectView>))
    requires
        steps(d, pre, m, Message::SetTab(tab), post, fx),
    ensures
        shows_tab(d, pre, tab, post, r.0),
        keyboard_moves(post, 0, r.1),
        fx == r.0 + r.1,
{
    lemma_shows_tab(d, pre, tab, post, fx)
}

// ---------------------------------------------------------------------------
// Keys
// ---------------------------------------------------------------------------

/// The tab that the first digit of a typed text stands for.
pub open spec fn digit_tab(typed: Seq<char>, tab: Tab) -> bool {
    typed.len() > 0 && match tab {
        Tab::Overview => typed[0] == '1',
        Tab::Turns => typed[0] == '2',
        Tab::Timeline => typed[0] == '3',
        Tab::Findings => typed[0] == '4',
        Tab::Notes => typed[0] == '5',
    }
}

/// The tabs, each with the next one to its right; the first follows the last.
pub open spec fn next_tab(a: Tab, b: Tab) -> bool {
    match a {
        Tab::Overview => b == Tab::Turns,
        Tab::Turns => b == Tab::Timeline,
        Tab::Timeline => b == Tab::Findings,
        Tab::Findings => b == Tab::Notes,
        Tab::Notes => b == Tab::Overview,
    }
}

/// Control or Command with a digit shows the tab with that number, whatever is being
/// typed.
pub proof fn law_digit_keys_show_tabs<D: Domain>(
    d: &D,
    pre: HudView,
    m: Moment,
    key: HudKey,
    modifiers: KeyMods,
    tab: Tab,
    post: HudView,
    fx: Seq<EffectView>,
) -> (r: (Seq<EffectView>, Seq<EffectView>))
    requires
        steps(
            d,
            pre,
            m,
            Message::RawEvent(HudEvent::KeyPressed { key, modifiers }),
            post,
            fx,
        ),
        modifiers.control || modifiers.command,
        key is Character,
        digit_tab(key->Character_0@, tab),
    ensures
        shows_tab(d, pre, tab, post, r.0),
        keyboard_moves(post, 0, r.1),
        fx == r.0 + r.1,
{
    lemma_shows_tab(d, pre, tab, post, fx)
}

/// Control or Command with the Tab key shows the next tab, or with Shift the one
/// before, unless a note is being typed.
pub proof fn law_the_tab_key_goes_round<D: Domain>(
    d: &D,
    pre: HudView,
    m: Moment,
    modifiers: KeyMods,
    tab: Tab,
    post: HudView,
    fx: Seq<EffectView>,
) -> (r: (Seq<EffectView>, Seq<EffectView>))
    requires
        steps(
            d,
            pre,
            m,
            Message::RawEvent(HudEvent::KeyPressed { key: HudKey::Tab, modifiers }),
            post,
            fx,
        ),
        modifiers.control || modifiers.command,
        !pre.typing_notes,
        if modifiers.shift {
            next_tab(tab, pre.tab)
        } else {
            next_tab(pre.tab, tab)
        },
    ensures
        shows_tab(d, pre, tab, post, r.0),
        keyboard_moves(post, 0, r.1),
        fx == r.0 + r.1,
{
    lemma_shows_tab(d, pre, tab, post, fx)
}

/// While a note is typed, no key but Escape and the digits of the tabs does anything.
pub proof fn law_typing_keeps_its_keys<D: Domain>(
    d: &D,
    pre: HudView,
    m: Moment,
    key: HudKey,
    modifiers: KeyMods,
    post: HudView,
    fx: Seq<EffectView>,
)
    requires
        steps(
            d,
            pre,
            m,
            Message::RawEvent(HudEvent::KeyPressed { key, modifiers }),
            post,
            fx,
        ),
        pre.typing_notes,
        !(key is Escape),
        !(modifiers.control || modifiers.command) || !(key is Character) || forall|tab: Tab|
            !digit_tab(key->Character_0@, tab),
    ensures
        post == pre,
        fx.len() == 0,
{
    if key is Character {
        let c = key->Character_0@;
        assert(!(modifiers.control || modifiers.command) || (!digit_tab(c, Tab::Overview)
            && !digit_tab(c, Tab::Turns) && !digit_tab(c, Tab::Timeline) && !digit_tab(
            c,
            Tab::Findings,
        ) && !digit_tab(c, Tab::Notes)));
    }
}

/// The slash moves the keyboard to the timeline's search field, on the timeline page
/// only.
pub proof fn law_the_slash_searches_the_timeline<D: Domain>(
    d: &D,
    pre: HudView,
    m: Moment,
    key: HudKey,
    modifiers: KeyMods,
    post: HudView,
    fx: Seq<EffectView>,
)
    requires
        steps(
            d,
            pre,
            m,
            Message::RawEvent(HudEvent::KeyPressed { key, modifiers }),
            post,
            fx,
        ),
        key is Character,
        key->Character_0@ == "/"@,
        !pre.typing_notes,
    ensures
        post == pre,
        pre.tab == Tab::Timeline ==> fx == seq![EffectView::FocusInput(Input::TimelineSearch)],
        pre.tab != Tab::Timeline ==> fx.len() == 0,
{
    reveal_strlit("/");
}

/// The arrow keys, Home and End select the row below, above, first and last, going
/// round at the ends of the list. The row is brought in sight, the pane is cleared,
/// and the overview of the row asked for.
pub proof fn law_keys_move_in_the_list<D: Domain>(
    d: &D,
    pre: HudView,
    m: Moment,
    key: HudKey,
    modifiers: KeyMods,
    post: HudView,
    fx: Seq<EffectView>,
) -> (load: Seq<EffectView>)
    requires
        steps(
            d,
            pre,
            m,
            Message::RawEvent(HudEvent::KeyPressed { key, modifiers }),
            post,
            fx,
        ),
        key is ArrowDown || key is ArrowUp || key is Home || key is End,
        !pre.typing_notes,
        0 <= pre.active < rows_in(pre).len(),
    ensures
        key is ArrowDown && pre.active + 1 < rows_in(pre).len() ==> post.active == pre.active + 1,
        key is ArrowDown && pre.active + 1 == rows_in(pre).len() ==> post.active == 0,
        key is ArrowUp && pre.active > 0 ==> post.active == pre.active - 1,
        key is ArrowUp && pre.active == 0 ==> post.active == rows_in(pre).len() - 1,
        key is Home ==> post.active == 0,
        key is End ==> post.active == rows_in(pre).len() - 1,
        asks_overview(d, pane_cleared(pre, post.active), false, post, load),
        fx == seq![EffectView::TimelineTop, EffectView::RevealRow(post.active)] + load,
{
    let n = rows_in(pre).len() as int;
    crate::laws::lemma_rows_beside(pre.active, n);
    let to = if key is ArrowDown {
        crate::keys::row_below(pre.active, n)
    } else if key is ArrowUp {
        crate::keys::row_above(pre.active, n)
    } else if key is Home {
        0
    } else {
        n - 1
    };
    assert(moved(d, pre, to, post, fx));
    let load = choose|load: Seq<EffectView>| #[trigger]
        row_selected(d, pre, to, post, load) && fx == seq![
            EffectView::TimelineTop,
            EffectView::RevealRow(to),
        ] + load;
    lemma_asks_overview(d, pane_cleared(pre, to), false, post, load);
    load
}

/// Enter asks for the overview of the selected row, aloud. In an empty list no other
/// key of the list does anything.
pub proof fn law_enter_asks_for_the_overview<D: Domain>(
    d: &D,
    pre: HudView,
    m: Moment,
    key: HudKey,
    modifiers: KeyMods,
    post: HudView,
    fx: Seq<EffectView>,
)
    requires
        steps(
            d,
            pre,
            m,
            Message::RawEvent(HudEvent::KeyPressed { key, modifiers }),
            post,
            fx,
        ),
        !pre.typing_notes,
    ensures
        key is Enter ==> asks_overview(d, pre, false, post, fx),
        rows_in(pre).len() == 0 && (key is ArrowDown || key is ArrowUp || key is Home || key is End)
            ==> post == pre && fx.len() == 0,
        key is Tab && !modifiers.control && !modifiers.command ==> post == pre && fx.len() == 0,
        key is Other ==> post == pre && fx.len() == 0,
        key is Character && !modifiers.control && !modifiers.command && pre.tab != Tab::Timeline
            ==> post == pre && fx.len() == 0,
        key is Character && key->Character_0@ != "/"@ && (forall|tab: Tab|
            !digit_tab(key->Character_0@, tab)) ==> post == pre && fx.len() == 0,
{
    if key is Enter {
        lemma_asks_overview(d, pre, false, post, fx);
    }
    if key is Character {
        let c = key->Character_0@;
        assert((forall|tab: Tab| !digit_tab(c, tab)) ==> !digit_tab(c, Tab::Overview) && !digit_tab(
            c,
            Tab::Turns,
        ) && !digit_tab(c, Tab::Timeline) && !digit_tab(c, Tab::Findings) && !digit_tab(
            c,
            Tab::Notes,
        ));
    }
}

// ---------------------------------------------------------------------------
// Overviews
// ---------------------------------------------------------------------------

/// The palette of `pre` with the overview `o` of session `sid` in it. The cards are
/// marked by it, the session's rows in the list take its description, and the
/// timeline's rows are found anew, none while the timeline is another session's. The
/// status line names the session, unless the answer is quiet.
pub open spec fn holds_overview<D: Domain>(
    d: &D,
    pre: HudView,
    sid: Seq<char>,
    quiet: bool,
    o: OverviewView,
    post: HudView,
) -> bool {
    &&& post == HudView {
        overview: Some(o),
        overview_sid: sid,
        overview_pending: seq![],
        all_sessions: post.all_sessions,
        sessions: post.sessions,
        turn_marks: post.turn_marks,
        event_marks: post.event_marks,
        tl_filter: post.tl_filter,
        status: if quiet {
            pre.status
        } else {
            sid + " · "@ + o.meta.status
        },
        status_err: false,
        ..pre
    }
    &&& meta_says(d, pre.all_sessions, sid, o.meta, post.all_sessions)
    &&& meta_says(d, pre.sessions, sid, o.meta, post.sessions)
    &&& marks_say(d, o, post.turn_marks, post.event_marks)
    &&& pre.timeline_sid != sid ==> post.tl_filter.len() == 0
    &&& pre.timeline_sid == sid ==> filter_says(
        d,
        pre.timeline,
        pre.timeline_kind,
        pre.timeline_query,
        post.tl_filter,
    )
}

/// The newest overview is shown, with all that goes by it; the timeline is loaded
/// along with it when the domain wants that, and the keyboard moves to the palette
/// unless the answer is quiet. One that cannot be read leaves what is shown.
pub proof fn law_an_overview_is_shown<D: Domain>(
    d: &D,
    pre: HudView,
    m: Moment,
    gen: u64,
    sid: String,
    quiet: bool,
    data: Value,
    post: HudView,
    fx: Seq<EffectView>,
) -> (r: (Result<OverviewView, Seq<char>>, HudView, Seq<EffectView>, Seq<EffectView>))
    requires
        steps(
            d,
            pre,
            m,
            Message::OverviewLoaded { gen, sid, quiet, result: Ok(data) },
            post,
            fx,
        ),
        gen == pre.overview_gen,
    ensures
        overview_says(d, json_of(data), r.0),
        match r.0 {
            Ok(o) => {
                &&& holds_overview(d, pre, sid@, quiet, o, r.1)
                &&& {
                    ||| fetch_says(d, pre.tab == Tab::Timeline, true) && has_timeline_loaded(
                        d,
                        r.1,
                        sid@,
                        post,
                        r.2,
                    )
                    ||| fetch_says(d, pre.tab == Tab::Timeline, false) && post == r.1 && r.2.len()
                        == 0
                }
                &&& fx == r.2 + r.3
                &&& quiet ==> r.3.len() == 0
                &&& !quiet ==> keyboard_moves(post, 0, r.3)
            },
            Err(e) => {
                &&& post == HudView { status: post.status, status_err: true, ..pre }
                &&& down_says(d, e, post.status)
                &&& fx == seq![EffectView::LogError(e)]
            },
        },
{
    let tree = json_of(data);
    let read = choose|read: Result<OverviewView, Seq<char>>| #[trigger]
        overview_says(d, tree, read) && match read {
            Ok(o) => overview_taken(d, pre, sid@, quiet, o, post, fx),
            Err(e) => crate::hud::downed(d, pre, e, post) && fx == seq![EffectView::LogError(e)],
        };
    match read {
        Ok(o) => {
            let (mid, load) = choose|mid: HudView, load: Seq<EffectView>|
                {
                    &&& #[trigger] overview_shown(d, pre, sid@, quiet, o, mid)
                    &&& #[trigger] timeline_follows(d, mid, sid@, post, load)
                    &&& fx == load + if quiet {
                        Seq::<EffectView>::empty()
                    } else {
                        focus_effects(post, 0)
                    }
                };
            lemma_keyboard_moves(post, 0);
            if ensured(d, mid, sid@, false, post, load) {
                lemma_starts_timeline(d, mid, sid@, false, post, load);
            }
            (
                read,
                mid,
                load,
                if quiet {
                    seq![]
                } else {
                    focus_effects(post, 0)
                },
            )
        },
        Err(e) => (read, post, fx, fx),
    }
}

/// A request for an overview that fails says so in the status line and in the log. A
/// quiet one leaves the overview that is shown, any other one takes it away.
pub proof fn law_a_failed_overview<D: Domain>(
    d: &D,
    pre: HudView,
    m: Moment,
    gen: u64,
    sid: String,
    quiet: bool,
    e: String,
    post: HudView,
    fx: Seq<EffectView>,
)
    requires
        steps(
            d,
            pre,
            m,
            Message::OverviewLoaded { gen, sid, quiet, result: Err(e) },
            post,
            fx,
        ),
        gen == pre.overview_gen,
    ensures
        fx == seq![EffectView::LogError(e@)],
        post.status_err,
        down_says(d, e@, post.status),
        quiet ==> post == (HudView { status: post.status, status_err: true, ..pre }),
        !quiet ==> post == (HudView {
            status: post.status,
            status_err: true,
            overview: None,
            overview_sid: seq![],
            overview_pending: seq![],
            ..pre
        }),
{
}

} // verus!
