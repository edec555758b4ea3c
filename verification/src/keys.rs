//! What keys and tabs do.

use vstd::prelude::*;
use vstd::arithmetic::div_mod::{lemma_add_mod_noop, lemma_mod_bound, lemma_small_mod};

use crate::domain::Domain;
use crate::event::{
    and, both, effects_of, nothing, only, Effect, EffectView, HudKey, Input, KeyMods,
};
use crate::hud::{selected_id, shown, Hud, HudView};
use crate::model::{tab_at, tab_place, Tab, TAB_COUNT};
use crate::overview::{detail_reset, overview_asked};
use crate::text;
use crate::timeline::ensured;
use crate::window::{focus_effects, hidden, hide_effects};

verus! {

/// The timeline of the selected session is loaded, if it is looked at.
pub open spec fn looked_at<D: Domain>(
    d: &D,
    pre: HudView,
    post: HudView,
    fx: Seq<EffectView>,
) -> bool {
    match selected_id(pre) {
        Some(sid) if pre.tab == Tab::Timeline => ensured(d, pre, sid, false, post, fx),
        _ => post == pre && fx == Seq::<EffectView>::empty(),
    }
}

/// A tab is chosen.
pub open spec fn tab_set<D: Domain>(
    d: &D,
    pre: HudView,
    tab: Tab,
    post: HudView,
    fx: Seq<EffectView>,
) -> bool {
    exists|load: Seq<EffectView>| #[trigger]
        looked_at(d, HudView { tab, ..pre }, post, load) && fx == load + focus_effects(post, 0)
}

/// Row `active` is selected: the detail pane is emptied, the overview asked for.
pub open spec fn row_selected<D: Domain>(
    d: &D,
    pre: HudView,
    active: int,
    post: HudView,
    fx: Seq<EffectView>,
) -> bool {
    overview_asked(d, detail_reset(HudView { active, ..pre }), false, post, fx)
}

/// The selection moves to row `active`.
pub open spec fn moved<D: Domain>(
    d: &D,
    pre: HudView,
    active: int,
    post: HudView,
    fx: Seq<EffectView>,
) -> bool {
    exists|load: Seq<EffectView>| #[trigger]
        row_selected(d, pre, active, post, load) && fx == seq![
            EffectView::TimelineTop,
            EffectView::RevealRow(active),
        ] + load
}

/// Row `i` of the list is chosen. The row that is shown already stays.
pub open spec fn session_chosen<D: Domain>(
    d: &D,
    pre: HudView,
    i: int,
    post: HudView,
    fx: Seq<EffectView>,
) -> bool {
    if i >= shown(pre).len() || pre.active == i && pre.overview is Some {
        post == pre && fx == focus_effects(pre, 0)
    } else {
        exists|load: Seq<EffectView>| #[trigger]
            row_selected(d, pre, i, post, load) && fx == seq![EffectView::TimelineTop] + load
                + focus_effects(post, 0)
    }
}

/// The tab that a typed text names: by a digit at its start.
pub open spec fn tab_digit(typed: Seq<char>) -> Option<Tab> {
    if typed.len() == 0 {
        None
    } else if typed[0] == '1' {
        Some(Tab::Overview)
    } else if typed[0] == '2' {
        Some(Tab::Turns)
    } else if typed[0] == '3' {
        Some(Tab::Timeline)
    } else if typed[0] == '4' {
        Some(Tab::Findings)
    } else if typed[0] == '5' {
        Some(Tab::Notes)
    } else {
        None
    }
}

/// The tab that a key names.
pub open spec fn key_digit(key: HudKey) -> Option<Tab> {
    match key {
        HudKey::Character(c) => tab_digit(c@),
        _ => None,
    }
}

/// The next tab in the bar, or the one before; the bar is a circle.
pub open spec fn tab_beside(tab: Tab, back: bool) -> Tab {
    if back {
        tab_at((tab_place(tab) + TAB_COUNT - 1) % TAB_COUNT as int)
    } else {
        tab_at((tab_place(tab) + 1) % TAB_COUNT as int)
    }
}

/// The key that starts a search in the timeline.
pub open spec fn is_slash(key: HudKey) -> bool {
    match key {
        HudKey::Character(c) => c@ == "/"@,
        _ => false,
    }
}

/// The row after row `active`, in a list that is a circle.
pub open spec fn row_below(active: int, n: int) -> int {
    (active + 1) % n
}

/// The row before row `active`, in a list that is a circle.
pub open spec fn row_above(active: int, n: int) -> int {
    (active + n - 1) % n
}

/// A key that moves in the list.
pub open spec fn list_key<D: Domain>(
    d: &D,
    pre: HudView,
    key: HudKey,
    post: HudView,
    fx: Seq<EffectView>,
) -> bool {
    let n = shown(pre).len() as int;
    match key {
        HudKey::ArrowDown if n > 0 => moved(d, pre, row_below(pre.active, n), post, fx),
        HudKey::ArrowUp if n > 0 => moved(d, pre, row_above(pre.active, n), post, fx),
        HudKey::Home if n > 0 => moved(d, pre, 0, post, fx),
        HudKey::End if n > 0 => moved(d, pre, n - 1, post, fx),
        HudKey::Enter => overview_asked(d, pre, false, post, fx),
        _ => post == pre && fx == Seq::<EffectView>::empty(),
    }
}

/// A key was pressed. While a note is being typed, only Escape and the tab keys
/// count.
pub open spec fn keyed<D: Domain>(
    d: &D,
    pre: HudView,
    key: HudKey,
    mods: KeyMods,
    post: HudView,
    fx: Seq<EffectView>,
) -> bool {
    let held = mods.control || mods.command;
    if key is Escape {
        post == hidden(pre) && fx == hide_effects(pre)
    } else if held && key_digit(key) is Some {
        tab_set(d, pre, key_digit(key)->0, post, fx)
    } else if pre.typing_notes {
        post == pre && fx == Seq::<EffectView>::empty()
    } else if is_slash(key) && pre.tab == Tab::Timeline {
        post == pre && fx == seq![EffectView::FocusInput(Input::TimelineSearch)]
    } else if held && key is Tab {
        tab_set(d, pre, tab_beside(pre.tab, mods.shift), post, fx)
    } else {
        list_key(d, pre, key, post, fx)
    }
}

/// The tab that a typed text names.
fn read_tab(typed: &str) -> (r: Option<Tab>)
    ensures
        r == tab_digit(typed@),
{
    let chars: Vec<char> = text::chars_of(typed);
    if chars.len() == 0 {
        return None;
    }
    let c: char = chars[0];
    if c == '1' {
        Some(Tab::Overview)
    } else if c == '2' {
        Some(Tab::Turns)
    } else if c == '3' {
        Some(Tab::Timeline)
    } else if c == '4' {
        Some(Tab::Findings)
    } else if c == '5' {
        Some(Tab::Notes)
    } else {
        None
    }
}

impl Tab {
    /// The next tab in the bar, or the one before.
    pub fn beside(self, back: bool) -> (r: Tab)
        ensures
            r == tab_beside(self, back),
    {
        let i: usize = self.place();
        if back {
            Tab::at((i + TAB_COUNT - 1) % TAB_COUNT)
        } else {
            Tab::at((i + 1) % TAB_COUNT)
        }
    }
}

/// The row after row `active` of `n`.
pub fn below(active: usize, n: usize) -> (r: usize)
    requires
        n > 0,
    ensures
        r == row_below(active as int, n as int),
        r < n,
{
    let a: usize = active % n;
    proof {
        lemma_mod_bound(active as int, n as int);
        lemma_add_mod_noop(active as int, 1, n as int);
        lemma_add_mod_noop(a as int, 1, n as int);
        lemma_small_mod(a as nat, n as nat);
        if a + 1 < n {
            lemma_small_mod((a + 1) as nat, n as nat);
        } else {
            vstd::arithmetic::div_mod::lemma_mod_self_0(n as int);
        }
    }
    if a + 1 < n {
        a + 1
    } else {
        0
    }
}

/// The row before row `active` of `n`.
pub fn above(active: usize, n: usize) -> (r: usize)
    requires
        n > 0,
    ensures
        r == row_above(active as int, n as int),
        r < n,
{
    let a: usize = active % n;
    proof {
        lemma_mod_bound(active as int, n as int);
        lemma_add_mod_noop(active as int, n - 1, n as int);
        lemma_add_mod_noop(a as int, n - 1, n as int);
        lemma_small_mod(a as nat, n as nat);
        if a > 0 {
            vstd::arithmetic::div_mod::lemma_mod_add_multiples_vanish(a - 1, n as int);
            lemma_small_mod((a - 1) as nat, n as nat);
        } else {
            lemma_small_mod((n - 1) as nat, n as nat);
        }
    }
    if a > 0 {
        a - 1
    } else {
        n - 1
    }
}

impl Hud {
    /// Makes `tab` the shown page.
    fn turn_to(&mut self, tab: Tab)
        ensures
            final(self)@ == (HudView { tab, ..old(self)@ }),
            final(self).has_room() == old(self).has_room(),
    {
        self.tab = tab;
    }

    /// Chooses a tab.
    pub fn set_tab<D: Domain>(&mut self, d: &D, tab: Tab) -> (fx: Vec<Effect>)
        requires
            old(self).has_room(),
        ensures
            tab_set(d, old(self)@, tab, final(self)@, effects_of(fx@)),
    {
        let ghost pre = self@;
        self.turn_to(tab);
        let load: Vec<Effect> = if tab == Tab::Timeline {
            match self.selected_sid() {
                Some(sid) => self.ensure_timeline(d, sid, false),
                None => nothing(),
            }
        } else {
            nothing()
        };
        assert(looked_at(d, HudView { tab, ..pre }, self@, effects_of(load@)));
        let focus: Vec<Effect> = self.on_focus_search(0);
        both(load, focus)
    }

    /// Selects a row.
    fn select_row<D: Domain>(&mut self, d: &D, active: usize) -> (fx: Vec<Effect>)
        requires
            old(self).has_room(),
        ensures
            row_selected(d, old(self)@, active as int, final(self)@, effects_of(fx@)),
    {
        self.active = active;
        self.reset_detail_chrome();
        self.load_overview(d, false)
    }

    /// Moves the selection.
    fn move_to<D: Domain>(&mut self, d: &D, active: usize) -> (fx: Vec<Effect>)
        requires
            old(self).has_room(),
        ensures
            moved(d, old(self)@, active as int, final(self)@, effects_of(fx@)),
    {
        let load: Vec<Effect> = self.select_row(d, active);
        let scroll: Vec<Effect> = and(only(Effect::TimelineTop), Effect::RevealRow(active));
        assert(effects_of(scroll@) =~= seq![
            EffectView::TimelineTop,
            EffectView::RevealRow(active as int),
        ]);
        both(scroll, load)
    }

    /// Chooses a row of the list.
    pub fn select_session<D: Domain>(&mut self, d: &D, i: usize) -> (fx: Vec<Effect>)
        requires
            old(self).has_room(),
        ensures
            session_chosen(d, old(self)@, i as int, final(self)@, effects_of(fx@)),
    {
        if i >= self.sessions().len() || self.active == i && self.overview.is_some() {
            return self.on_focus_search(0);
        }
        let load: Vec<Effect> = self.select_row(d, i);
        let focus: Vec<Effect> = self.on_focus_search(0);
        both(both(only(Effect::TimelineTop), load), focus)
    }

    /// Answers a key that moves in the list.
    fn on_list_key<D: Domain>(&mut self, d: &D, key: HudKey) -> (fx: Vec<Effect>)
        requires
            old(self).has_room(),
        ensures
            list_key(d, old(self)@, key, final(self)@, effects_of(fx@)),
    {
        let n: usize = self.sessions().len();
        match key {
            HudKey::ArrowDown if n > 0 => {
                let next: usize = below(self.active, n);
                self.move_to(d, next)
            },
            HudKey::ArrowUp if n > 0 => {
                let next: usize = above(self.active, n);
                self.move_to(d, next)
            },
            HudKey::Home if n > 0 => self.move_to(d, 0),
            HudKey::End if n > 0 => self.move_to(d, n - 1),
            HudKey::Enter => self.load_overview(d, false),
            _ => nothing(),
        }
    }

    /// Answers a key.
    pub fn on_key<D: Domain>(&mut self, d: &D, key: HudKey, mods: KeyMods) -> (fx: Vec<Effect>)
        requires
            old(self).has_room(),
        ensures
            keyed(d, old(self)@, key, mods, final(self)@, effects_of(fx@)),
    {
        let held: bool = mods.control || mods.command;
        let (digit, slash): (Option<Tab>, bool) = match &key {
            HudKey::Escape => {
                return self.hide_palette();
            },
            HudKey::Character(c) => (read_tab(c.as_str()), text::same(c.as_str(), "/")),
            _ => (None, false),
        };
        if let Some(tab) = digit {
            if held {
                return self.set_tab(d, tab);
            }
        }
        if self.typing_notes {
            return nothing();
        }
        if slash && self.tab == Tab::Timeline {
            return only(Effect::FocusInput(Input::TimelineSearch));
        }
        if held {
            if let HudKey::Tab = key {
                let tab: Tab = self.tab.beside(mods.shift);
                return self.set_tab(d, tab);
            }
        }
        self.on_list_key(d, key)
    }
}

} // verus!
