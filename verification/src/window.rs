//! The palette's window: the overlay that comes and goes, and the desktop window
//! that it can become.

use vstd::prelude::*;

use crate::event::{
    and, both, delayed_focus, effects_of, later_focus, nothing, only, Effect, EffectView, Input,
    Moment, WindowKind,
};
use crate::hud::{boot_view, overlay_already_mapped, overlay_mapped, Hud, HudView};
use crate::tray::TrayAction;

verus! {

/// The last attempt after which the keyboard focus is tried again.
pub const FOCUS_ATTEMPTS: u8 = 8;

/// The id that the desktop knows the windows by.
pub const APP_ID: &'static str = "dev.indynull.groket-hud";

/// The overlay's width.
pub const HUD_W: u32 = 780;

/// The overlay's height.
pub const HUD_H: u32 = 560;

/// A width and a height.
#[derive(Debug, Clone, Copy, PartialEq, Eq, Structural)]
pub struct Extent {
    pub width: u32,
    pub height: u32,
}

/// How a window stands to the other ones.
#[derive(Debug, Clone, Copy, PartialEq, Eq, Structural)]
pub enum WindowLevel {
    /// Among them.
    Normal,
    /// Above them.
    AlwaysOnTop,
}

/// Where a window opens.
#[derive(Debug, Clone, Copy, PartialEq, Eq, Structural)]
pub enum WindowPlace {
    /// Where the window manager puts it.
    Default,
    /// In the middle of the display.
    Centered,
}

/// The looks of a window.
#[derive(Debug, Clone, Copy, PartialEq, Eq, Structural)]
pub struct WindowLook {
    pub size: Extent,
    pub place: WindowPlace,
    pub min_size: Option<Extent>,
    pub max_size: Option<Extent>,
    pub resizable: bool,
    pub decorations: bool,
    pub visible: bool,
    pub level: WindowLevel,
    /// The window closes by itself when it is asked to.
    pub exit_on_close_request: bool,
    /// The window carries the program's icon.
    pub icon: bool,
    /// On Linux the window is kept from the window manager.
    pub override_redirect: bool,
}

/// The looks of a window of this kind. The overlay is a card of a fixed size above
/// the other windows, out of a tiler's reach; the other one is a normal window of
/// the desktop.
pub open spec fn look_of(kind: WindowKind) -> WindowLook {
    match kind {
        WindowKind::Palette => WindowLook {
            size: Extent { width: HUD_W, height: HUD_H },
            place: WindowPlace::Centered,
            min_size: Some(Extent { width: HUD_W, height: HUD_H }),
            max_size: Some(Extent { width: HUD_W, height: HUD_H }),
            resizable: false,
            decorations: false,
            visible: true,
            level: WindowLevel::AlwaysOnTop,
            exit_on_close_request: false,
            icon: true,
            override_redirect: true,
        },
        WindowKind::App => WindowLook {
            size: Extent { width: 980, height: 700 },
            place: WindowPlace::Default,
            min_size: Some(Extent { width: 640, height: 440 }),
            max_size: None,
            resizable: true,
            decorations: true,
            visible: true,
            level: WindowLevel::Normal,
            exit_on_close_request: false,
            icon: true,
            override_redirect: false,
        },
    }
}

/// The looks of the overlay.
pub fn palette_window_settings() -> (r: WindowLook)
    ensures
        r == look_of(WindowKind::Palette),
{
    let card = Extent { width: HUD_W, height: HUD_H };
    WindowLook {
        size: card,
        place: WindowPlace::Centered,
        min_size: Some(card),
        max_size: Some(card),
        resizable: false,
        decorations: false,
        visible: true,
        level: WindowLevel::AlwaysOnTop,
        exit_on_close_request: false,
        icon: true,
        override_redirect: true,
    }
}

/// The looks of the desktop window.
pub fn app_window_settings() -> (r: WindowLook)
    ensures
        r == look_of(WindowKind::App),
{
    WindowLook {
        size: Extent { width: 980, height: 700 },
        place: WindowPlace::Default,
        min_size: Some(Extent { width: 640, height: 440 }),
        max_size: None,
        resizable: true,
        decorations: true,
        visible: true,
        level: WindowLevel::Normal,
        exit_on_close_request: false,
        icon: true,
        override_redirect: false,
    }
}

/// The looks of a window of this kind.
pub fn window_look(kind: WindowKind) -> (r: WindowLook)
    ensures
        r == look_of(kind),
{
    match kind {
        WindowKind::Palette => palette_window_settings(),
        WindowKind::App => app_window_settings(),
    }
}

/// The effects that bring the keyboard to the palette, if it is visible: to its
/// window, and to the search field unless a note is being written.
pub open spec fn focus_effects(v: HudView, attempt: u8) -> Seq<EffectView> {
    if v.visible {
        let window = match v.window_id {
            Some(id) => seq![EffectView::FocusWindow { id, attempt }],
            None => Seq::<EffectView>::empty(),
        };
        if v.note_compose_lock {
            window
        } else {
            window.push(EffectView::FocusInput(Input::Search))
        }
    } else {
        Seq::empty()
    }
}

/// The effects after the window system was asked for the keyboard focus: another
/// try when it was not given, up to a limit.
pub open spec fn retry_effects(focused: bool, attempt: u8) -> Seq<EffectView> {
    if !focused && attempt < FOCUS_ATTEMPTS {
        seq![later_focus((attempt + 1) as u8)]
    } else {
        Seq::empty()
    }
}

/// The palette without the overlay. A desktop window stays as it is.
pub open spec fn hidden(v: HudView) -> HudView {
    if v.window_mode {
        v
    } else {
        HudView { visible: false, palette_live: false, ..v }
    }
}

/// The effects that take the overlay away.
pub open spec fn hide_effects(v: HudView) -> Seq<EffectView> {
    if v.window_mode {
        Seq::empty()
    } else {
        match v.window_id {
            Some(id) => seq![EffectView::ReleaseKeyboard, EffectView::HideWindow(id)],
            None => seq![EffectView::ReleaseKeyboard],
        }
    }
}

/// The palette as the overlay: as it is if it is mapped already.
pub open spec fn summoned(v: HudView, m: Moment) -> HudView {
    if overlay_mapped(v) {
        v
    } else {
        HudView {
            window_mode: false,
            visible: true,
            palette_live: true,
            last_live: m.now_ms,
            window_id: Some(
                match v.window_id {
                    Some(id) => id,
                    None => m.fresh_window,
                },
            ),
            ..v
        }
    }
}

/// The effects that bring the overlay: the keyboard if it is mapped already, else
/// a window and a fresh list.
pub open spec fn summon_effects(v: HudView, m: Moment) -> Seq<EffectView> {
    if overlay_mapped(v) {
        focus_effects(v, 0)
    } else {
        let fetch = EffectView::FetchList { quiet: true, since: v.catalog_revision };
        match v.window_id {
            Some(id) => seq![
                EffectView::SyncTheme,
                EffectView::ShowOverlay(id),
                EffectView::NativeChrome { id, overlay: true },
                EffectView::PlaceOverlay(id),
                later_focus(0),
                fetch,
            ],
            None => seq![
                EffectView::SyncTheme,
                EffectView::OpenWindow { kind: WindowKind::Palette, id: m.fresh_window },
                later_focus(0),
                fetch,
            ],
        }
    }
}

/// The palette as a desktop window.
pub open spec fn popped_out(v: HudView, m: Moment) -> HudView {
    if v.window_mode {
        v
    } else {
        HudView {
            window_mode: true,
            visible: true,
            palette_live: true,
            window_id: Some(m.fresh_window),
            ..v
        }
    }
}

/// The effects that turn the overlay into a desktop window: a new window, and the
/// old one closed.
pub open spec fn pop_out_effects(v: HudView, m: Moment) -> Seq<EffectView> {
    if v.window_mode {
        Seq::empty()
    } else {
        let open = seq![
            EffectView::DesktopApp(true),
            EffectView::ReleaseKeyboard,
            EffectView::OpenWindow { kind: WindowKind::App, id: m.fresh_window },
        ];
        match v.window_id {
            Some(id) if id != m.fresh_window => open.push(EffectView::CloseWindow(id)),
            _ => open,
        }
    }
}

/// The palette after its desktop window was closed: hidden, with no window.
pub open spec fn dismissed(v: HudView) -> HudView {
    HudView { window_mode: false, visible: false, palette_live: false, window_id: None, ..v }
}

/// The effects that close the desktop window.
pub open spec fn dismiss_effects(v: HudView) -> Seq<EffectView> {
    let leave = seq![EffectView::ReleaseKeyboard, EffectView::DesktopApp(false)];
    match v.window_id {
        Some(id) => leave.push(EffectView::CloseWindow(id)),
        None => leave,
    }
}

/// The palette after the summon key: it toggles the overlay, and leaves a desktop
/// window as it is.
pub open spec fn toggled(v: HudView, m: Moment) -> HudView {
    if v.visible {
        hidden(v)
    } else {
        summoned(v, m)
    }
}

/// The effects of the summon key.
pub open spec fn toggle_effects(v: HudView, m: Moment) -> Seq<EffectView> {
    if v.visible && !v.window_mode {
        hide_effects(v)
    } else if v.visible {
        match v.window_id {
            Some(id) => seq![EffectView::GainFocus(id)],
            None => Seq::empty(),
        }
    } else {
        summon_effects(v, m)
    }
}

/// The palette after a choice in the tray.
pub open spec fn tray_done(v: HudView, m: Moment, action: TrayAction) -> HudView {
    match action {
        TrayAction::Show => summoned(v, m),
        TrayAction::Quit => v,
    }
}

/// The effects of a choice in the tray.
pub open spec fn tray_effects(v: HudView, m: Moment, action: TrayAction) -> Seq<EffectView> {
    match action {
        TrayAction::Show => summon_effects(v, m),
        TrayAction::Quit => seq![EffectView::Exit],
    }
}

/// The palette after its window was opened.
pub open spec fn window_known(v: HudView, id: Option<u64>) -> HudView {
    match id {
        Some(i) => HudView { window_id: Some(i), ..v },
        None => v,
    }
}

/// The effects after the palette's window was opened.
pub open spec fn window_effects(v: HudView, id: Option<u64>) -> Seq<EffectView> {
    match id {
        Some(i) => {
            let dress = seq![
                later_focus(0),
                EffectView::NativeChrome { id: i, overlay: !v.window_mode },
            ];
            if v.window_mode {
                dress
            } else {
                dress.push(EffectView::PlaceOverlay(i))
            }
        },
        None => Seq::empty(),
    }
}

/// The palette as the process starts, with its first window.
pub open spec fn started(hotkey_hint: Seq<char>, theme_name: Seq<char>, m: Moment) -> HudView {
    HudView {
        window_id: Some(m.fresh_window),
        ..boot_view(hotkey_hint, theme_name, m.now_ms)
    }
}

/// The effects that the process starts with: the overlay, a greeting and the list;
/// the keyboard too when the palette is to show itself.
pub open spec fn start_effects(v: HudView, m: Moment, show: bool) -> Seq<EffectView> {
    seq![
        EffectView::OpenWindow { kind: WindowKind::Palette, id: m.fresh_window },
        EffectView::Greet,
        EffectView::FetchList { quiet: false, since: 0 },
    ] + if show {
        summon_effects(v, m)
    } else {
        Seq::empty()
    }
}

impl Hud {
    /// Starts the palette.
    pub fn start(hotkey_hint: String, theme_name: String, m: Moment, show: bool) -> (r: (
        Hud,
        Vec<Effect>,
    ))
        ensures
            r.0@ == started(hotkey_hint@, theme_name@, m),
            effects_of(r.1@) == start_effects(r.0@, m, show),
            r.0.has_room(),
    {
        let mut hud: Hud = Hud::boot(hotkey_hint, theme_name, m.now_ms);
        hud.window_id = Some(m.fresh_window);
        let open: Vec<Effect> = and(
            and(
                only(Effect::OpenWindow { kind: WindowKind::Palette, id: m.fresh_window }),
                Effect::Greet,
            ),
            Effect::FetchList { quiet: false, since: 0 },
        );
        let shown: Vec<Effect> = if show {
            hud.show_palette(m)
        } else {
            nothing()
        };
        let fx: Vec<Effect> = both(open, shown);
        assert(effects_of(fx@) =~= start_effects(hud@, m, show));
        (hud, fx)
    }

    /// Brings the keyboard to the palette.
    pub fn on_focus_search(&self, attempt: u8) -> (fx: Vec<Effect>)
        ensures
            effects_of(fx@) == focus_effects(self@, attempt),
    {
        if !self.visible {
            return nothing();
        }
        let window: Vec<Effect> = match self.window_id {
            Some(id) => only(Effect::FocusWindow { id, attempt }),
            None => nothing(),
        };
        if self.note_compose_lock {
            window
        } else {
            and(window, Effect::FocusInput(Input::Search))
        }
    }

    /// Goes on after the window system was asked for the keyboard focus.
    pub fn after_x11_focus(&self, focused: bool, attempt: u8) -> (fx: Vec<Effect>)
        ensures
            effects_of(fx@) == retry_effects(focused, attempt),
    {
        if !focused && attempt < FOCUS_ATTEMPTS {
            only(delayed_focus(attempt + 1))
        } else {
            nothing()
        }
    }

    /// Turns the overlay into a desktop window.
    pub fn pop_out_window(&mut self, m: Moment) -> (fx: Vec<Effect>)
        ensures
            final(self)@ == popped_out(old(self)@, m),
            effects_of(fx@) == pop_out_effects(old(self)@, m),
    {
        if self.window_mode {
            return nothing();
        }
        let before: Option<u64> = self.window_id;
        self.window_mode = true;
        self.visible = true;
        self.palette_live = true;
        self.window_id = Some(m.fresh_window);
        let open: Vec<Effect> = and(
            and(only(Effect::DesktopApp(true)), Effect::ReleaseKeyboard),
            Effect::OpenWindow { kind: WindowKind::App, id: m.fresh_window },
        );
        let fx: Vec<Effect> = match before {
            Some(id) if id != m.fresh_window => and(open, Effect::CloseWindow(id)),
            _ => open,
        };
        assert(effects_of(fx@) =~= pop_out_effects(old(self)@, m));
        fx
    }

    /// Closes the desktop window.
    pub fn dismiss_window(&mut self) -> (fx: Vec<Effect>)
        ensures
            final(self)@ == dismissed(old(self)@),
            effects_of(fx@) == dismiss_effects(old(self)@),
    {
        let before: Option<u64> = self.window_id;
        self.window_mode = false;
        self.visible = false;
        self.palette_live = false;
        self.window_id = None;
        let leave: Vec<Effect> = and(only(Effect::ReleaseKeyboard), Effect::DesktopApp(false));
        let fx: Vec<Effect> = match before {
            Some(id) => and(leave, Effect::CloseWindow(id)),
            None => leave,
        };
        assert(effects_of(fx@) =~= dismiss_effects(old(self)@));
        fx
    }

    /// Takes the overlay away.
    pub fn hide_palette(&mut self) -> (fx: Vec<Effect>)
        ensures
            final(self)@ == hidden(old(self)@),
            effects_of(fx@) == hide_effects(old(self)@),
    {
        if self.window_mode {
            return nothing();
        }
        self.visible = false;
        self.palette_live = false;
        let fx: Vec<Effect> = match self.window_id {
            Some(id) => and(only(Effect::ReleaseKeyboard), Effect::HideWindow(id)),
            None => only(Effect::ReleaseKeyboard),
        };
        assert(effects_of(fx@) =~= hide_effects(old(self)@));
        fx
    }

    /// Brings the overlay.
    pub fn show_palette(&mut self, m: Moment) -> (fx: Vec<Effect>)
        ensures
            final(self)@ == summoned(old(self)@, m),
            effects_of(fx@) == summon_effects(old(self)@, m),
    {
        if overlay_already_mapped(self.visible, self.window_mode, self.window_id.is_some()) {
            return self.on_focus_search(0);
        }
        let before: Option<u64> = self.window_id;
        self.window_mode = false;
        self.visible = true;
        self.palette_live = true;
        self.last_live = m.now_ms;
        let shown: Vec<Effect> = match before {
            Some(id) => {
                and(
                    and(
                        and(only(Effect::SyncTheme), Effect::ShowOverlay(id)),
                        Effect::NativeChrome { id, overlay: true },
                    ),
                    Effect::PlaceOverlay(id),
                )
            },
            None => {
                self.window_id = Some(m.fresh_window);
                and(
                    only(Effect::SyncTheme),
                    Effect::OpenWindow { kind: WindowKind::Palette, id: m.fresh_window },
                )
            },
        };
        let fx: Vec<Effect> = and(
            and(shown, delayed_focus(0)),
            Effect::FetchList { quiet: true, since: self.catalog_revision },
        );
        assert(effects_of(fx@) =~= summon_effects(old(self)@, m));
        fx
    }

    /// Answers the summon key.
    pub fn on_hotkey(&mut self, m: Moment) -> (fx: Vec<Effect>)
        ensures
            final(self)@ == toggled(old(self)@, m),
            effects_of(fx@) == toggle_effects(old(self)@, m),
    {
        if self.visible && !self.window_mode {
            self.hide_palette()
        } else if self.visible {
            match self.window_id {
                Some(id) => only(Effect::GainFocus(id)),
                None => nothing(),
            }
        } else {
            self.show_palette(m)
        }
    }

    /// Answers a choice in the tray.
    pub fn on_tray(&mut self, m: Moment, action: TrayAction) -> (fx: Vec<Effect>)
        ensures
            final(self)@ == tray_done(old(self)@, m, action),
            effects_of(fx@) == tray_effects(old(self)@, m, action),
    {
        match action {
            TrayAction::Show => self.show_palette(m),
            TrayAction::Quit => only(Effect::Exit),
        }
    }

    /// Takes note of the palette's window.
    pub fn on_window(&mut self, id: Option<u64>) -> (fx: Vec<Effect>)
        ensures
            final(self)@ == window_known(old(self)@, id),
            effects_of(fx@) == window_effects(old(self)@, id),
    {
        let id: u64 = match id {
            Some(i) => i,
            None => {
                return nothing();
            },
        };
        self.window_id = Some(id);
        let dress: Vec<Effect> = and(
            only(delayed_focus(0)),
            Effect::NativeChrome { id, overlay: !self.window_mode },
        );
        let fx: Vec<Effect> = if self.window_mode {
            dress
        } else {
            and(dress, Effect::PlaceOverlay(id))
        };
        assert(effects_of(fx@) =~= window_effects(old(self)@, Some(id)));
        fx
    }
}

} // verus!
