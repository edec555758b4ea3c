//! What the window is for: when the palette is an overlay or a desktop window, and
//! what is asked of the desktop for it.

use vstd::prelude::*;

use crate::domain::{down_says, Domain};
use crate::event::{EffectView, HudEvent, HudKey, Message, Moment, WindowKind};
use crate::hud::HudView;
use crate::model::{KindFilter, Tab};
use crate::pane_laws::{keyboard_moves, lemma_keyboard_moves};
use crate::tray::TrayAction;
use crate::update::steps;
use crate::window::{
    look_of, start_effects, started, summon_effects, summoned, WindowLevel, WindowPlace,
};

verus! {

// ---------------------------------------------------------------------------
// Terms
// ---------------------------------------------------------------------------

/// The overlay is on the screen.
pub open spec fn on_screen(v: HudView) -> bool {
    v.visible && !v.window_mode && v.window_id is Some
}

/// The palette is brought as the overlay. One that is on the screen only gets the
/// keyboard. Any other one comes back in the window that it has, dressed as the
/// overlay, or in a new one; its look and its list are fresh, and the keyboard
/// follows.
pub open spec fn brings_overlay(
    pre: HudView,
    m: Moment,
    post: HudView,
    fx: Seq<EffectView>,
) -> bool {
    let keyboard = EffectView::DelayedFocus { attempt: 0, wait_ms: 30 };
    let list = EffectView::FetchList { quiet: true, since: pre.catalog_revision };
    &&& on_screen(pre) ==> post == pre && keyboard_moves(pre, 0, fx)
    &&& !on_screen(pre) ==> post == (HudView {
        visible: true,
        palette_live: true,
        window_mode: false,
        last_live: m.now_ms,
        window_id: post.window_id,
        ..pre
    })
    &&& !on_screen(pre) && pre.window_id is Some ==> {
        let id = pre.window_id->0;
        &&& post.window_id == Some(id)
        &&& fx == seq![
            EffectView::SyncTheme,
            EffectView::ShowOverlay(id),
            EffectView::NativeChrome { id, overlay: true },
            EffectView::PlaceOverlay(id),
            keyboard,
            list,
        ]
    }
    &&& !on_screen(pre) && pre.window_id is None ==> {
        &&& post.window_id == Some(m.fresh_window)
        &&& fx == seq![
            EffectView::SyncTheme,
            EffectView::OpenWindow { kind: WindowKind::Palette, id: m.fresh_window },
            keyboard,
            list,
        ]
    }
}

pub proof fn lemma_brings_overlay(pre: HudView, m: Moment)
    ensures
        brings_overlay(pre, m, summoned(pre, m), summon_effects(pre, m)),
{
    lemma_keyboard_moves(pre, 0);
}

/// The overlay is hidden and gives the keyboard back; its window stays. A desktop
/// window is left as it is.
pub open spec fn hides_overlay(pre: HudView, post: HudView, fx: Seq<EffectView>) -> bool {
    &&& pre.window_mode ==> post == pre && fx.len() == 0
    &&& !pre.window_mode ==> post == (HudView { visible: false, palette_live: false, ..pre })
    &&& !pre.window_mode && pre.window_id is Some ==> fx == seq![
        EffectView::ReleaseKeyboard,
        EffectView::HideWindow(pre.window_id->0),
    ]
    &&& !pre.window_mode && pre.window_id is None ==> fx == seq![EffectView::ReleaseKeyboard]
}

// ---------------------------------------------------------------------------
// Coming and going
// ---------------------------------------------------------------------------

/// The tray shows the palette or ends the process, the summon key brings the palette
/// when it is hidden, hides it as the overlay, and fronts it as a desktop window.
/// Escape, and a request to hide, hide the overlay.
pub proof fn law_the_palette_comes_and_goes<D: Domain>(
    d: &D,
    pre: HudView,
    m: Moment,
    message: Message,
    post: HudView,
    fx: Seq<EffectView>,
)
    requires
        steps(d, pre, m, message, post, fx),
    ensures
        match message {
            Message::Tray(TrayAction::Show) => brings_overlay(pre, m, post, fx),
            Message::Tray(TrayAction::Quit) => post == pre && fx == seq![EffectView::Exit],
            Message::Hide => hides_overlay(pre, post, fx),
            Message::RawEvent(HudEvent::KeyPressed { key: HudKey::Escape, .. }) => hides_overlay(
                pre,
                post,
                fx,
            ),
            Message::Hotkey => {
                &&& !pre.visible ==> brings_overlay(pre, m, post, fx)
                &&& pre.visible && !pre.window_mode ==> hides_overlay(pre, post, fx)
                &&& pre.visible && pre.window_mode ==> post == pre
                &&& pre.visible && pre.window_mode && pre.window_id is Some ==> fx == seq![
                    EffectView::GainFocus(pre.window_id->0),
                ]
                &&& pre.visible && pre.window_mode && pre.window_id is None ==> fx.len() == 0
            },
            _ => true,
        },
{
    lemma_brings_overlay(pre, m);
}

/// A request to close the desktop window closes it and leaves the palette hidden, with
/// no window and out of the desktop's applications; a request to close the overlay
/// hides it.
pub proof fn law_a_window_is_closed<D: Domain>(
    d: &D,
    pre: HudView,
    m: Moment,
    post: HudView,
    fx: Seq<EffectView>,
)
    requires
        steps(d, pre, m, Message::RawEvent(HudEvent::CloseRequested), post, fx),
    ensures
        !pre.window_mode ==> hides_overlay(pre, post, fx),
        pre.window_mode ==> post == (HudView {
            window_mode: false,
            visible: false,
            palette_live: false,
            window_id: None,
            ..pre
        }),
        pre.window_mode && pre.window_id is Some ==> fx == seq![
            EffectView::ReleaseKeyboard,
            EffectView::DesktopApp(false),
            EffectView::CloseWindow(pre.window_id->0),
        ],
        pre.window_mode && pre.window_id is None ==> fx == seq![
            EffectView::ReleaseKeyboard,
            EffectView::DesktopApp(false),
        ],
{
}

/// The palette becomes a desktop window: it appears among the desktop's applications,
/// gives the keyboard back, opens a new window and closes the old one. A desktop
/// window stays as it is.
pub proof fn law_the_palette_pops_out<D: Domain>(
    d: &D,
    pre: HudView,
    m: Moment,
    post: HudView,
    fx: Seq<EffectView>,
)
    requires
        steps(d, pre, m, Message::PopOutWindow, post, fx),
    ensures
        pre.window_mode ==> post == pre && fx.len() == 0,
        !pre.window_mode ==> {
            let opens = seq![
                EffectView::DesktopApp(true),
                EffectView::ReleaseKeyboard,
                EffectView::OpenWindow { kind: WindowKind::App, id: m.fresh_window },
            ];
            let old = pre.window_id is Some && pre.window_id != Some(m.fresh_window);
            &&& post == (HudView {
                window_mode: true,
                visible: true,
                palette_live: true,
                window_id: Some(m.fresh_window),
                ..pre
            })
            &&& old ==> fx == opens + seq![EffectView::CloseWindow(pre.window_id->0)]
            &&& !old ==> fx == opens
        },
{
}

/// A window that was opened is the palette's from then on. It gets the keyboard and
/// the looks of what it is; the overlay is put in its place too.
pub proof fn law_a_window_is_opened<D: Domain>(
    d: &D,
    pre: HudView,
    m: Moment,
    id: u64,
    post: HudView,
    fx: Seq<EffectView>,
)
    requires
        steps(d, pre, m, Message::WindowId(Some(id)), post, fx),
    ensures
        post == (HudView { window_id: Some(id), ..pre }),
        pre.window_mode ==> fx == seq![
            EffectView::DelayedFocus { attempt: 0, wait_ms: 30 },
            EffectView::NativeChrome { id, overlay: false },
        ],
        !pre.window_mode ==> fx == seq![
            EffectView::DelayedFocus { attempt: 0, wait_ms: 30 },
            EffectView::NativeChrome { id, overlay: true },
            EffectView::PlaceOverlay(id),
        ],
{
}

// ---------------------------------------------------------------------------
// Keyboard, status line, start
// ---------------------------------------------------------------------------

/// The keyboard moves to a visible palette when that is asked for, and when the mouse
/// is pressed in it. The window system is asked again, ever later, when it did not
/// give the keyboard, at most until the eighth further attempt.
pub proof fn law_the_keyboard_follows<D: Domain>(
    d: &D,
    pre: HudView,
    m: Moment,
    message: Message,
    post: HudView,
    fx: Seq<EffectView>,
)
    requires
        steps(d, pre, m, message, post, fx),
    ensures
        match message {
            Message::FocusSearch(attempt) => post == pre && keyboard_moves(pre, attempt, fx),
            Message::RawEvent(HudEvent::MousePressed) => post == pre && keyboard_moves(pre, 0, fx),
            Message::RawEvent(HudEvent::Other) => post == pre && fx.len() == 0,
            Message::X11Focus { focused, attempt } => {
                &&& post == pre
                &&& focused || attempt >= 8 ==> fx.len() == 0
                &&& !focused && attempt < 8 ==> fx == seq![
                    EffectView::DelayedFocus {
                        attempt: (attempt + 1) as u8,
                        wait_ms: 40 + (attempt + 1) * 20,
                    },
                ]
            },
            _ => true,
        },
{
    lemma_keyboard_moves(pre, 0);
    if let Message::FocusSearch(attempt) = message {
        lemma_keyboard_moves(pre, attempt);
    }
}

/// The status line names the socket that answered the greeting, or says what went
/// wrong, which is logged; it shows the address of a link.
pub proof fn law_the_status_line_tells<D: Domain>(
    d: &D,
    pre: HudView,
    m: Moment,
    message: Message,
    post: HudView,
    fx: Seq<EffectView>,
)
    requires
        steps(d, pre, m, message, post, fx),
    ensures
        match message {
            Message::Inited(Ok(name)) => fx.len() == 0 && post == (HudView {
                status: "ready · "@ + name@,
                status_err: false,
                ..pre
            }),
            Message::Inited(Err(e)) => {
                &&& fx == seq![EffectView::LogError(e@)]
                &&& post == HudView { status: post.status, status_err: true, ..pre }
                &&& down_says(d, e@, post.status)
            },
            Message::MdLink(url) => fx.len() == 0 && post == (HudView {
                status: url@,
                status_err: false,
                ..pre
            }),
            _ => true,
        },
{
}

/// The palette starts visible, as the overlay, with its first window, nothing loaded
/// and nothing typed. The window is opened, control greeted and the whole list asked
/// for; the palette also shows itself when that is set.
pub proof fn law_how_it_starts(
    hotkey_hint: Seq<char>,
    theme_name: Seq<char>,
    m: Moment,
    show: bool,
) -> (rest: Seq<EffectView>)
    ensures
        ({
            let v = started(hotkey_hint, theme_name, m);
            let fx = start_effects(v, m, show);
            &&& v.window_id == Some(m.fresh_window)
            &&& v.visible && v.palette_live && !v.window_mode
            &&& v.hotkey_hint == hotkey_hint && v.theme_name == theme_name
            &&& v.last_live == m.now_ms
            &&& v.status == "connecting…"@ && !v.status_err
            &&& v.query.len() == 0 && v.all_sessions.len() == 0 && v.sessions.len() == 0
            &&& v.active == 0 && v.tab == Tab::Overview && v.catalog_revision == 0
            &&& v.overview is None && v.overview_sid.len() == 0 && v.overview_pending.len() == 0
            &&& v.timeline.len() == 0 && v.timeline_sid.len() == 0 && v.timeline_total == 0
            &&& v.timeline_next == 0 && !v.timeline_loading && v.timeline_query.len() == 0
            &&& v.timeline_kind == KindFilter::All && v.timeline_focus is None
            &&& v.overview_gen == 0 && v.timeline_gen == 0 && v.tl_filter.len() == 0
            &&& v.turn_marks.dom().len() == 0 && v.event_marks.dom().len() == 0
            &&& crate::note_laws::is_empty_draft(v.note_draft)
            &&& !v.note_compose_lock && !v.note_saving && !v.typing_notes
            &&& v.note_delete_armed.len() == 0 && v.note_delete_until is None
            &&& fx == seq![
                EffectView::OpenWindow { kind: WindowKind::Palette, id: m.fresh_window },
                EffectView::Greet,
                EffectView::FetchList { quiet: false, since: 0 },
            ] + rest
            &&& show ==> keyboard_moves(v, 0, rest)
            &&& !show ==> rest.len() == 0
        }),
{
    let v = started(hotkey_hint, theme_name, m);
    lemma_brings_overlay(v, m);
    if show {
        summon_effects(v, m)
    } else {
        seq![]
    }
}

/// The overlay is a card of one size, without a frame, above the other windows and
/// out of a tiler's reach. The desktop window is an ordinary one that can be resized,
/// but not to less than its smallest size. Closing neither ends the process.
pub proof fn law_how_windows_look()
    ensures
        ({
            let card = look_of(WindowKind::Palette);
            &&& card.size.width == 780 && card.size.height == 560
            &&& card.min_size == Some(card.size) && card.max_size == Some(card.size)
            &&& !card.resizable && !card.decorations && card.visible && card.icon
            &&& card.level == WindowLevel::AlwaysOnTop && card.place == WindowPlace::Centered
            &&& card.override_redirect && !card.exit_on_close_request
        }),
        ({
            let win = look_of(WindowKind::App);
            &&& win.size.width == 980 && win.size.height == 700
            &&& win.min_size is Some && win.max_size is None
            &&& win.min_size->0.width == 640 && win.min_size->0.height == 440
            &&& win.resizable && win.decorations && win.visible && win.icon
            &&& win.level == WindowLevel::Normal && win.place == WindowPlace::Default
            &&& !win.override_redirect && !win.exit_on_close_request
        }),
{
}

} // verus!
