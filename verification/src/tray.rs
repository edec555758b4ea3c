//! The tray item of the long-lived palette process.
//!
//! A left click and the menu entry that shows the palette ask for the same
//! thing as the summon hotkey. The other menu entry ends this process only.

use vstd::prelude::*;
use vstd::string::*;

use crate::text;
use crate::text::{lowered, trimmed};

verus! {

pub const TRAY_ID: &'static str = "dev.indynull.groket-hud";

pub const TRAY_TOOLTIP: &'static str = "Groket HUD";

pub const MENU_SHOW_ID: &'static str = "show";

pub const MENU_QUIT_ID: &'static str = "quit";

pub const MENU_SHOW_LABEL: &'static str = "Show HUD";

pub const MENU_QUIT_LABEL: &'static str = "Quit Groket HUD";

pub const SHOW_NOTIFY: &'static str = "hud/show";

pub const SHOW_ON_START_ENV: &'static str = "GROKET_HUD_SHOW_ON_START";

/// How many tray actions may wait for the palette.
pub const TRAY_QUEUE: usize = 16;

/// What the operator asked the palette to do.
#[derive(Debug, Clone, Copy, PartialEq, Eq, Structural)]
pub enum TrayAction {
    Show,
    Quit,
}

/// Mouse button on a tray click.
#[derive(Debug, Clone, Copy, PartialEq, Eq, Structural)]
pub enum TrayButton {
    Left,
    Right,
    Other,
}

/// Button edge for a tray click.
#[derive(Debug, Clone, Copy, PartialEq, Eq, Structural)]
pub enum TrayClickState {
    Down,
    Up,
}

/// Why there is no tray item.
#[derive(Debug)]
pub enum TrayError {
    BadIcon,
    Host(String),
}

impl TrayError {
    /// The text shown for this error.
    pub fn to_text(&self) -> (r: String)
        ensures
            r@ == match self {
                TrayError::BadIcon => "embedded tray icon is not a usable PNG"@,
                TrayError::Host(m) => m@,
            },
    {
        match self {
            TrayError::BadIcon => "embedded tray icon is not a usable PNG".to_string(),
            TrayError::Host(m) => m.clone(),
        }
    }
}

/// The action of the menu item `id`.
pub open spec fn menu_action(id: Seq<char>) -> Option<TrayAction> {
    if id == MENU_SHOW_ID@ {
        Some(TrayAction::Show)
    } else if id == MENU_QUIT_ID@ {
        Some(TrayAction::Quit)
    } else {
        None
    }
}

/// Map a menu item id to an action.
pub fn action_from_menu_id(id: &str) -> (r: Option<TrayAction>)
    ensures
        r == menu_action(id@),
{
    if text::same(id, MENU_SHOW_ID) {
        Some(TrayAction::Show)
    } else if text::same(id, MENU_QUIT_ID) {
        Some(TrayAction::Quit)
    } else {
        None
    }
}

/// Left-button release shows the palette. Other clicks do not.
pub fn action_from_click(button: TrayButton, state: TrayClickState) -> (r: Option<TrayAction>)
    ensures
        r == if button == TrayButton::Left && state == TrayClickState::Up {
            Some(TrayAction::Show)
        } else {
            None
        },
{
    match (button, state) {
        (TrayButton::Left, TrayClickState::Up) => Some(TrayAction::Show),
        _ => None,
    }
}

/// The action of a control notification.
pub open spec fn notify_action(method: Seq<char>) -> Option<TrayAction> {
    if method == SHOW_NOTIFY@ {
        Some(TrayAction::Show)
    } else {
        None
    }
}

/// Control notification that reveals an already-running palette.
pub fn action_from_notify(method: &str) -> (r: Option<TrayAction>)
    ensures
        r == notify_action(method@),
{
    if text::same(method, SHOW_NOTIFY) {
        Some(TrayAction::Show)
    } else {
        None
    }
}

/// `1`, `true` or `yes`, whatever their case and the white space around them.
pub open spec fn flag_set(s: Seq<char>) -> bool {
    let v = lowered(trimmed(s));
    v == "1"@ || v == "true"@ || v == "yes"@
}

/// True for `1`, `true` and `yes` (case-insensitive).
pub fn env_flag_enabled(value: Option<&str>) -> (r: bool)
    ensures
        r == match value {
            Some(s) => flag_set(s@),
            None => false,
        },
{
    match value {
        Some(s) => {
            let v: String = text::lower(text::trim(s));
            let v: &str = v.as_str();
            text::same(v, "1") || text::same(v, "true") || text::same(v, "yes")
        },
        None => false,
    }
}

/// The case of a flag does not count.
pub proof fn law_flags_ignore_case(s: Seq<char>)
    ensures
        flag_set(lowered(s)) == flag_set(s),
{
    text::law_lowering_keeps_to_letters(s);
    text::law_lowering_keeps_to_letters(trimmed(s));
}

/// An entry of the tray menu.
pub struct MenuEntry {
    pub id: &'static str,
    pub label: &'static str,
    pub action: TrayAction,
}

/// The tray menu, from top to bottom: show the palette, then quit.
pub fn menu() -> (r: Vec<MenuEntry>)
    ensures
        r@.len() == 2,
        r@[0].id@ == MENU_SHOW_ID@,
        r@[0].label@ == MENU_SHOW_LABEL@,
        r@[1].id@ == MENU_QUIT_ID@,
        r@[1].label@ == MENU_QUIT_LABEL@,
        forall|i: int|
            0 <= i < r@.len() ==> menu_action((#[trigger] r@[i]).id@) == Some(r@[i].action),
{
    proof {
        reveal_strlit("show");
        reveal_strlit("quit");
        assert("show"@[0] != "quit"@[0]);
    }
    let mut out: Vec<MenuEntry> = Vec::new();
    out.push(
        MenuEntry { id: MENU_SHOW_ID, label: MENU_SHOW_LABEL, action: TrayAction::Show },
    );
    out.push(
        MenuEntry { id: MENU_QUIT_ID, label: MENU_QUIT_LABEL, action: TrayAction::Quit },
    );
    out
}

// ---------------------------------------------------------------------------
// The icon
// ---------------------------------------------------------------------------

/// Why `iced` could not make an icon.
#[verifier::external_type_specification]
#[verifier::external_body]
pub struct ExIconError(iced::window::icon::Error);

/// `iced::window::icon::from_file_data` with a guessed format, and
/// `Icon::into_raw`: the RGBA bytes, the width and the height of a picture. What
/// the bytes are taken for depends on the decoders that are registered in the
/// process, so nothing is said of the result. That the call returns on bytes that
/// are no picture rests on those decoders too.
#[verifier::external_body]
fn decode_icon(data: &[u8]) -> (r: Result<(Vec<u8>, u32, u32), iced::window::icon::Error>)
{
    iced::window::icon::from_file_data(data, None).map(|icon| icon.into_raw()).map(
        |(rgba, size)| (rgba, size.width, size.height),
    )
}

/// `r` is what one call of [`decode_icon`] gave for `data`.
pub closed spec fn told_icon(
    data: &[u8],
    r: Result<(Vec<u8>, u32, u32), iced::window::icon::Error>,
) -> bool {
    call_ensures(decode_icon, (data,), r)
}

/// A picture with pixels, and four bytes for each of them.
pub open spec fn usable_icon(rgba: Seq<u8>, width: u32, height: u32) -> bool {
    width > 0 && height > 0 && rgba.len() == width * height * 4
}

/// The pixels of a decoded icon, unless it is not usable.
pub fn check_icon(rgba: Vec<u8>, width: u32, height: u32) -> (r: Result<
    (Vec<u8>, u32, u32),
    TrayError,
>)
    ensures
        usable_icon(rgba@, width, height) ==> r == Ok::<(Vec<u8>, u32, u32), TrayError>(
            (rgba, width, height),
        ),
        !usable_icon(rgba@, width, height) ==> r == Err::<(Vec<u8>, u32, u32), TrayError>(
            TrayError::BadIcon,
        ),
{
    let w: u128 = width as u128;
    let h: u128 = height as u128;
    assert(w * h <= 0xffff_ffff * 0xffff_ffff) by (nonlinear_arith)
        requires
            w <= 0xffff_ffff,
            h <= 0xffff_ffff,
    ;
    assert(w * h * 4 == width * height * 4) by (nonlinear_arith)
        requires
            w == width,
            h == height,
    ;
    if width == 0 || height == 0 || rgba.len() as u128 != w * h * 4 {
        return Err(TrayError::BadIcon);
    }
    Ok((rgba, width, height))
}

/// Decode the packaged tray image to RGBA.
pub fn decode_tray_rgba(png: &[u8]) -> (r: Result<(Vec<u8>, u32, u32), TrayError>)
    ensures
        exists|d: Result<(Vec<u8>, u32, u32), iced::window::icon::Error>| #[trigger]
            told_icon(png, d) && match d {
                Ok((rgba, width, height)) if usable_icon(rgba@, width, height) => r == Ok::<
                    (Vec<u8>, u32, u32),
                    TrayError,
                >((rgba, width, height)),
                _ => r == Err::<(Vec<u8>, u32, u32), TrayError>(TrayError::BadIcon),
            },
{
    let d: Result<(Vec<u8>, u32, u32), iced::window::icon::Error> = decode_icon(png);
    assert(told_icon(png, d));
    match d {
        Ok((rgba, width, height)) => check_icon(rgba, width, height),
        Err(_) => Err(TrayError::BadIcon),
    }
}

/// Byte `i` of the ARGB form of RGBA bytes: in each whole pixel the last byte
/// moves to the front. Bytes after the last whole pixel stay.
pub open spec fn argb_byte(rgba: Seq<u8>, i: int) -> u8 {
    let start = i - i % 4;
    if start + 4 > rgba.len() {
        rgba[i]
    } else if i % 4 == 0 {
        rgba[start + 3]
    } else {
        rgba[i - 1]
    }
}

/// The ARGB form of RGBA bytes.
pub open spec fn argb_of(rgba: Seq<u8>) -> Seq<u8> {
    Seq::new(rgba.len(), |i: int| argb_byte(rgba, i))
}

/// RGBA bytes to network-order ARGB32 (the pixmap format of the tray host).
pub fn rgba_to_argb(rgba: &[u8]) -> (r: Vec<u8>)
    ensures
        r@ == argb_of(rgba@),
{
    let n: usize = rgba.len();
    let mut out: Vec<u8> = Vec::new();
    let mut i: usize = 0;
    while i < n
        invariant
            n == rgba@.len(),
            i <= n,
            out@.len() == i,
            forall|k: int| 0 <= k < i ==> #[trigger] out@[k] == argb_byte(rgba@, k),
        decreases n - i,
    {
        let start: usize = i - i % 4;
        let b: u8 = if n - start < 4 {
            rgba[i]
        } else if i % 4 == 0 {
            rgba[start + 3]
        } else {
            rgba[i - 1]
        };
        out.push(b);
        i = i + 1;
    }
    assert(out@ =~= argb_of(rgba@));
    out
}

/// Turning the channels of a picture four times gives the picture back.
pub proof fn law_four_turns_restore_the_picture(rgba: Seq<u8>)
    ensures
        argb_of(argb_of(argb_of(argb_of(rgba)))) == rgba,
        argb_of(rgba).len() == rgba.len(),
{
    let a = argb_of(rgba);
    let b = argb_of(a);
    let c = argb_of(b);
    let d = argb_of(c);
    assert forall|i: int| 0 <= i < rgba.len() implies d[i] == rgba[i] by {
        let s = i - i % 4;
        if s + 4 <= rgba.len() {
            assert(s % 4 == 0);
            assert((s + 1) % 4 == 1 && (s + 2) % 4 == 2 && (s + 3) % 4 == 3);
            assert(a[s] == rgba[s + 3] && a[s + 1] == rgba[s] && a[s + 2] == rgba[s + 1] && a[s + 3]
                == rgba[s + 2]);
            assert(b[s] == a[s + 3] && b[s + 1] == a[s] && b[s + 2] == a[s + 1] && b[s + 3] == a[s
                + 2]);
            assert(c[s] == b[s + 3] && c[s + 1] == b[s] && c[s + 2] == b[s + 1] && c[s + 3] == b[s
                + 2]);
            assert(d[s] == c[s + 3] && d[s + 1] == c[s] && d[s + 2] == c[s + 1] && d[s + 3] == c[s
                + 2]);
            assert(i == s || i == s + 1 || i == s + 2 || i == s + 3);
        } else {
            assert(a[i] == rgba[i]);
            assert(b[i] == a[i]);
            assert(c[i] == b[i]);
        }
    }
    assert(d =~= rgba);
}

/// The picture as the tray host takes it: its width, its height and its pixels in
/// ARGB, unless a side is too long for the host.
pub fn tray_pixmap(rgba: &[u8], width: u32, height: u32) -> (r: Result<
    (i32, i32, Vec<u8>),
    TrayError,
>)
    ensures
        if width <= i32::MAX && height <= i32::MAX {
            r matches Ok((w, h, argb)) && w == width && h == height && argb@ == argb_of(rgba@)
        } else {
            r == Err::<(i32, i32, Vec<u8>), TrayError>(TrayError::BadIcon)
        },
{
    let longest: u32 = 0x7fff_ffff;
    if width > longest || height > longest {
        return Err(TrayError::BadIcon);
    }
    Ok((width as i32, height as i32, rgba_to_argb(rgba)))
}

} // verus!
