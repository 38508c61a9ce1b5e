//! The tray icon and its menu: colors, label, tooltip, when to redraw, where
//! the menu opens, and how opening it is retried.
use vstd::prelude::*;
use crate::config::tray::TrayConfig;
use crate::text::{
    all_hexdigits, append_str, are_all_hexdigits, chars_of, copy_str, decimal_string,
    decimal_text, is_char, replace_chars, spec_is_ascii_hexdigit, spec_replace, trim_start_by,
    trim_start_char,
};

verus! {

// ========== COLORS ==========

/// The value of an ASCII hex digit.
pub open spec fn hex_value(c: char) -> nat {
    if '0' <= c && c <= '9' {
        (c as u32 - 48) as nat
    } else if 'a' <= c && c <= 'f' {
        (c as u32 - 87) as nat
    } else {
        (c as u32 - 55) as nat
    }
}

/// An RGBA color from `#RRGGBB` (leading `#`s dropped); mid gray when the
/// text is not six hex digits.
pub open spec fn spec_hex_to_rgba(hex: Seq<char>) -> [u8; 4] {
    let h = trim_start_by(hex, is_char('#'));
    if h.len() == 6 && all_hexdigits(h) {
        [
            (16 * hex_value(h[0]) + hex_value(h[1])) as u8,
            (16 * hex_value(h[2]) + hex_value(h[3])) as u8,
            (16 * hex_value(h[4]) + hex_value(h[5])) as u8,
            255,
        ]
    } else {
        [128, 128, 128, 255]
    }
}

fn hex_digit_value(c: char) -> (r: u8)
    requires
        spec_is_ascii_hexdigit(c),
    ensures
        r == hex_value(c),
{
    if '0' <= c && c <= '9' {
        (c as u8) - 48
    } else if 'a' <= c && c <= 'f' {
        (c as u8) - 87
    } else {
        (c as u8) - 55
    }
}

/// The RGBA color of a hex color text (see `spec_hex_to_rgba`).
pub fn hex_to_rgba(hex: &str) -> (r: [u8; 4])
    ensures
        r@ == spec_hex_to_rgba(hex@)@,
{
    let h = trim_start_char(&chars_of(hex), '#');
    if h.len() == 6 && are_all_hexdigits(&h) {
        proof {
            assert(spec_is_ascii_hexdigit(h@[0]) && spec_is_ascii_hexdigit(h@[1]));
            assert(spec_is_ascii_hexdigit(h@[2]) && spec_is_ascii_hexdigit(h@[3]));
            assert(spec_is_ascii_hexdigit(h@[4]) && spec_is_ascii_hexdigit(h@[5]));
        }
        let r = 16 * hex_digit_value(h[0]) + hex_digit_value(h[1]);
        let g = 16 * hex_digit_value(h[2]) + hex_digit_value(h[3]);
        let b = 16 * hex_digit_value(h[4]) + hex_digit_value(h[5]);
        [r, g, b, 255]
    } else {
        [128, 128, 128, 255]
    }
}

/// The background color of the icon at a memory load: the danger color from
/// the danger level on, else the warning color from the warning level on,
/// else the normal background.
pub open spec fn background_for(tray: TrayConfig, percent: u8) -> Seq<char> {
    if percent >= tray.danger_level {
        tray.danger_color_hex@
    } else if percent >= tray.warning_level {
        tray.warning_color_hex@
    } else {
        tray.background_color_hex@
    }
}

/// The background color of the icon at a memory load (see `background_for`).
pub fn icon_background(tray: &TrayConfig, percent: u8) -> (r: &str)
    ensures
        r@ == background_for(*tray, percent),
{
    if percent >= tray.danger_level {
        tray.danger_color_hex.as_str()
    } else if percent >= tray.warning_level {
        tray.warning_color_hex.as_str()
    } else {
        tray.background_color_hex.as_str()
    }
}

/// The number drawn on the icon: the load, at most 99 (two digits).
pub fn icon_label(percent: u8) -> (r: String)
    ensures
        r@ == decimal_text((if percent > 99 { 99 } else { percent }) as nat),
{
    let v: u8 = if percent > 99 { 99 } else { percent };
    decimal_string(v as u64)
}

/// The tooltip of the icon: the translated `RAM: %d%` with `%d%` replaced by
/// the load; `RAM: <load>%` when the translation is empty.
pub open spec fn tooltip_text(translated: Seq<char>, percent: u8) -> Seq<char> {
    if translated.len() == 0 {
        "RAM: "@ + decimal_text(percent as nat) + "%"@
    } else {
        spec_replace(translated, "%d%"@, decimal_text(percent as nat))
    }
}

/// The tooltip of the icon (see `tooltip_text`).
pub fn tray_tooltip(translated: &str, percent: u8) -> (r: String)
    ensures
        r@ == tooltip_text(translated@, percent),
{
    let p = decimal_string(percent as u64);
    if translated.is_empty() {
        let mut r = copy_str("RAM: ");
        append_str(&mut r, p.as_str());
        append_str(&mut r, "%");
        r
    } else {
        let pat = chars_of("%d%");
        proof {
            reveal_strlit("%d%");
        }
        let t = chars_of(translated);
        let v = chars_of(p.as_str());
        crate::text::string_of(&replace_chars(&t, &pat, &v))
    }
}

/// The load shown on the icon: the used percentage, at most 100.
pub open spec fn shown_load(used_percentage: u8) -> u8 {
    if used_percentage > 100 { 100 } else { used_percentage }
}

/// Whether the icon is redrawn: on the first reading, or when the shown load
/// changed (loads are whole percents, so any change exceeds half a percent).
pub open spec fn spec_needs_redraw(last: Option<u8>, used_percentage: u8) -> bool {
    match last {
        None => true,
        Some(l) => l != shown_load(used_percentage),
    }
}

/// Decides a redraw of the icon; gives the load to draw, if any.
pub fn redraw_load(last: Option<u8>, used_percentage: u8) -> (r: Option<u8>)
    ensures
        r == (if spec_needs_redraw(last, used_percentage) {
            Some(shown_load(used_percentage))
        } else {
            None
        }),
{
    let cur: u8 = if used_percentage > 100 { 100 } else { used_percentage };
    match last {
        None => Some(cur),
        Some(l) => if l != cur {
            Some(cur)
        } else {
            None
        },
    }
}

// ========== MENU POSITION ==========

/// A screen rectangle: its top-left corner and its size in pixels.
#[derive(Clone, Copy, Debug, PartialEq, Eq, Structural)]
pub struct ScreenRect {
    pub x: i32,
    pub y: i32,
    pub width: i32,
    pub height: i32,
}

/// The rectangle holds the point (left and top edges included).
pub open spec fn rect_holds(m: ScreenRect, x: i32, y: i32) -> bool {
    m.x <= x && x < m.x + m.width && m.y <= y && y < m.y + m.height
}

/// The index of the first monitor that holds the cursor.
pub fn monitor_with_cursor(monitors: &Vec<ScreenRect>, x: i32, y: i32) -> (r: Option<usize>)
    ensures
        match r {
            Some(i) => i < monitors@.len() && rect_holds(monitors@[i as int], x, y) && forall|j: int|
                0 <= j < i ==> !rect_holds(#[trigger] monitors@[j], x, y),
            None => forall|j: int| 0 <= j < monitors@.len() ==> !rect_holds(#[trigger] monitors@[j], x, y),
        },
{
    let mut i: usize = 0;
    while i < monitors.len()
        invariant
            i <= monitors.len(),
            forall|j: int| 0 <= j < i ==> !rect_holds(#[trigger] monitors@[j], x, y),
        decreases monitors.len() - i,
    {
        let m = monitors[i];
        let (mx, my) = (m.x as i64, m.y as i64);
        let (xx, yy) = (x as i64, y as i64);
        if xx >= mx && xx < mx + m.width as i64 && yy >= my && yy < my + m.height as i64 {
            return Some(i);
        }
        i = i + 1;
    }
    None
}

/// The cursor position assumed when it cannot be read: 50 pixels inside the
/// bottom-right corner of the primary monitor.
pub fn fallback_cursor(primary: ScreenRect) -> (r: (i64, i64))
    ensures
        r.0 == primary.x + primary.width - 50,
        r.1 == primary.y + primary.height - 50,
{
    (
        primary.x as i64 + primary.width as i64 - 50,
        primary.y as i64 + primary.height as i64 - 50,
    )
}

/// `max(v, lo)` then `min(.., hi)` (the upper bound wins when they cross).
pub open spec fn max_then_min(v: int, lo: int, hi: int) -> int {
    let a = if v > lo { v } else { lo };
    if a < hi { a } else { hi }
}

/// Where the tray menu opens, given its size, the cursor, the monitor and
/// the taskbar (left, top, right, bottom) when known: next to a vertical
/// taskbar, above a bottom or below a top taskbar, centred on the cursor and
/// kept 5 pixels inside the monitor; without a taskbar, 80 pixels above the
/// monitor's bottom.
pub open spec fn menu_position(
    menu_w: int,
    menu_h: int,
    cx: int,
    cy: int,
    m: ScreenRect,
    taskbar: Option<(i32, i32, i32, i32)>,
) -> (int, int) {
    let centred_x = max_then_min(cx - menu_w / 2, m.x + 5, m.x + m.width - menu_w - 5);
    match taskbar {
        Some((left, top, right, bottom)) => {
            if right - left < bottom - top {
                let y = if cy - menu_h / 2 > m.y + 5 { cy - menu_h / 2 } else { m.y + 5 };
                if left < m.x + 100 {
                    (right + 5, y)
                } else {
                    let x = if left - menu_w - 5 > m.x + 5 { left - menu_w - 5 } else { m.x + 5 };
                    (x, y)
                }
            } else if top < m.y + 100 {
                (centred_x, bottom + 5)
            } else {
                (centred_x, top - menu_h - 5)
            }
        },
        None => {
            let y = if m.y + m.height - menu_h - 80 > m.y + 5 {
                m.y + m.height - menu_h - 80
            } else {
                m.y + 5
            };
            (centred_x, y)
        },
    }
}

/// Where the tray menu opens (see `menu_position`).
pub fn tray_menu_position(
    menu_width: i32,
    menu_height: i32,
    cursor_x: i32,
    cursor_y: i32,
    monitor: ScreenRect,
    taskbar: Option<(i32, i32, i32, i32)>,
) -> (r: (i64, i64))
    requires
        0 <= menu_width,
        0 <= menu_height,
    ensures
        (r.0 as int, r.1 as int) == menu_position(
            menu_width as int,
            menu_height as int,
            cursor_x as int,
            cursor_y as int,
            monitor,
            taskbar,
        ),
{
    let mw = menu_width as i64;
    let mh = menu_height as i64;
    let mx = monitor.x as i64;
    let my = monitor.y as i64;
    let lo = mx + 5;
    let hi = mx + monitor.width as i64 - mw - 5;
    let c0 = cursor_x as i64 - mw / 2;
    let c1 = if c0 > lo { c0 } else { lo };
    let centred_x = if c1 < hi { c1 } else { hi };
    match taskbar {
        Some((left, top, right, bottom)) => {
            let (l, t, rr, b) = (left as i64, top as i64, right as i64, bottom as i64);
            if rr - l < b - t {
                let y0 = cursor_y as i64 - mh / 2;
                let y = if y0 > my + 5 { y0 } else { my + 5 };
                if l < mx + 100 {
                    (rr + 5, y)
                } else {
                    let x0 = l - mw - 5;
                    let x = if x0 > mx + 5 { x0 } else { mx + 5 };
                    (x, y)
                }
            } else if t < my + 100 {
                (centred_x, b + 5)
            } else {
                (centred_x, t - mh - 5)
            }
        },
        None => {
            let y0 = my + monitor.height as i64 - mh - 80;
            let y = if y0 > my + 5 { y0 } else { my + 5 };
            (centred_x, y)
        },
    }
}

// ========== OPENING THE MENU ==========

/// Where an attempt to open the tray menu stands.
#[derive(Clone, Copy, Debug, PartialEq, Eq, Structural)]
pub enum MenuPhase {
    /// Looking for the menu window.
    Lookup,
    /// The window is being created.
    Creating,
    /// The window was positioned and asked to show.
    Showing,
    /// The window was focused; its visibility is being checked.
    Checking,
    /// Nothing more to do.
    Done,
}

/// What the caller observed after the last action.
#[derive(Clone, Copy, Debug, PartialEq, Eq, Structural)]
pub enum MenuEvent {
    /// The window exists; whether it is visible, when that could be read.
    Found(Option<bool>),
    /// No window exists.
    Missing,
    /// Creating the window succeeded or failed.
    Created(bool),
    /// Showing the window succeeded or failed.
    Shown(bool),
    /// Whether the window is visible after showing, when that could be read.
    Visible(Option<bool>),
}

/// What the caller does next.
#[derive(Clone, Copy, Debug, PartialEq, Eq, Structural)]
pub enum MenuAction {
    /// Look for the menu window.
    Lookup,
    /// The menu is already open: restart its auto-close timer (done).
    ResetTimer,
    /// Create the menu window.
    Create,
    /// Position the window, wait 50 ms, show it.
    PositionAndShow,
    /// Announce the opening, focus the window, wait 100 ms, check visibility.
    FocusAndCheck,
    /// Reload the menu's settings and show its contents (done).
    LoadAndShowMenu,
    /// Wait this many milliseconds, then look again.
    RetryAfter(u64),
    /// All attempts failed (done).
    GiveUp,
}

/// The attempts made to open the menu.
pub open spec fn max_menu_attempts() -> u32 {
    3
}

/// The retry state of opening the tray menu.
#[derive(Clone, Copy, Debug, PartialEq, Eq, Structural)]
pub struct MenuOpening {
    pub attempt: u32,
    pub phase: MenuPhase,
}

/// The state well formed: attempts counted from 1 to 3.
pub open spec fn opening_ok(s: MenuOpening) -> bool {
    1 <= s.attempt <= max_menu_attempts()
}

/// The step after a failed attempt: wait longer each time, or give up after
/// the third.
pub open spec fn after_failure(s: MenuOpening) -> (MenuOpening, MenuAction) {
    if s.attempt < max_menu_attempts() {
        (
            MenuOpening { attempt: (s.attempt + 1) as u32, phase: MenuPhase::Lookup },
            MenuAction::RetryAfter((100 * s.attempt) as u64),
        )
    } else {
        (MenuOpening { attempt: s.attempt, phase: MenuPhase::Done }, MenuAction::GiveUp)
    }
}

/// One step of opening the tray menu: the state and what was observed give
/// the next state and action. An event that does not fit the phase counts as
/// a failed attempt.
pub open spec fn menu_step(s: MenuOpening, e: MenuEvent) -> (MenuOpening, MenuAction) {
    match (s.phase, e) {
        (MenuPhase::Lookup, MenuEvent::Found(Some(true))) => (
            MenuOpening { attempt: s.attempt, phase: MenuPhase::Done },
            MenuAction::ResetTimer,
        ),
        (MenuPhase::Lookup, MenuEvent::Found(_)) => (
            MenuOpening { attempt: s.attempt, phase: MenuPhase::Showing },
            MenuAction::PositionAndShow,
        ),
        (MenuPhase::Lookup, MenuEvent::Missing) => (
            MenuOpening { attempt: s.attempt, phase: MenuPhase::Creating },
            MenuAction::Create,
        ),
        (MenuPhase::Creating, MenuEvent::Created(true)) => (
            MenuOpening { attempt: s.attempt, phase: MenuPhase::Showing },
            MenuAction::PositionAndShow,
        ),
        (MenuPhase::Showing, MenuEvent::Shown(true)) => (
            MenuOpening { attempt: s.attempt, phase: MenuPhase::Checking },
            MenuAction::FocusAndCheck,
        ),
        (MenuPhase::Checking, MenuEvent::Visible(Some(true))) => (
            MenuOpening { attempt: s.attempt, phase: MenuPhase::Done },
            MenuAction::LoadAndShowMenu,
        ),
        (MenuPhase::Done, _) => (s, MenuAction::GiveUp),
        _ => after_failure(s),
    }
}

impl MenuOpening {
    /// The first attempt, looking for the window.
    pub fn start() -> (r: (MenuOpening, MenuAction))
        ensures
            r.0 == (MenuOpening { attempt: 1, phase: MenuPhase::Lookup }),
            r.1 == MenuAction::Lookup,
    {
        (MenuOpening { attempt: 1, phase: MenuPhase::Lookup }, MenuAction::Lookup)
    }

    /// Takes one step (see `menu_step`).
    pub fn step(&mut self, e: MenuEvent) -> (r: MenuAction)
        requires
            opening_ok(*old(self)),
        ensures
            (*final(self), r) == menu_step(*old(self), e),
            opening_ok(*final(self)),
    {
        let next = match (self.phase, e) {
            (MenuPhase::Lookup, MenuEvent::Found(Some(true))) => (
                MenuOpening { attempt: self.attempt, phase: MenuPhase::Done },
                MenuAction::ResetTimer,
            ),
            (MenuPhase::Lookup, MenuEvent::Found(_)) => (
                MenuOpening { attempt: self.attempt, phase: MenuPhase::Showing },
                MenuAction::PositionAndShow,
            ),
            (MenuPhase::Lookup, MenuEvent::Missing) => (
                MenuOpening { attempt: self.attempt, phase: MenuPhase::Creating },
                MenuAction::Create,
            ),
            (MenuPhase::Creating, MenuEvent::Created(true)) => (
                MenuOpening { attempt: self.attempt, phase: MenuPhase::Showing },
                MenuAction::PositionAndShow,
            ),
            (MenuPhase::Showing, MenuEvent::Shown(true)) => (
                MenuOpening { attempt: self.attempt, phase: MenuPhase::Checking },
                MenuAction::FocusAndCheck,
            ),
            (MenuPhase::Checking, MenuEvent::Visible(Some(true))) => (
                MenuOpening { attempt: self.attempt, phase: MenuPhase::Done },
                MenuAction::LoadAndShowMenu,
            ),
            (MenuPhase::Done, _) => (*self, MenuAction::GiveUp),
            _ => {
                if self.attempt < 3 {
                    (
                        MenuOpening { attempt: self.attempt + 1, phase: MenuPhase::Lookup },
                        MenuAction::RetryAfter(100 * self.attempt as u64),
                    )
                } else {
                    (MenuOpening { attempt: self.attempt, phase: MenuPhase::Done }, MenuAction::GiveUp)
                }
            },
        };
        *self = next.0;
        next.1
    }
}

/// Opening the menu never goes past the third attempt: every step keeps the
/// attempt count within 1..=3, a retry only follows an attempt before the
/// third, and the count grows by one exactly on a retry.
pub proof fn lemma_menu_attempts_bounded(s: MenuOpening, e: MenuEvent)
    requires
        opening_ok(s),
    ensures
        opening_ok(menu_step(s, e).0),
        menu_step(s, e).1 matches MenuAction::RetryAfter(_) ==> s.attempt < max_menu_attempts()
            && menu_step(s, e).0.attempt == s.attempt + 1,
        !(menu_step(s, e).1 matches MenuAction::RetryAfter(_)) ==> menu_step(s, e).0.attempt
            == s.attempt,
{
}

} // verus!
