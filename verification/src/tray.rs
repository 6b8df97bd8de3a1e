//! Presentation decisions owned by the pipeline: the tray status-menu
//! text with its hotkey display hint, and the pixel data of the
//! programmatic tray icon frames.

use vstd::prelude::*;
use vstd::string::StringExecFns;
use crate::state::Status;
use crate::text::{replaced, replace_str};

verus! {

/// The display form of a hotkey string: modifier words become their
/// conventional symbols and the `+` separators disappear.
pub open spec fn hotkey_hint_spec(h: Seq<char>) -> Seq<char> {
    let a = replaced(h, "CmdOrCtrl"@, "\u{2318}"@);
    let b = replaced(a, "Alt"@, "\u{2325}"@);
    let c = replaced(b, "Shift"@, "\u{21E7}"@);
    let d = replaced(c, "Ctrl"@, "\u{2303}"@);
    let e = replaced(d, "Space"@, "Space"@);
    replaced(e, "+"@, ""@)
}

/// Render a hotkey for display in the tray menu.
pub fn hotkey_display_hint(hotkey: &str) -> (r: String)
    ensures
        r@ == hotkey_hint_spec(hotkey@),
{
    proof {
        reveal_strlit("CmdOrCtrl");
        reveal_strlit("Alt");
        reveal_strlit("Shift");
        reveal_strlit("Ctrl");
        reveal_strlit("Space");
        reveal_strlit("+");
    }
    let a = replace_str(hotkey, "CmdOrCtrl", "\u{2318}");
    let b = replace_str(a.as_str(), "Alt", "\u{2325}");
    let c = replace_str(b.as_str(), "Shift", "\u{21E7}");
    let d = replace_str(c.as_str(), "Ctrl", "\u{2303}");
    let e = replace_str(d.as_str(), "Space", "Space");
    replace_str(e.as_str(), "+", "")
}

/// The status line of the tray menu for each session status.
pub open spec fn status_menu_text_spec(status: Status, hotkey: Seq<char>) -> Seq<char> {
    match status {
        Status::Idle => "Ready to Record ("@ + hotkey_hint_spec(hotkey) + ")"@,
        Status::Recording => "Recording... ("@ + hotkey_hint_spec(hotkey) + " to stop)"@,
        Status::Transcribing => "Transcribing..."@,
    }
}

/// The tray menu's status line: the state of the session plus the
/// hotkey that drives it.
pub fn status_menu_text(status: Status, hotkey: &str) -> (r: String)
    ensures
        r@ == status_menu_text_spec(status, hotkey@),
{
    match status {
        Status::Idle => {
            let mut s = String::from_str("Ready to Record (");
            let hint = hotkey_display_hint(hotkey);
            s.append(hint.as_str());
            s.append(")");
            proof {
                assert(s@ =~= status_menu_text_spec(status, hotkey@));
            }
            s
        },
        Status::Recording => {
            let mut s = String::from_str("Recording... (");
            let hint = hotkey_display_hint(hotkey);
            s.append(hint.as_str());
            s.append(" to stop)");
            proof {
                assert(s@ =~= status_menu_text_spec(status, hotkey@));
            }
            s
        },
        Status::Transcribing => String::from_str("Transcribing..."),
    }
}

/// How the tray icon is rendered for a status.
#[derive(Clone, Copy, PartialEq, Eq, Structural, Debug)]
pub enum TrayMode {
    /// The static template icon.
    StaticIcon,
    /// The animated level-meter frames, driven by the live amplitude.
    RecordingAnimation,
}

/// Recording animates the tray; every other status restores the
/// static icon.
pub fn tray_mode_for_status(status: Status) -> (r: TrayMode)
    ensures
        r == (if status == Status::Recording {
            TrayMode::RecordingAnimation
        } else {
            TrayMode::StaticIcon
        }),
{
    match status {
        Status::Recording => TrayMode::RecordingAnimation,
        _ => TrayMode::StaticIcon,
    }
}

/// The tray icon canvas is 22 by 22 RGBA pixels.
pub const ICON_SIZE: u32 = 22;

/// Left edge of bar `i` (six 2-pixel bars, evenly spaced).
pub open spec fn bar_x(i: int) -> int {
    4 * i
}

/// Resting height of bar `i`.
pub open spec fn bar_h(i: int) -> int {
    if i == 0 {
        3
    } else if i == 1 {
        11
    } else if i == 2 {
        18
    } else if i == 3 {
        7
    } else if i == 4 {
        13
    } else {
        3
    }
}

/// Whether pixel `p` (row-major on the 22x22 canvas) lies inside a
/// bar of width `w` and height `h` whose left edge is `x`, centered
/// vertically.
pub open spec fn in_bar(p: int, x: int, w: int, h: int) -> bool {
    let row = p / 22;
    let col = p % 22;
    &&& (22 - h) / 2 <= row < (22 - h) / 2 + h
    &&& x <= col < x + w
}

/// Paint a filled bar onto the RGBA canvas: alpha goes to 255 inside
/// the bar (the color stays black for macOS template-icon mode);
/// every other byte is untouched.
pub fn draw_bar(rgba: &mut Vec<u8>, x: usize, w: usize, h: usize)
    requires
        old(rgba)@.len() == 1936,
        x + w <= 22,
        h <= 22,
    ensures
        final(rgba)@.len() == 1936,
        forall|i: int| 0 <= i < 1936 ==> final(rgba)@[i]
            == (if i % 4 == 3 && in_bar(i / 4, x as int, w as int, h as int) {
                255u8
            } else {
                old(rgba)@[i]
            }),
{
    let top: usize = (22 - h) / 2;
    let mut row: usize = top;
    while row < top + h
        invariant
            rgba@.len() == 1936,
            x + w <= 22,
            h <= 22,
            top == (22 - h) / 2,
            top <= row <= top + h,
            forall|i: int| 0 <= i < 1936 ==> rgba@[i]
                == (if i % 4 == 3 && in_bar(i / 4, x as int, w as int, h as int)
                    && i / 4 / 22 < row {
                    255u8
                } else {
                    old(rgba)@[i]
                }),
        decreases top + h - row,
    {
        let mut col: usize = x;
        while col < x + w
            invariant
                rgba@.len() == 1936,
                x + w <= 22,
                h <= 22,
                top == (22 - h) / 2,
                top <= row < top + h,
                x <= col <= x + w,
                forall|i: int| 0 <= i < 1936 ==> rgba@[i]
                    == (if i % 4 == 3 && in_bar(i / 4, x as int, w as int, h as int)
                        && (i / 4 / 22 < row || (i / 4 / 22 == row && i / 4 % 22 < col)) {
                        255u8
                    } else {
                        old(rgba)@[i]
                    }),
            decreases x + w - col,
        {
            let p: usize = row * 22 + col;
            let off: usize = p * 4 + 3;
            proof {
                vstd::arithmetic::div_mod::lemma_fundamental_div_mod_converse(
                    off as int, 4, p as int, 3);
                vstd::arithmetic::div_mod::lemma_fundamental_div_mod_converse(
                    p as int, 22, row as int, col as int);
            }
            rgba[off] = 255;
            col = col + 1;
            proof {
                assert forall|i: int| 0 <= i < 1936 implies rgba@[i]
                    == (if i % 4 == 3 && in_bar(i / 4, x as int, w as int, h as int)
                        && (i / 4 / 22 < row || (i / 4 / 22 == row && i / 4 % 22 < col)) {
                        255u8
                    } else {
                        old(rgba)@[i]
                    }) by {
                    vstd::arithmetic::div_mod::lemma_fundamental_div_mod(i, 4);
                    vstd::arithmetic::div_mod::lemma_fundamental_div_mod(i / 4, 22);
                }
            }
        }
        row = row + 1;
    }
}

/// One frame of the preload sweep animation: a single filled bar at
/// `active_index` (mod 6), the rest of the canvas transparent.
pub fn preload_frame(active_index: usize) -> (r: Vec<u8>)
    ensures
        r@.len() == 1936,
        forall|i: int| 0 <= i < 1936 ==> r@[i]
            == (if i % 4 == 3
                && in_bar(i / 4, bar_x(active_index as int % 6), 2, bar_h(active_index as int % 6)) {
                255u8
            } else {
                0u8
            }),
{
    let idx: usize = active_index % 6;
    let x: usize = 4 * idx;
    let h: usize = if idx == 0 {
        3
    } else if idx == 1 {
        11
    } else if idx == 2 {
        18
    } else if idx == 3 {
        7
    } else if idx == 4 {
        13
    } else {
        3
    };
    let mut rgba: Vec<u8> = Vec::new();
    let mut i: usize = 0;
    while i < 1936
        invariant
            i <= 1936,
            rgba@.len() == i,
            forall|k: int| 0 <= k < i ==> rgba@[k] == 0u8,
        decreases 1936 - i,
    {
        rgba.push(0);
        i = i + 1;
    }
    draw_bar(&mut rgba, x, 2, h);
    rgba
}

} // verus!
