//! State and commands of the system tray.
//!
//! The tray icon itself is a platform object that lives outside the library;
//! here are the commands its menu issues into the logic thread, and the
//! tooltip that reflects the paused state.

use vstd::prelude::*;

verus! {

/// A command issued by the tray menu.
#[derive(Debug, Clone, Copy, PartialEq, Eq, Structural)]
pub enum TrayEvent {
    /// Bring the main window up.
    ShowWindow,
    /// Pause or resume capture.
    TogglePause,
    /// Start a new log segment.
    NewSegment,
    /// Open the log directory.
    OpenLogDir,
    /// Quit the program.
    Quit,
}

/// What the tray icon reflects.
#[derive(Debug, Clone, Copy, PartialEq, Eq, Structural)]
pub struct TrayState {
    pub paused: bool,
}

/// The tooltip the tray icon shows for a paused state.
pub fn tray_tooltip(paused: bool) -> (r: &'static str)
    ensures
        paused ==> r@ == "EchoKey - 已暂停"@,
        !paused ==> r@ == "EchoKey - 记录中"@,
{
    if paused {
        "EchoKey - 已暂停"
    } else {
        "EchoKey - 记录中"
    }
}

/// Whether the pixel (x, y) of a square icon of the given size lies on the
/// letter E drawn at its center: a vertical bar on the left and three
/// horizontal bars, the middle one shorter.
pub open spec fn spec_in_letter_e(x: u32, y: u32, size: u32) -> bool {
    let cx = size as int / 2;
    let cy = size as int / 2;
    let left = cx - 5;
    let right = cx + 5;
    let top = cy - 7;
    let bottom = cy + 7;
    let mid = cy;
    ||| (left <= x <= left + 2 && top <= y <= bottom)
    ||| (left <= x <= right && top <= y <= top + 2)
    ||| (left <= x <= right - 2 && mid - 1 <= y <= mid + 1)
    ||| (left <= x <= right && bottom - 2 <= y <= bottom)
}

/// Decides whether the pixel (x, y) of the tray icon lies on the letter E.
pub fn is_in_letter_e(x: u32, y: u32, size: u32) -> (r: bool)
    requires
        size >= 14,
    ensures
        r == spec_in_letter_e(x, y, size),
{
    let cx = size / 2;
    let cy = size / 2;
    let left = cx - 5;
    let right = cx + 5;
    let top = cy - 7;
    let bottom = cy + 7;
    let mid = cy;
    if x >= left && x <= left + 2 && y >= top && y <= bottom {
        return true;
    }
    if x >= left && x <= right && y >= top && y <= top + 2 {
        return true;
    }
    if x >= left && x <= right - 2 && y >= mid - 1 && y <= mid + 1 {
        return true;
    }
    if x >= left && x <= right && y >= bottom - 2 && y <= bottom {
        return true;
    }
    false
}

} // verus!
