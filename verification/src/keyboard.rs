//! The capture side of the pipeline: filtering raw key notifications and
//! classifying accepted ones into semantic events.
//!
//! The platform hook hands every raw notification to `RawEventFilter`, which
//! drops software-injected events and suppresses duplicate deliveries of the
//! same physical key inside a short window. Accepted key-down notifications
//! are then classified, together with the modifier state and the resolved
//! character, into one `KeyboardEvent`.

use vstd::prelude::*;
use crate::clock::{CLOCK_MS_BOUND, elapsed_ms};
use crate::config::DEDUP_WINDOW_MS;

verus! {

/// A semantic keyboard event, produced by the classifier and consumed by the
/// logging side exactly once.
#[derive(Debug, Clone, PartialEq, Eq, Structural)]
pub enum KeyboardEvent {
    /// Ordinary character input, including characters confirmed by an input
    /// method.
    Character(char),
    /// The return key: line break plus a fresh timestamp on the next text.
    Enter,
    /// Ctrl with the return key: line break only, no fresh timestamp.
    CtrlEnter,
    /// The backspace key.
    Backspace,
    /// Ctrl+V.
    Paste,
    /// Ctrl+Shift+S.
    ManualSave,
    /// Ctrl+Shift+P.
    TogglePause,
    /// Ctrl+Shift+N.
    NewSegment,
}

pub const VK_RETURN: u32 = 0x0D;

pub const VK_BACK: u32 = 0x08;

pub const VK_V: u32 = 0x56;

pub const VK_S: u32 = 0x53;

pub const VK_P: u32 = 0x50;

pub const VK_N: u32 = 0x4E;

/// The most recently accepted physical key, for duplicate suppression.
pub struct RawEventFilter {
    last_vk: u32,
    last_scan: u32,
    last_ms: Option<i64>,
}

/// The filter's state as plain values.
pub ghost struct FilterModel {
    pub last_vk: u32,
    pub last_scan: u32,
    pub last_ms: Option<i64>,
}

impl View for RawEventFilter {
    type V = FilterModel;

    closed spec fn view(&self) -> FilterModel {
        FilterModel { last_vk: self.last_vk, last_scan: self.last_scan, last_ms: self.last_ms }
    }
}

/// A notification is accepted unless it repeats the last accepted key within
/// the dedup window.
pub open spec fn spec_accepts(f: FilterModel, vk: u32, scan: u32, now_ms: i64) -> bool {
    match f.last_ms {
        Some(t) => !(f.last_vk == vk && f.last_scan == scan && elapsed_ms(t, now_ms)
            < DEDUP_WINDOW_MS),
        None => true,
    }
}

/// On acceptance the filter remembers the key and the time; a rejected
/// notification leaves it unchanged.
pub open spec fn spec_filter_step(f: FilterModel, vk: u32, scan: u32, now_ms: i64) -> FilterModel {
    if spec_accepts(f, vk, scan, now_ms) {
        FilterModel { last_vk: vk, last_scan: scan, last_ms: Some(now_ms) }
    } else {
        f
    }
}

pub open spec fn filter_wf(f: FilterModel) -> bool {
    match f.last_ms {
        Some(t) => -CLOCK_MS_BOUND <= t <= CLOCK_MS_BOUND,
        None => true,
    }
}

impl RawEventFilter {
    pub open spec fn wf(&self) -> bool {
        filter_wf(self@)
    }

    /// A fresh filter that accepts the first notification.
    pub fn new() -> (f: RawEventFilter)
        ensures
            f@ == (FilterModel { last_vk: 0, last_scan: 0, last_ms: None::<i64> }),
            f.wf(),
    {
        RawEventFilter { last_vk: 0, last_scan: 0, last_ms: None }
    }

    /// Decides whether an accepted-so-far key-down notification should be
    /// processed, suppressing a repeat of the last accepted key within the
    /// dedup window, and records an accepted key atomically with the
    /// decision.
    pub fn should_process_key(&mut self, vk_code: u32, scan_code: u32, now_ms: i64) -> (accept:
        bool)
        requires
            old(self).wf(),
            -CLOCK_MS_BOUND <= now_ms <= CLOCK_MS_BOUND,
        ensures
            accept == spec_accepts(old(self)@, vk_code, scan_code, now_ms),
            final(self)@ == spec_filter_step(old(self)@, vk_code, scan_code, now_ms),
            final(self).wf(),
    {
        let accept = match self.last_ms {
            Some(t) => {
                let elapsed: i64 = if now_ms >= t {
                    now_ms - t
                } else {
                    0
                };
                !(self.last_vk == vk_code && self.last_scan == scan_code && elapsed
                    < DEDUP_WINDOW_MS as i64)
            },
            None => true,
        };
        if accept {
            self.last_vk = vk_code;
            self.last_scan = scan_code;
            self.last_ms = Some(now_ms);
        }
        accept
    }

    /// The full raw-event decision: software-injected notifications are never
    /// accepted, only key-down notifications are considered, and duplicates
    /// inside the dedup window are suppressed.
    pub fn filter_raw_event(
        &mut self,
        injected: bool,
        key_down: bool,
        vk_code: u32,
        scan_code: u32,
        now_ms: i64,
    ) -> (accept: bool)
        requires
            old(self).wf(),
            -CLOCK_MS_BOUND <= now_ms <= CLOCK_MS_BOUND,
        ensures
            accept == (!injected && key_down && spec_accepts(old(self)@, vk_code, scan_code, now_ms)),
            final(self)@ == (if !injected && key_down {
                spec_filter_step(old(self)@, vk_code, scan_code, now_ms)
            } else {
                old(self)@
            }),
            injected ==> !accept && final(self)@ == old(self)@,
            final(self).wf(),
    {
        if injected {
            return false;
        }
        if !key_down {
            return false;
        }
        self.should_process_key(vk_code, scan_code, now_ms)
    }
}

/// Of two notifications for the same physical key, both acceptable on their
/// own, only the first is accepted when the second comes within the dedup
/// window, and both are accepted when it comes at or past the window.
pub proof fn lemma_dedup_window(f: FilterModel, vk: u32, scan: u32, t1: i64, t2: i64)
    requires
        spec_accepts(f, vk, scan, t1),
    ensures
        ({
            let f1 = spec_filter_step(f, vk, scan, t1);
            &&& elapsed_ms(t1, t2) < DEDUP_WINDOW_MS ==> !spec_accepts(f1, vk, scan, t2)
            &&& elapsed_ms(t1, t2) >= DEDUP_WINDOW_MS ==> spec_accepts(f1, vk, scan, t2)
        }),
{
}

/// Live state of the Ctrl, Shift and Alt keys.
#[derive(Debug, Clone, Copy, PartialEq, Eq, Structural)]
pub struct ModifierState {
    pub ctrl: bool,
    pub shift: bool,
    pub alt: bool,
}

#[derive(Debug, Clone, Copy, PartialEq, Eq, Structural)]
pub enum ModifierKey {
    Ctrl,
    Shift,
    Alt,
}

impl Default for ModifierState {
    /// All modifiers up.
    fn default() -> (m: ModifierState)
        ensures
            m == (ModifierState { ctrl: false, shift: false, alt: false }),
    {
        ModifierState { ctrl: false, shift: false, alt: false }
    }
}

impl ModifierState {
    /// Records a modifier key going down or up; the other flags keep their
    /// values.
    pub fn on_key(&mut self, key: ModifierKey, down: bool)
        ensures
            final(self).ctrl == (if key is Ctrl {
                down
            } else {
                old(self).ctrl
            }),
            final(self).shift == (if key is Shift {
                down
            } else {
                old(self).shift
            }),
            final(self).alt == (if key is Alt {
                down
            } else {
                old(self).alt
            }),
    {
        match key {
            ModifierKey::Ctrl => self.ctrl = down,
            ModifierKey::Shift => self.shift = down,
            ModifierKey::Alt => self.alt = down,
        }
    }
}

/// A character is a control character exactly when it lies in one of the two
/// Unicode control ranges.
pub open spec fn spec_is_control(c: char) -> bool {
    (c as u32) < 0x20 || (0x7F <= (c as u32) < 0xA0)
}

pub fn is_control_char(c: char) -> (r: bool)
    ensures
        r == spec_is_control(c),
{
    let u = c as u32;
    u < 0x20 || (0x7F <= u && u < 0xA0)
}

/// The classifier's decision table, evaluated in order, first match wins:
/// the return key before everything, then backspace, then the Ctrl
/// shortcuts, with any other Ctrl combination suppressed, and finally plain
/// character capture.
pub open spec fn spec_classify(
    vk: u32,
    ctrl: bool,
    shift: bool,
    resolved: Option<char>,
) -> Option<KeyboardEvent> {
    if vk == VK_RETURN {
        if ctrl {
            Some(KeyboardEvent::CtrlEnter)
        } else {
            Some(KeyboardEvent::Enter)
        }
    } else if vk == VK_BACK {
        Some(KeyboardEvent::Backspace)
    } else if ctrl {
        if vk == VK_V && !shift {
            Some(KeyboardEvent::Paste)
        } else if vk == VK_S && shift {
            Some(KeyboardEvent::ManualSave)
        } else if vk == VK_P && shift {
            Some(KeyboardEvent::TogglePause)
        } else if vk == VK_N && shift {
            Some(KeyboardEvent::NewSegment)
        } else {
            None
        }
    } else {
        match resolved {
            Some(c) => if !spec_is_control(c) {
                Some(KeyboardEvent::Character(c))
            } else {
                None
            },
            None => None,
        }
    }
}

/// Maps an accepted key-down notification, the live modifier state and the
/// character the platform resolved for it (consulted only without Ctrl) to
/// the semantic event to emit, if any.
pub fn classify_key(vk: u32, ctrl: bool, shift: bool, resolved: Option<char>) -> (r: Option<
    KeyboardEvent,
>)
    ensures
        r == spec_classify(vk, ctrl, shift, resolved),
{
    if vk == VK_RETURN {
        if ctrl {
            Some(KeyboardEvent::CtrlEnter)
        } else {
            Some(KeyboardEvent::Enter)
        }
    } else if vk == VK_BACK {
        Some(KeyboardEvent::Backspace)
    } else if ctrl {
        if vk == VK_V && !shift {
            Some(KeyboardEvent::Paste)
        } else if vk == VK_S && shift {
            Some(KeyboardEvent::ManualSave)
        } else if vk == VK_P && shift {
            Some(KeyboardEvent::TogglePause)
        } else if vk == VK_N && shift {
            Some(KeyboardEvent::NewSegment)
        } else {
            None
        }
    } else {
        match resolved {
            Some(c) => if !is_control_char(c) {
                Some(KeyboardEvent::Character(c))
            } else {
                None
            },
            None => None,
        }
    }
}

} // verus!
