//! The logic thread's decisions: dispatching semantic keyboard events and
//! tray commands into the logger, and keeping the shell's shared state in
//! step.
//!
//! The loop that drains the channels lives outside the library; each of its
//! decisions is a function here, verified for every event and clock reading.

use vstd::prelude::*;
use vstd::string::StrSliceExecFns;
use crate::clock::Clock;
use crate::gui::SharedGuiState;
use crate::keyboard::KeyboardEvent;
use crate::logger::{
    Logger, LoggerModel, m_handle_ctrl_enter, m_handle_enter, m_new_segment, m_set_paused,
    m_toggle_pause, m_write_manual_save, m_write_paste, m_write_text,
};
use crate::render::char_to_string;
use crate::tray::TrayEvent;

verus! {

/// The logic thread's state: the logger it owns, the paused flag it mirrors,
/// and the running character count of the day.
pub struct AppState {
    pub logger: Logger,
    pub paused: bool,
    pub char_count: usize,
}

impl AppState {
    pub open spec fn inv(&self) -> bool {
        self.logger.inv()
    }

    /// A fresh state around a logger: running, nothing counted.
    pub fn new(logger: Logger) -> (s: AppState)
        ensures
            s.logger@ == logger@,
            !s.paused,
            s.char_count == 0,
    {
        AppState { logger, paused: false, char_count: 0 }
    }
}

/// What one keyboard event does to the logic state and the shared shell
/// state: while paused everything but a pause toggle is discarded; a
/// character is written and counted; backspace is written as a placeholder
/// glyph; paste and manual save write the clipboard text when there is any;
/// a pause toggle flips both paused flags.
pub open spec fn spec_handle_event(
    lg: LoggerModel,
    paused: bool,
    count: usize,
    gui: SharedGuiState,
    event: KeyboardEvent,
    clip: Option<Seq<char>>,
    c: Clock,
) -> (LoggerModel, bool, usize, SharedGuiState) {
    if paused && !(event is TogglePause) {
        (lg, paused, count, gui)
    } else {
        match event {
            KeyboardEvent::Character(ch) => {
                let n = (count + 1) as usize;
                (
                    m_write_text(lg, seq![ch], c),
                    paused,
                    n,
                    SharedGuiState { today_chars: n, ..gui },
                )
            },
            KeyboardEvent::Enter => (m_handle_enter(lg, c), paused, count, gui),
            KeyboardEvent::CtrlEnter => (m_handle_ctrl_enter(lg, c), paused, count, gui),
            KeyboardEvent::Backspace => (m_write_text(lg, "⌫"@, c), paused, count, gui),
            KeyboardEvent::Paste => match clip {
                Some(t) => if t.len() > 0 {
                    let n = (count + t.len()) as usize;
                    (
                        m_write_paste(lg, t, c),
                        paused,
                        n,
                        SharedGuiState { today_chars: n, ..gui },
                    )
                } else {
                    (lg, paused, count, gui)
                },
                None => (lg, paused, count, gui),
            },
            KeyboardEvent::ManualSave => match clip {
                Some(t) => if t.len() > 0 {
                    (m_write_manual_save(lg, t, c), paused, count, gui)
                } else {
                    (lg, paused, count, gui)
                },
                None => (lg, paused, count, gui),
            },
            KeyboardEvent::TogglePause => (
                m_toggle_pause(lg, c),
                !lg.paused,
                count,
                SharedGuiState { paused: !lg.paused, ..gui },
            ),
            KeyboardEvent::NewSegment => (m_new_segment(lg, c), paused, count, gui),
        }
    }
}

/// Dispatches one semantic keyboard event for a given clock reading.
/// `clipboard` is the clipboard's text at this moment, consulted only for
/// paste and manual save.
pub fn handle_keyboard_event_at(
    state: &mut AppState,
    gui: &mut SharedGuiState,
    event: KeyboardEvent,
    clipboard: Option<String>,
    c: &Clock,
)
    requires
        old(state).inv(),
        c.wf(),
        event is Character ==> old(state).char_count < usize::MAX,
        event is Paste ==> (clipboard matches Some(t) ==> old(state).char_count + t@.len()
            <= usize::MAX),
        event is NewSegment ==> old(state).logger@.segment < u32::MAX,
    ensures
        final(state).inv(),
        ({
            let (lg, paused, count, g) = spec_handle_event(
                old(state).logger@,
                old(state).paused,
                old(state).char_count,
                *old(gui),
                event,
                match clipboard {
                    Some(t) => Some(t@),
                    None => None::<Seq<char>>,
                },
                *c,
            );
            &&& final(state).logger@ == lg
            &&& final(state).paused == paused
            &&& final(state).char_count == count
            &&& *final(gui) == g
        }),
{
    if state.paused && !(matches!(event, KeyboardEvent::TogglePause)) {
        return;
    }
    match event {
        KeyboardEvent::Character(ch) => {
            let s = char_to_string(ch);
            state.logger.write_text_at(s.as_str(), c);
            state.char_count = state.char_count + 1;
            gui.today_chars = state.char_count;
        },
        KeyboardEvent::Enter => {
            state.logger.handle_enter_at(c);
        },
        KeyboardEvent::CtrlEnter => {
            state.logger.handle_ctrl_enter_at(c);
        },
        KeyboardEvent::Backspace => {
            state.logger.write_text_at("⌫", c);
        },
        KeyboardEvent::Paste => {
            if let Some(content) = clipboard {
                if !content.as_str().is_empty() {
                    let n = content.as_str().unicode_len();
                    state.logger.write_paste_at(content.as_str(), c);
                    state.char_count = state.char_count + n;
                    gui.today_chars = state.char_count;
                }
            }
        },
        KeyboardEvent::ManualSave => {
            if let Some(content) = clipboard {
                if !content.as_str().is_empty() {
                    state.logger.write_manual_save_at(content.as_str(), c);
                }
            }
        },
        KeyboardEvent::TogglePause => {
            let paused = state.logger.toggle_pause_at(c);
            state.paused = paused;
            gui.paused = paused;
        },
        KeyboardEvent::NewSegment => {
            state.logger.new_segment_at(c);
        },
    }
}

/// Brings the logic state in step with the paused flag the shell set: on a
/// difference the logger is paused or resumed, writing the matching marker.
pub fn sync_pause_from_gui_at(state: &mut AppState, gui_paused: bool, c: &Clock)
    requires
        old(state).inv(),
        c.wf(),
    ensures
        final(state).inv(),
        final(state).char_count == old(state).char_count,
        final(state).paused == gui_paused,
        final(state).logger@ == (if gui_paused != old(state).paused {
            m_set_paused(old(state).logger@, gui_paused, *c)
        } else {
            old(state).logger@
        }),
{
    if gui_paused != state.paused {
        state.paused = gui_paused;
        state.logger.set_paused_at(gui_paused, c);
    }
}

/// What the loop must do after a tray command, beyond what the library did
/// itself.
#[derive(Debug, Clone, Copy, PartialEq, Eq, Structural)]
pub enum TrayDirective {
    /// Nothing further.
    Nothing,
    /// Bring the main window up.
    ShowWindow,
    /// Open the log directory.
    OpenLogDirectory,
    /// Quit the program.
    Quit,
}

/// Dispatches one tray command for a given clock reading: a pause toggle or
/// a new segment acts on the logger here; window, directory and quit actions
/// are handed back for the caller to perform.
pub fn handle_tray_event_at(
    state: &mut AppState,
    gui: &mut SharedGuiState,
    event: TrayEvent,
    c: &Clock,
) -> (r: TrayDirective)
    requires
        old(state).inv(),
        c.wf(),
        event is NewSegment ==> old(state).logger@.segment < u32::MAX,
    ensures
        final(state).inv(),
        final(state).char_count == old(state).char_count,
        match event {
            TrayEvent::ShowWindow => r == TrayDirective::ShowWindow && final(state).logger@ == old(
                state,
            ).logger@ && final(state).paused == old(state).paused && *final(gui) == *old(gui),
            TrayEvent::TogglePause => {
                &&& r == TrayDirective::Nothing
                &&& final(state).logger@ == m_toggle_pause(old(state).logger@, *c)
                &&& final(state).paused == !old(state).logger@.paused
                &&& *final(gui) == (SharedGuiState {
                    paused: !old(state).logger@.paused,
                    ..*old(gui)
                })
            },
            TrayEvent::NewSegment => r == TrayDirective::Nothing && final(state).logger@
                == m_new_segment(old(state).logger@, *c) && final(state).paused == old(
                state,
            ).paused && *final(gui) == *old(gui),
            TrayEvent::OpenLogDir => r == TrayDirective::OpenLogDirectory && final(state).logger@
                == old(state).logger@ && final(state).paused == old(state).paused && *final(gui)
                == *old(gui),
            TrayEvent::Quit => r == TrayDirective::Quit && final(state).logger@ == old(
                state,
            ).logger@ && final(state).paused == old(state).paused && *final(gui) == *old(gui),
        },
{
    match event {
        TrayEvent::ShowWindow => TrayDirective::ShowWindow,
        TrayEvent::TogglePause => {
            let paused = state.logger.toggle_pause_at(c);
            state.paused = paused;
            gui.paused = paused;
            TrayDirective::Nothing
        },
        TrayEvent::NewSegment => {
            state.logger.new_segment_at(c);
            TrayDirective::Nothing
        },
        TrayEvent::OpenLogDir => TrayDirective::OpenLogDirectory,
        TrayEvent::Quit => TrayDirective::Quit,
    }
}

} // verus!
