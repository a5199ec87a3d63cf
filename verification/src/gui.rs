//! State of the graphical shell.
//!
//! The shell's rendering lives outside the library; what lives here is the
//! data it displays and the flags it exchanges with the logic thread.

use vstd::prelude::*;
use vstd::string::StringExecFns;
use crate::clock::now_clock;

verus! {

/// The page the shell currently shows.
#[derive(Debug, Clone, Copy, PartialEq, Eq, Structural)]
pub enum Page {
    Status,
    History,
    Settings,
}

/// State shared between the shell and the logic thread: the shell sets the
/// flags, the logic thread acts on them and clears them.
#[derive(Debug, Clone, Copy, PartialEq, Eq, Structural)]
pub struct SharedGuiState {
    pub paused: bool,
    pub today_chars: usize,
    pub request_new_segment: bool,
    pub request_open_log: bool,
}

impl Default for SharedGuiState {
    /// Not paused, nothing counted, nothing requested.
    fn default() -> (s: SharedGuiState)
        ensures
            s == (SharedGuiState {
                paused: false,
                today_chars: 0usize,
                request_new_segment: false,
                request_open_log: false,
            }),
    {
        SharedGuiState {
            paused: false,
            today_chars: 0,
            request_new_segment: false,
            request_open_log: false,
        }
    }
}

/// What the shell displays.
pub struct EchoKeyApp {
    pub current_page: Page,
    pub is_paused: bool,
    pub today_chars: usize,
    pub log_directory: String,
    pub autostart_enabled: bool,
    pub search_query: String,
    pub log_content: String,
    /// A transient status message and the millisecond timestamp it was set.
    pub status_message: Option<(String, i64)>,
}

impl EchoKeyApp {
    /// A fresh shell state on the status page.
    pub fn new(log_directory: String, autostart_enabled: bool) -> (app: EchoKeyApp)
        ensures
            app.current_page == Page::Status,
            !app.is_paused,
            app.today_chars == 0,
            app.log_directory@ == log_directory@,
            app.autostart_enabled == autostart_enabled,
            app.search_query@ == Seq::<char>::empty(),
            app.log_content@ == Seq::<char>::empty(),
            app.status_message is None,
    {
        EchoKeyApp {
            current_page: Page::Status,
            is_paused: false,
            today_chars: 0,
            log_directory,
            autostart_enabled,
            search_query: String::new(),
            log_content: String::new(),
            status_message: None,
        }
    }

    /// Shows a transient status message, stamped with the current time.
    pub fn show_message(&mut self, msg: &str)
        ensures
            final(self).status_message matches Some(p) && p.0@ == msg@,
            final(self).current_page == old(self).current_page,
            final(self).is_paused == old(self).is_paused,
            final(self).today_chars == old(self).today_chars,
            final(self).log_directory == old(self).log_directory,
            final(self).autostart_enabled == old(self).autostart_enabled,
            final(self).search_query == old(self).search_query,
            final(self).log_content == old(self).log_content,
    {
        let c = now_clock();
        self.status_message = Some((String::from_str(msg), c.ms));
    }
}

} // verus!
