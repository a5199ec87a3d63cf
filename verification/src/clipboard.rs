//! Clipboard access for paste and manual-save events.
//!
//! The system clipboard is read through a handle created once at startup;
//! what it holds depends on the environment, so nothing is promised of the
//! text that comes back.

use vstd::prelude::*;

verus! {

/// The system clipboard of the arboard crate, opaque to the library's logic.
#[verifier::external_type_specification]
#[verifier::external_body]
pub struct ExClipboard(arboard::Clipboard);

/// Relies on arboard::Clipboard::new: a clipboard instance, or an error on
/// platforms or desktop environments without clipboard support.
#[verifier::external_body]
fn clipboard_new() -> (r: Option<arboard::Clipboard>) {
    arboard::Clipboard::new().ok()
}

/// Relies on arboard::Clipboard::get_text: the clipboard's current UTF-8
/// text, or an error when the clipboard is empty or holds no text. The
/// result depends on the environment, so nothing is promised of it.
#[verifier::external_body]
fn clipboard_get_text(cb: &mut arboard::Clipboard) -> (r: Option<String>) {
    cb.get_text().ok()
}

/// A clipboard handle; without one (when the platform offers no clipboard)
/// every read comes back empty.
pub struct ClipboardHandle {
    inner: Option<arboard::Clipboard>,
}

impl ClipboardHandle {
    /// Whether the platform clipboard could be opened.
    pub closed spec fn available(&self) -> bool {
        self.inner is Some
    }

    /// A handle without a clipboard behind it; reads return nothing.
    pub fn empty() -> (h: ClipboardHandle)
        ensures
            !h.available(),
    {
        ClipboardHandle { inner: None }
    }
}

/// Why the clipboard could not be opened.
#[derive(Debug, Clone, Copy, PartialEq, Eq, Structural)]
pub enum ClipboardError {
    /// The platform or desktop environment offers no clipboard.
    Unavailable,
}

/// Opens the system clipboard once, for the life of the process; an error
/// comes back exactly when the platform offers none.
pub fn init() -> (r: Result<ClipboardHandle, ClipboardError>)
    ensures
        r matches Ok(h) ==> h.available(),
        r matches Err(e) ==> e == ClipboardError::Unavailable,
{
    match clipboard_new() {
        Some(cb) => Ok(ClipboardHandle { inner: Some(cb) }),
        None => Err(ClipboardError::Unavailable),
    }
}

/// Reads the clipboard's text content; `None` when the clipboard is
/// unavailable, empty, or holds no text.
pub fn get_text(handle: &mut ClipboardHandle) -> (r: Option<String>)
    ensures
        !old(handle).available() ==> r is None,
        final(handle).available() == old(handle).available(),
{
    match &mut handle.inner {
        Some(cb) => clipboard_get_text(cb),
        None => None,
    }
}

/// Whether the clipboard currently holds text.
pub fn has_text(handle: &mut ClipboardHandle) -> (r: bool)
    ensures
        !old(handle).available() ==> !r,
        final(handle).available() == old(handle).available(),
{
    get_text(handle).is_some()
}

} // verus!
