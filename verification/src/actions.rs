//! High-level browser actions and their outcomes.
//!
//! Executing an action against a live browser is the embedding process's
//! concern; the library owns the closed action vocabulary and the result
//! record.

use vstd::prelude::*;

verus! {

/// One remote-control step against the chat surface.
#[derive(Clone, Debug)]
pub enum TelegramAction {
    /// Navigate to a chat.
    OpenChat { chat_id: String },
    /// Type a message with humanlike delays.
    TypeMessage { text: String },
    /// Press send.
    SendMessage,
    /// Click the element behind the selector.
    Click { selector: String },
    /// Wait for the element behind the selector to appear.
    WaitForElement { selector: String, timeout_ms: u64 },
    /// Capture a screenshot to the path.
    Screenshot { path: String },
    /// Run a script in the page.
    ExecuteJs { script: String },
}

/// The outcome of one executed action.
#[derive(Clone, Debug)]
pub struct ActionResult {
    pub success: bool,
    pub duration_ms: u64,
    pub details: Option<String>,
}

} // verus!
