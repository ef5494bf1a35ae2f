//! Perception signals: structured observations from the remote surface.
//!
//! Decoding raw payloads into these categories is the embedding process's
//! concern; the library owns the closed category types.

use vstd::prelude::*;

verus! {

/// How an observation was captured.
#[derive(Clone, Copy, PartialEq, Eq, Structural, Debug)]
pub enum SignalSource {
    /// Direct component-tree read: highest accuracy.
    Fiber,
    /// Document observation: fallback.
    Dom,
    /// Vision: emergency fallback.
    Ocr,
}

/// What kind of peer a chat belongs to.
#[derive(Clone, Copy, PartialEq, Eq, Structural, Debug)]
pub enum PeerType {
    User,
    Group,
    Channel,
    Bot,
}

} // verus!
