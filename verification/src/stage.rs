//! Connection lifecycle stages of a remote gateway session.

use vstd::prelude::*;

verus! {

/// Snapshot of a gateway session's lifecycle, as reported by the session
/// handle.  The watchdog reads this value and never mutates it; the only
/// stage it acts on is `Connecting`, the symptom of a wedged reconnect.
#[derive(Clone, Copy, Debug, PartialEq, Eq, Structural)]
pub enum ConnectionStage {
    /// The session is fully disconnected and not reconnecting.
    Disconnected,
    /// The session is (re)connecting; staying here is the stuck symptom.
    Connecting,
    /// The session is connected and pumping events normally.
    Connected,
    /// The session has asked to resume and awaits confirmation.
    Resuming,
    /// The session has identified itself and awaits the ready signal.
    Identifying,
}

impl ConnectionStage {
    /// Whether this observation is the stuck-reconnect symptom.
    pub fn is_connecting(&self) -> (r: bool)
        ensures
            r == (*self is Connecting),
    {
        matches!(self, ConnectionStage::Connecting)
    }
}

} // verus!
