//! The change-feed session lifecycle and the process exit policy.
//!
//! The bridge is meaningless without a live feed, so connection-level
//! failures are the only conditions that terminate the process: a connect
//! error or a disconnect with an error exits with code 1, a graceful
//! disconnect with code 0.  A subscription error is only reported; row
//! delivery simply stays incomplete until the operator intervenes.

use vstd::prelude::*;

verus! {

/// Where the feed session stands.
#[derive(Clone, Copy, Debug, PartialEq, Eq, Structural)]
pub enum FeedPhase {
    /// Connection requested, no callback delivered yet.
    Starting,
    /// Connected; the table subscription has been requested.
    Connected,
    /// The table subscription was applied; row events flow.
    Subscribed,
    /// The session ended and the process exits with this code.
    Exited { code: u8 },
}

/// The feed session state machine driven by the connection callbacks.
pub struct FeedSession {
    phase: FeedPhase,
}

impl FeedSession {
    pub closed spec fn phase(self) -> FeedPhase {
        self.phase
    }

    pub fn new() -> (r: FeedSession)
        ensures
            r.phase() == FeedPhase::Starting,
    {
        FeedSession { phase: FeedPhase::Starting }
    }

    /// The current phase, for the process driving the connection.
    pub fn current_phase(&self) -> (p: FeedPhase)
        ensures
            p == self.phase(),
    {
        self.phase
    }

    /// The connection was established and credentials were received.
    pub fn on_sdb_connected(&mut self)
        ensures
            final(self).phase() == FeedPhase::Connected,
    {
        self.phase = FeedPhase::Connected;
    }

    /// The connection could not be established: fatal, exit code 1.
    pub fn on_sdb_connect_error(&mut self) -> (code: u8)
        ensures
            code == 1,
            final(self).phase() == (FeedPhase::Exited { code: 1u8 }),
    {
        self.phase = FeedPhase::Exited { code: 1 };
        1
    }

    /// The connection ended.  A disconnect carrying an error exits with
    /// code 1, a graceful disconnect with code 0.
    pub fn on_sdb_disconnected(&mut self, had_error: bool) -> (code: u8)
        ensures
            code == if had_error {
                1u8
            } else {
                0u8
            },
            final(self).phase() == (FeedPhase::Exited { code }),
    {
        let code: u8 = if had_error {
            1
        } else {
            0
        };
        self.phase = FeedPhase::Exited { code };
        code
    }

    /// The game-table subscription was applied; row events are live.
    pub fn on_subscription_applied(&mut self)
        ensures
            final(self).phase() == FeedPhase::Subscribed,
    {
        self.phase = FeedPhase::Subscribed;
    }

    /// The subscription failed to apply.  Reported, but not fatal: the
    /// session keeps its phase and the process keeps running.
    pub fn on_subscription_error(&mut self)
        ensures
            *final(self) == *old(self),
    {
    }
}

} // verus!
