//! The polling publisher's control state: a background loop delivers
//! snapshots to a sink every period until stopped. The loop itself runs
//! outside the library; the decisions it consults — whether another
//! iteration and another delivery are due — live here, so that stopping
//! is absorbing and nothing is owed to the sink once it is observed.

use vstd::prelude::*;

verus! {

/// The default delivery period of the publisher, in milliseconds.
pub const DEFAULT_PERIOD_MS: u64 = 3000;

/// The life cycle of one publisher: never started, delivering, or
/// stopped for good.
#[derive(Clone, Copy, Debug, PartialEq, Eq, Structural)]
pub enum ListenerState {
    Idle,
    Running,
    Stopped,
}

/// The control state of one polling publisher instance.
#[derive(Clone, Copy, Debug, PartialEq, Eq, Structural)]
pub struct ProcessListener {
    pub state: ListenerState,
    pub period_ms: u64,
}

impl ProcessListener {
    /// A publisher at rest, with the default delivery period.
    pub fn new() -> (r: Self)
        ensures
            r.state is Idle,
            r.period_ms == DEFAULT_PERIOD_MS,
    {
        ProcessListener { state: ListenerState::Idle, period_ms: DEFAULT_PERIOD_MS }
    }

    /// A publisher at rest with a chosen delivery period.
    pub fn with_period(period_ms: u64) -> (r: Self)
        ensures
            r.state is Idle,
            r.period_ms == period_ms,
    {
        ProcessListener { state: ListenerState::Idle, period_ms }
    }

    /// Begins delivery: only a publisher at rest starts, and one already
    /// stopped stays stopped — a fresh instance is needed to poll again.
    pub fn start(&mut self) -> (started: bool)
        ensures
            started == (old(self).state is Idle),
            old(self).state is Idle ==> final(self).state is Running,
            !(old(self).state is Idle) ==> final(self).state == old(self).state,
            final(self).period_ms == old(self).period_ms,
    {
        match self.state {
            ListenerState::Idle => {
                self.state = ListenerState::Running;
                true
            },
            _ => false,
        }
    }

    /// Ends delivery, idempotently: after it returns, and after any
    /// later call on the same instance, no further iteration is due.
    pub fn stop(&mut self)
        ensures
            final(self).state is Stopped,
            final(self).period_ms == old(self).period_ms,
    {
        self.state = ListenerState::Stopped;
    }

    /// Whether the loop owes the sink another snapshot: exactly in the
    /// running state. The loop consults this before every delivery, so
    /// no delivery follows once a stop has been observed.
    pub fn should_poll(&self) -> (r: bool)
        ensures
            r == (self.state is Running),
    {
        match self.state {
            ListenerState::Running => true,
            _ => false,
        }
    }
}

} // verus!
