//! The life of the connection to the remote side.

use vstd::prelude::*;

verus! {

/// Where the connection stands.
#[derive(Debug)]
pub enum ConnectionState {
    Disconnected,
    /// An attempt to connect is under way.
    Connecting,
    Connected,
    /// The remote side cannot be reached at all; the text says why.
    Fatal(String),
}

/// The mathematical value of a [`ConnectionState`].
pub enum ConnectionStateView {
    Disconnected,
    Connecting,
    Connected,
    Fatal(Seq<char>),
}

impl View for ConnectionState {
    type V = ConnectionStateView;

    open spec fn view(&self) -> ConnectionStateView {
        match self {
            ConnectionState::Disconnected => ConnectionStateView::Disconnected,
            ConnectionState::Connecting => ConnectionStateView::Connecting,
            ConnectionState::Connected => ConnectionStateView::Connected,
            ConnectionState::Fatal(why) => ConnectionStateView::Fatal(why@),
        }
    }
}

/// What follows from the answer to an attempt to connect.
#[derive(Clone, Copy, Debug, PartialEq, Eq, Structural)]
pub enum ConnectOutcome {
    /// The connection stands; the remote directory is to be listed.
    Established,
    /// The attempt failed; the next tick tries again.
    Failed,
    /// No attempt was under way; the answer is dropped.
    Ignored,
}

impl ConnectionStateView {
    /// Whether a tick starts an attempt to connect: only while disconnected, and
    /// not behind a fatal popup.
    pub open spec fn attempts(self, fatal_popup: bool) -> bool {
        self is Disconnected && !fatal_popup
    }

    /// The state after a tick.
    pub open spec fn tick(self, fatal_popup: bool) -> ConnectionStateView {
        if self.attempts(fatal_popup) {
            ConnectionStateView::Connecting
        } else {
            self
        }
    }

    /// What follows from the answer to an attempt.
    pub open spec fn outcome(self, ok: bool) -> ConnectOutcome {
        if !(self is Connecting) {
            ConnectOutcome::Ignored
        } else if ok {
            ConnectOutcome::Established
        } else {
            ConnectOutcome::Failed
        }
    }

    /// The state after the answer to an attempt.
    pub open spec fn answered(self, ok: bool) -> ConnectionStateView {
        match self.outcome(ok) {
            ConnectOutcome::Established => ConnectionStateView::Connected,
            ConnectOutcome::Failed => ConnectionStateView::Disconnected,
            ConnectOutcome::Ignored => self,
        }
    }

    /// The state after a check of whether the remote side still answers. Only a
    /// standing connection can be found dead.
    pub open spec fn observed(self, alive: bool) -> ConnectionStateView {
        if self is Connected && !alive {
            ConnectionStateView::Disconnected
        } else {
            self
        }
    }

    /// The state after an error that rules the remote side out for good.
    pub open spec fn failed_for_good(self, why: Seq<char>) -> ConnectionStateView {
        ConnectionStateView::Fatal(why)
    }

    /// The state after the connection was closed on purpose.
    pub open spec fn disconnected(self) -> ConnectionStateView {
        if self is Fatal {
            self
        } else {
            ConnectionStateView::Disconnected
        }
    }
}

/// While an attempt is under way no tick starts another, whatever else is
/// observed in between.
pub proof fn theorem_one_attempt_at_a_time(
    state: ConnectionStateView,
    fatal_popup: bool,
    alive: bool,
    later_popup: bool,
)
    requires
        state.attempts(fatal_popup),
    ensures
        !state.tick(fatal_popup).attempts(later_popup),
        !state.tick(fatal_popup).observed(alive).attempts(later_popup),
        state.tick(fatal_popup).answered(false).attempts(later_popup) == !later_popup,
{
}

/// Closing the connection twice is the same as closing it once.
pub proof fn theorem_disconnect_is_idempotent(state: ConnectionStateView)
    ensures
        state.disconnected().disconnected() == state.disconnected(),
{
}

/// A fatal state is left by nothing but another fatal error.
pub proof fn theorem_fatal_is_final(state: ConnectionStateView, flag: bool)
    requires
        state is Fatal,
    ensures
        state.tick(flag) == state,
        state.answered(flag) == state,
        state.observed(flag) == state,
        state.disconnected() == state,
{
}

/// Owner of the connection state. Nothing else changes it.
#[derive(Debug)]
pub struct ConnectionManager {
    state: ConnectionState,
}

impl View for ConnectionManager {
    type V = ConnectionStateView;

    closed spec fn view(&self) -> ConnectionStateView {
        self.state@
    }
}

impl ConnectionManager {
    /// A manager that is not connected.
    pub fn new() -> (manager: ConnectionManager)
        ensures
            manager@ == ConnectionStateView::Disconnected,
    {
        ConnectionManager { state: ConnectionState::Disconnected }
    }

    /// The current state.
    pub fn state(&self) -> (state: &ConnectionState)
        ensures
            state@ == self@,
    {
        &self.state
    }

    /// Whether the connection stands.
    pub fn is_connected(&self) -> (connected: bool)
        ensures
            connected == (self@ is Connected),
    {
        match self.state {
            ConnectionState::Connected => true,
            _ => false,
        }
    }

    /// Whether the remote side is ruled out for good.
    pub fn is_fatal(&self) -> (fatal: bool)
        ensures
            fatal == (self@ is Fatal),
    {
        match self.state {
            ConnectionState::Fatal(_) => true,
            _ => false,
        }
    }

    /// One tick. Says whether the caller is to show that it connects and to try
    /// once; it is while disconnected, unless a fatal popup is up.
    pub fn tick(&mut self, fatal_popup: bool) -> (attempt: bool)
        ensures
            attempt == old(self)@.attempts(fatal_popup),
            final(self)@ == old(self)@.tick(fatal_popup),
    {
        match self.state {
            ConnectionState::Disconnected => {
                if fatal_popup {
                    false
                } else {
                    self.state = ConnectionState::Connecting;
                    true
                }
            },
            _ => false,
        }
    }

    /// Takes the answer to the attempt that a tick asked for.
    pub fn answer(&mut self, ok: bool) -> (outcome: ConnectOutcome)
        ensures
            outcome == old(self)@.outcome(ok),
            final(self)@ == old(self)@.answered(ok),
    {
        match self.state {
            ConnectionState::Connecting => {
                if ok {
                    self.state = ConnectionState::Connected;
                    ConnectOutcome::Established
                } else {
                    self.state = ConnectionState::Disconnected;
                    ConnectOutcome::Failed
                }
            },
            _ => ConnectOutcome::Ignored,
        }
    }

    /// Takes note of whether the remote side still answers, and says whether
    /// the connection was found dead just now.
    pub fn observe(&mut self, alive: bool) -> (dropped: bool)
        ensures
            dropped == (old(self)@ is Connected && !alive),
            final(self)@ == old(self)@.observed(alive),
    {
        match self.state {
            ConnectionState::Connected => {
                if alive {
                    false
                } else {
                    self.state = ConnectionState::Disconnected;
                    true
                }
            },
            _ => false,
        }
    }

    /// Rules the remote side out for good.
    pub fn fail_for_good(&mut self, why: String)
        ensures
            final(self)@ == old(self)@.failed_for_good(why@),
    {
        self.state = ConnectionState::Fatal(why);
    }

    /// Closes the connection on purpose, and says whether there was one to
    /// close.
    pub fn disconnect(&mut self) -> (was_connected: bool)
        ensures
            was_connected == (old(self)@ is Connected),
            final(self)@ == old(self)@.disconnected(),
    {
        match self.state {
            ConnectionState::Fatal(_) => false,
            ConnectionState::Connected => {
                self.state = ConnectionState::Disconnected;
                true
            },
            _ => {
                self.state = ConnectionState::Disconnected;
                false
            },
        }
    }
}

} // verus!
