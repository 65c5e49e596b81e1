//! The shutdown notifier: what operating-system signals do to the life of
//! the tunnel.
//!
//! Signals arrive in a context of their own. All that happens there is one
//! step of the state machine below; the tick loop only ever reads the state.

use vstd::prelude::*;

verus! {

/// How far shutdown has come. The state only ever moves forward:
/// `Running`, then `StopRequested`, then `Killed`.
#[derive(Debug, Clone, Copy, PartialEq, Eq, Structural)]
pub enum ShutdownState {
    /// No shutdown was asked for.
    Running,
    /// Shutdown was asked for once: finish the current tick, then leave.
    StopRequested,
    /// Shutdown was asked for again: leave at once.
    Killed,
}

/// A signal as the notifier sees it.
#[derive(Debug, Clone, Copy, PartialEq, Eq, Structural)]
pub enum Signal {
    /// Interrupt from the keyboard.
    Interrupt,
    /// Request to terminate.
    Terminate,
    /// The controlling terminal hung up.
    Hangup,
    /// The terminal window changed its size.
    Resize,
    /// Any other signal, by its number.
    Other(i32),
}

impl Signal {
    /// Interrupt, terminate and hang-up all ask for shutdown; nothing else does.
    pub open spec fn spec_requests_shutdown(self) -> bool {
        self is Interrupt || self is Terminate || self is Hangup
    }

    /// Whether the signal asks for shutdown.
    #[verifier::when_used_as_spec(spec_requests_shutdown)]
    pub fn requests_shutdown(self) -> (asks: bool)
        ensures
            asks == self.spec_requests_shutdown(),
    {
        match self {
            Signal::Interrupt | Signal::Terminate | Signal::Hangup => true,
            Signal::Resize | Signal::Other(_) => false,
        }
    }
}

impl ShutdownState {
    /// The place of the state in the order of shutdown.
    pub open spec fn rank(self) -> nat {
        match self {
            ShutdownState::Running => 0,
            ShutdownState::StopRequested => 1,
            ShutdownState::Killed => 2,
        }
    }

    /// The state after `signal` was delivered in this state.
    pub open spec fn after(self, signal: Signal) -> ShutdownState {
        if signal.spec_requests_shutdown() {
            match self {
                ShutdownState::Running => ShutdownState::StopRequested,
                ShutdownState::StopRequested => ShutdownState::Killed,
                ShutdownState::Killed => ShutdownState::Killed,
            }
        } else {
            self
        }
    }

    /// The state after all of `signals` were delivered in order.
    pub open spec fn after_all(self, signals: Seq<Signal>) -> ShutdownState
        decreases signals.len(),
    {
        if signals.len() == 0 {
            self
        } else {
            self.after_all(signals.drop_last()).after(signals.last())
        }
    }

    /// Delivers `signal`: one step of the state machine.
    pub fn on_signal(self, signal: Signal) -> (next: ShutdownState)
        ensures
            next == self.after(signal),
    {
        if signal.requests_shutdown() {
            match self {
                ShutdownState::Running => ShutdownState::StopRequested,
                ShutdownState::StopRequested => ShutdownState::Killed,
                ShutdownState::Killed => ShutdownState::Killed,
            }
        } else {
            self
        }
    }

    /// Whether the process has to leave at once.
    pub fn is_killed(self) -> (killed: bool)
        ensures
            killed == (self == ShutdownState::Killed),
    {
        match self {
            ShutdownState::Killed => true,
            _ => false,
        }
    }

    /// Whether shutdown was asked for at all.
    pub fn is_stopping(self) -> (stopping: bool)
        ensures
            stopping == (self != ShutdownState::Running),
    {
        match self {
            ShutdownState::Running => false,
            _ => true,
        }
    }
}

/// The first request for shutdown asks the loop to stop; a second one before
/// it has left kills it.
pub proof fn lemma_shutdown_escalates(first: Signal, second: Signal)
    requires
        first.spec_requests_shutdown(),
        second.spec_requests_shutdown(),
    ensures
        ShutdownState::Running.after(first) == ShutdownState::StopRequested,
        ShutdownState::Running.after(first).after(second) == ShutdownState::Killed,
{
}

/// A signal that does not ask for shutdown, such as a resize, changes nothing.
pub proof fn lemma_other_signals_are_ignored(state: ShutdownState, signal: Signal)
    requires
        !signal.spec_requests_shutdown(),
    ensures
        state.after(signal) == state,
{
}

/// One signal moves the state forward by at most one step and never back.
pub proof fn lemma_step_is_forward(state: ShutdownState, signal: Signal)
    ensures
        state.rank() <= state.after(signal).rank() <= state.rank() + 1,
        state == ShutdownState::Killed ==> state.after(signal) == ShutdownState::Killed,
{
}

/// Whatever signals arrive, in whatever order, the state never moves back.
pub proof fn lemma_never_backward(state: ShutdownState, signals: Seq<Signal>)
    ensures
        state.rank() <= state.after_all(signals).rank(),
    decreases signals.len(),
{
    if signals.len() > 0 {
        lemma_never_backward(state, signals.drop_last());
        lemma_step_is_forward(state.after_all(signals.drop_last()), signals.last());
    }
}

/// The shutdown notifier: the two flags that signal delivery raises, first
/// `ctrlc`, then `kill`.
#[derive(Debug, Clone, Copy, PartialEq, Eq)]
pub struct OsNotifier {
    ctrlc: bool,
    kill: bool,
}

impl View for OsNotifier {
    type V = ShutdownState;

    closed spec fn view(&self) -> ShutdownState {
        if self.kill {
            ShutdownState::Killed
        } else if self.ctrlc {
            ShutdownState::StopRequested
        } else {
            ShutdownState::Running
        }
    }
}

impl OsNotifier {
    #[verifier::type_invariant]
    spec fn kill_follows_ctrlc(self) -> bool {
        self.kill ==> self.ctrlc
    }

    /// A notifier that has seen no signal.
    pub fn new() -> (notifier: OsNotifier)
        ensures
            notifier@ == ShutdownState::Running,
    {
        OsNotifier { ctrlc: false, kill: false }
    }

    /// The notifier that stands in `state`.
    pub fn from_state(state: ShutdownState) -> (notifier: OsNotifier)
        ensures
            notifier@ == state,
    {
        match state {
            ShutdownState::Running => OsNotifier { ctrlc: false, kill: false },
            ShutdownState::StopRequested => OsNotifier { ctrlc: true, kill: false },
            ShutdownState::Killed => OsNotifier { ctrlc: true, kill: true },
        }
    }

    /// The notifier with the given flags raised. A raised `kill` counts as
    /// a raised `ctrlc` too, since the second request cannot come before the
    /// first.
    pub fn from_flags(ctrlc: bool, kill: bool) -> (notifier: OsNotifier)
        ensures
            notifier@ == if kill {
                ShutdownState::Killed
            } else if ctrlc {
                ShutdownState::StopRequested
            } else {
                ShutdownState::Running
            },
    {
        OsNotifier { ctrlc: ctrlc || kill, kill }
    }

    /// The state the notifier stands in.
    pub fn state(&self) -> (state: ShutdownState)
        ensures
            state == self@,
    {
        if self.kill {
            ShutdownState::Killed
        } else if self.ctrlc {
            ShutdownState::StopRequested
        } else {
            ShutdownState::Running
        }
    }

    /// Whether shutdown was forced: a second request came in.
    pub fn is_kill_shutdown(&self) -> (killed: bool)
        ensures
            killed == (self@ == ShutdownState::Killed),
    {
        self.kill
    }

    /// Whether shutdown was asked for. It stays true once the notifier is
    /// killed.
    pub fn is_ctrlc_pressed(&self) -> (pressed: bool)
        ensures
            pressed == (self@ != ShutdownState::Running),
    {
        proof {
            use_type_invariant(self);
        }
        self.ctrlc
    }

    /// Records the delivery of `signal`.
    pub fn notify(&mut self, signal: Signal)
        ensures
            final(self)@ == old(self)@.after(signal),
    {
        let next = self.state().on_signal(signal);
        *self = OsNotifier::from_state(next);
    }
}

} // verus!
