//! What the scheduler does when the operating system signals it.

use vstd::prelude::*;

verus! {

/// A signal that the scheduler listens for.
#[derive(Clone, Copy, Debug, PartialEq, Eq, Structural)]
pub enum Signal {
    /// The terminal was closed, or a reload was asked for.
    Hangup,
    /// Termination was asked for.
    Terminate,
    /// The process was interrupted from the keyboard.
    Interrupt,
    /// The process was asked to quit.
    Quit,
}

/// What follows a signal.
#[derive(Clone, Copy, Debug, PartialEq, Eq, Structural)]
pub enum SignalAction {
    /// Go on as before.
    Continue,
    /// Stop listening and end the process with this exit code.
    Shutdown(i32),
}

/// What follows a signal: a hangup changes nothing, every other signal shuts
/// the scheduler down with exit code one.
pub open spec fn on_signal_spec(signal: Signal) -> SignalAction {
    match signal {
        Signal::Hangup => SignalAction::Continue,
        _ => SignalAction::Shutdown(1),
    }
}

/// Decides what follows a signal. Shutdown is immediate: it waits neither for
/// a fetch nor for a running command.
pub fn on_signal(signal: Signal) -> (action: SignalAction)
    ensures
        action == on_signal_spec(signal),
{
    match signal {
        Signal::Hangup => SignalAction::Continue,
        Signal::Terminate | Signal::Interrupt | Signal::Quit => SignalAction::Shutdown(1),
    }
}

} // verus!
