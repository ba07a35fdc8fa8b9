//! The events that other processes send to the daemon.

use vstd::prelude::*;
use crate::daemon::ExitCode;

verus! {

/// An event that arrives at a process's endpoint.
#[derive(Clone, Copy, Debug, PartialEq, Eq, Structural)]
pub enum IpcEvent {
    /// The receiving process is asked to exit.
    Exit,
    /// Any event that has nothing to do with starting and stopping.
    Unrelated,
}

/// The exit code that an event puts on the daemon's exit-signal channel, if
/// it puts one there: `Exit` asks for a clean exit, and nothing else asks for
/// anything.
pub open spec fn signal_of_event(event: IpcEvent) -> Option<i32> {
    match event {
        IpcEvent::Exit => Some(ExitCode::Success.value()),
        IpcEvent::Unrelated => None,
    }
}

/// Returns the exit code that `event` puts on the exit-signal channel, or
/// `None` where the event leaves the daemon running.
pub fn exit_signal_for_event(event: IpcEvent) -> (signal: Option<i32>)
    ensures
        signal == signal_of_event(event),
{
    match event {
        IpcEvent::Exit => Some(ExitCode::Success.code()),
        IpcEvent::Unrelated => None,
    }
}

} // verus!
