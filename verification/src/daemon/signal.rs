//! The exit-signal channel: how the worker's monitor and the daemon's endpoint
//! tell the daemon to leave, and with which code.
//!
//! The channel is a `crossbeam` channel of `i32`. Every producer holds a clone
//! of the sender; the daemon alone holds the receiver and takes one value from
//! it.

use vstd::prelude::*;
use crossbeam::channel::{Receiver, Sender};
use crate::daemon::ipc::{exit_signal_for_event, signal_of_event, IpcEvent};
use crate::daemon::protocol::{exit_with, next_step, DaemonEvent, DaemonState};
use crate::daemon::ExitCode;
use crate::daemon::worker::{exit_signal_for_worker, signal_of_worker_exit};

verus! {

/// The sending half of a `crossbeam` channel.
#[verifier::external_type_specification]
#[verifier::external_body]
#[verifier::reject_recursive_types(T)]
pub struct ExSender<T>(crossbeam::channel::Sender<T>);

/// The receiving half of a `crossbeam` channel.
#[verifier::external_type_specification]
#[verifier::external_body]
#[verifier::reject_recursive_types(T)]
pub struct ExReceiver<T>(crossbeam::channel::Receiver<T>);

/// What became of an exit code that a producer had for the daemon.
#[derive(Clone, Copy, Debug, PartialEq, Eq, Structural)]
pub enum Forwarded {
    /// There was nothing to tell the daemon.
    Nothing,
    /// The code was put on the channel.
    Delivered { code: i32 },
    /// The code was offered to the channel, which had lost its receiver.
    Undelivered { code: i32 },
}

impl Forwarded {
    /// The codes that were offered to the channel: none or one.
    pub open spec fn offered(self) -> Seq<i32> {
        match self {
            Forwarded::Nothing => Seq::empty(),
            Forwarded::Delivered { code } => seq![code],
            Forwarded::Undelivered { code } => seq![code],
        }
    }
}

/// The codes that a producer with `signal` in hand offers to the channel.
pub open spec fn codes_to_offer(signal: Option<i32>) -> Seq<i32> {
    match signal {
        Some(code) => seq![code],
        None => Seq::empty(),
    }
}

/// Calls `Sender::send` of `crossbeam`'s channel with `code`, and tells
/// whether it returned `Ok`. Nothing is claimed of the outcome: it depends on
/// whether the receiver is still there.
#[verifier::external_body]
fn send_code(notify: &Sender<i32>, code: i32) -> (delivered: bool) {
    notify.send(code).is_ok()
}

/// Calls `Receiver::recv` of `crossbeam`'s channel: blocks until a value
/// arrives or the channel has lost all its senders, and returns the value, or
/// `None` for the error. Nothing is claimed of the outcome: it depends on what
/// the other threads do.
#[verifier::external_body]
fn receive_code(signal: &Receiver<i32>) -> (received: Option<i32>) {
    signal.recv().ok()
}

/// What becomes of `signal` when the channel answers `delivered` to the offer
/// of its code. Without a code nothing is offered, and the answer plays no
/// part.
pub open spec fn forwarding(signal: Option<i32>, delivered: bool) -> Forwarded {
    match signal {
        Some(code) => if delivered {
            Forwarded::Delivered { code }
        } else {
            Forwarded::Undelivered { code }
        },
        None => Forwarded::Nothing,
    }
}

/// Tells what became of `code`, given whether the channel took it.
pub fn forwarded(code: i32, delivered: bool) -> (outcome: Forwarded)
    ensures
        outcome == forwarding(Some(code), delivered),
{
    if delivered {
        Forwarded::Delivered { code }
    } else {
        Forwarded::Undelivered { code }
    }
}

/// Offers `signal`, where there is one, to the channel, once.
fn forward(notify: &Sender<i32>, signal: Option<i32>) -> (outcome: Forwarded)
    ensures
        outcome.offered() == codes_to_offer(signal),
        outcome == forwarding(signal, true) || outcome == forwarding(signal, false),
{
    match signal {
        Some(code) => forwarded(code, send_code(notify, code)),
        None => Forwarded::Nothing,
    }
}

/// Tells the daemon how its worker ended. This is what the worker's monitor
/// does once the worker process is gone.
///
/// A worker that left with a code other than zero has exactly that code
/// offered to the channel, once. For a worker that left with zero, or without
/// a code, the channel is not touched.
pub fn forward_worker_exit(notify: &Sender<i32>, exit_code: Option<i32>) -> (outcome: Forwarded)
    ensures
        outcome.offered() == codes_to_offer(signal_of_worker_exit(exit_code)),
        outcome == forwarding(signal_of_worker_exit(exit_code), true) || outcome == forwarding(
            signal_of_worker_exit(exit_code),
            false,
        ),
{
    forward(notify, exit_signal_for_worker(exit_code))
}

/// Tells the daemon what an event at its endpoint asks of it. This is what the
/// daemon's endpoint does with each event that it receives.
///
/// For `Exit` one value is offered to the channel, the code of a clean exit.
/// For any other event the channel is not touched.
pub fn forward_ipc_event(notify: &Sender<i32>, event: IpcEvent) -> (outcome: Forwarded)
    ensures
        outcome.offered() == codes_to_offer(signal_of_event(event)),
        outcome == forwarding(signal_of_event(event), true) || outcome == forwarding(
            signal_of_event(event),
            false,
        ),
{
    forward(notify, exit_signal_for_event(event))
}

/// The event that a value taken from the channel is to the daemon.
pub open spec fn event_of_signal(received: Option<i32>) -> DaemonEvent {
    match received {
        Some(code) => DaemonEvent::ExitSignal { code },
        None => DaemonEvent::ChannelClosed,
    }
}

/// Turns what was taken from the exit-signal channel into the event that the
/// daemon is waiting for.
pub fn exit_event(received: Option<i32>) -> (event: DaemonEvent)
    ensures
        event == event_of_signal(received),
{
    match received {
        Some(code) => DaemonEvent::ExitSignal { code },
        None => DaemonEvent::ChannelClosed,
    }
}

/// Blocks until the exit-signal channel yields a value or has lost all its
/// senders, and returns the event that this is to the daemon. Which of the
/// two comes, and with which code, is up to the producers.
pub fn await_exit_signal(signal: &Receiver<i32>) -> (event: DaemonEvent)
    ensures
        event is ExitSignal || event is ChannelClosed,
{
    exit_event(receive_code(signal))
}

/// A worker that leaves with zero puts nothing on the exit-signal channel. A
/// worker that leaves with another code has exactly that code offered to the
/// channel, and a daemon that takes it from there as its first value leaves
/// with that code.
pub proof fn worker_exit_code_is_passed_through(exit_code: i32)
    ensures
        exit_code == 0 ==> codes_to_offer(signal_of_worker_exit(Some(exit_code))).len() == 0,
        exit_code != 0 ==> codes_to_offer(signal_of_worker_exit(Some(exit_code))) == seq![exit_code],
        exit_code != 0 ==> next_step(
            DaemonState::Exiting,
            event_of_signal(signal_of_worker_exit(Some(exit_code))),
        ) == exit_with(exit_code),
{
}

/// Of the events at the daemon's endpoint, `Exit` has exactly one value offered
/// to the exit-signal channel, and a daemon that takes it from there as its
/// first value leaves with success. Every other event has nothing offered.
pub proof fn an_exit_event_ends_the_daemon(event: IpcEvent)
    ensures
        event is Exit ==> codes_to_offer(signal_of_event(event)) == seq![ExitCode::Success.value()],
        event is Exit ==> next_step(DaemonState::Exiting, event_of_signal(signal_of_event(event)))
            == exit_with(ExitCode::Success.value()),
        !(event is Exit) ==> codes_to_offer(signal_of_event(event)).len() == 0,
{
}

} // verus!
