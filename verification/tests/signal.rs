use crossbeam::channel::unbounded;
use espanso_daemon::daemon::ipc::{exit_signal_for_event, IpcEvent};
use espanso_daemon::daemon::protocol::{step, DaemonAction, DaemonEvent, DaemonState};
use espanso_daemon::daemon::signal::{
    await_exit_signal, exit_event, forward_ipc_event, forward_worker_exit, forwarded, Forwarded,
};
use espanso_daemon::daemon::worker::exit_signal_for_worker;

#[test]
fn worker_leaving_with_zero_sends_nothing() {
    let (notify, signal) = unbounded::<i32>();
    assert_eq!(forward_worker_exit(&notify, Some(0)), Forwarded::Nothing);
    assert!(signal.is_empty());
}

#[test]
fn worker_leaving_without_a_code_sends_nothing() {
    let (notify, signal) = unbounded::<i32>();
    assert_eq!(forward_worker_exit(&notify, None), Forwarded::Nothing);
    assert!(signal.is_empty());
}

#[test]
fn worker_leaving_with_a_code_sends_exactly_that_code() {
    let (notify, signal) = unbounded::<i32>();
    assert_eq!(forward_worker_exit(&notify, Some(7)), Forwarded::Delivered { code: 7 });
    assert_eq!(signal.len(), 1);
    assert_eq!(await_exit_signal(&signal), DaemonEvent::ExitSignal { code: 7 });
    assert!(signal.is_empty());
}

#[test]
fn negative_worker_code_is_passed_on() {
    let (notify, signal) = unbounded::<i32>();
    assert_eq!(forward_worker_exit(&notify, Some(-1)), Forwarded::Delivered { code: -1 });
    assert_eq!(await_exit_signal(&signal), DaemonEvent::ExitSignal { code: -1 });
}

#[test]
fn worker_code_reaches_the_daemon_exit_code() {
    let (notify, signal) = unbounded::<i32>();
    forward_worker_exit(&notify, Some(7));
    let event = await_exit_signal(&signal);
    assert_eq!(
        step(DaemonState::Exiting, event),
        (DaemonState::Exited { code: 7 }, DaemonAction::Exit { code: 7 })
    );
}

#[test]
fn exit_event_sends_exactly_one_value() {
    let (notify, signal) = unbounded::<i32>();
    assert_eq!(forward_ipc_event(&notify, IpcEvent::Exit), Forwarded::Delivered { code: 0 });
    assert_eq!(signal.len(), 1);
    assert_eq!(await_exit_signal(&signal), DaemonEvent::ExitSignal { code: 0 });
    assert!(signal.is_empty());
}

#[test]
fn unrelated_event_sends_nothing() {
    let (notify, signal) = unbounded::<i32>();
    assert_eq!(forward_ipc_event(&notify, IpcEvent::Unrelated), Forwarded::Nothing);
    assert!(signal.is_empty());
}

#[test]
fn code_for_a_lost_receiver_is_undelivered() {
    let (notify, signal) = unbounded::<i32>();
    drop(signal);
    assert_eq!(forward_worker_exit(&notify, Some(3)), Forwarded::Undelivered { code: 3 });
    assert_eq!(forward_ipc_event(&notify, IpcEvent::Exit), Forwarded::Undelivered { code: 0 });
    assert_eq!(forward_worker_exit(&notify, Some(0)), Forwarded::Nothing);
}

#[test]
fn channel_without_senders_is_closed() {
    let (notify, signal) = unbounded::<i32>();
    drop(notify);
    assert_eq!(await_exit_signal(&signal), DaemonEvent::ChannelClosed);
    assert_eq!(
        step(DaemonState::Exiting, DaemonEvent::ChannelClosed),
        (DaemonState::Exited { code: 100 }, DaemonAction::Exit { code: 100 })
    );
}

#[test]
fn values_sent_before_the_senders_left_still_arrive() {
    let (notify, signal) = unbounded::<i32>();
    forward_worker_exit(&notify, Some(5));
    drop(notify);
    assert_eq!(await_exit_signal(&signal), DaemonEvent::ExitSignal { code: 5 });
    assert_eq!(await_exit_signal(&signal), DaemonEvent::ChannelClosed);
}

#[test]
fn first_of_two_signals_is_received_first() {
    let (notify, signal) = unbounded::<i32>();
    let monitor = notify.clone();
    forward_worker_exit(&monitor, Some(7));
    forward_ipc_event(&notify, IpcEvent::Exit);
    assert_eq!(await_exit_signal(&signal), DaemonEvent::ExitSignal { code: 7 });
    assert_eq!(signal.len(), 1);
}

#[test]
fn signal_from_another_thread_arrives() {
    let (notify, signal) = unbounded::<i32>();
    let outcome = crossbeam::scope(|scope| {
        let monitor = scope.spawn(|_| forward_worker_exit(&notify, Some(12)));
        assert_eq!(await_exit_signal(&signal), DaemonEvent::ExitSignal { code: 12 });
        monitor.join().unwrap()
    })
    .unwrap();
    assert_eq!(outcome, Forwarded::Delivered { code: 12 });
}

#[test]
fn exit_event_of_a_received_value() {
    assert_eq!(exit_event(Some(4)), DaemonEvent::ExitSignal { code: 4 });
    assert_eq!(exit_event(Some(0)), DaemonEvent::ExitSignal { code: 0 });
    assert_eq!(exit_event(None), DaemonEvent::ChannelClosed);
}

#[test]
fn signals_for_worker_exits() {
    assert_eq!(exit_signal_for_worker(Some(0)), None);
    assert_eq!(exit_signal_for_worker(None), None);
    assert_eq!(exit_signal_for_worker(Some(1)), Some(1));
    assert_eq!(exit_signal_for_worker(Some(i32::MIN)), Some(i32::MIN));
    assert_eq!(exit_signal_for_worker(Some(i32::MAX)), Some(i32::MAX));
}

#[test]
fn signals_for_ipc_events() {
    assert_eq!(exit_signal_for_event(IpcEvent::Exit), Some(0));
    assert_eq!(exit_signal_for_event(IpcEvent::Unrelated), None);
}

#[test]
fn outcome_of_an_offer() {
    assert_eq!(forwarded(7, true), Forwarded::Delivered { code: 7 });
    assert_eq!(forwarded(7, false), Forwarded::Undelivered { code: 7 });
    assert_eq!(forwarded(0, true), Forwarded::Delivered { code: 0 });
}
