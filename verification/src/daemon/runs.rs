//! Whole runs of the daemon, and what holds of every one of them.
//!
//! A run is the sequence of events that the driver reports, beginning with
//! `Started`. The daemon answers the event at position `i` with the action at
//! position `i`, and the event at position `i + 1` is what came of that action.
//! Unless a statement says otherwise, it assumes nothing about the driver: it
//! holds of every sequence of events, also of those that no honest driver
//! would report.

use vstd::prelude::*;
use crate::daemon::protocol::{
    next_step, window_open, AbortReason, DaemonAction, DaemonEvent, DaemonState, LockName,
    Retirement, ALREADY_RUNNING_CODE, RETRY_INTERVAL_MS, RETRY_WINDOW_MS,
};

verus! {

/// The state that a daemon reaches from `Idle` through `events`, and the
/// actions that it asked for on the way, one for each event.
pub open spec fn run(events: Seq<DaemonEvent>) -> (DaemonState, Seq<DaemonAction>)
    decreases events.len(),
{
    if events.len() == 0 {
        (DaemonState::Idle, Seq::empty())
    } else {
        let before = run(events.drop_last());
        let next = next_step(before.0, events.last());
        (next.0, before.1.push(next.1))
    }
}

/// The state that a daemon reaches from `Idle` through `events`.
pub open spec fn state_after(events: Seq<DaemonEvent>) -> DaemonState {
    run(events).0
}

/// The actions that a daemon asks for on its way through `events`.
pub open spec fn actions_of(events: Seq<DaemonEvent>) -> Seq<DaemonAction> {
    run(events).1
}

/// The action that the driver is performing while the daemon is in `state`.
/// In `Idle` there is none.
pub open spec fn pending_action(state: DaemonState) -> Option<DaemonAction> {
    match state {
        DaemonState::Idle => None,
        DaemonState::AcquiringDaemonLock => Some(DaemonAction::AcquireLock(LockName::Daemon)),
        DaemonState::ProbingExistingWorker => Some(DaemonAction::ConnectToWorker),
        DaemonState::RetiringStaleWorker(phase) => Some(
            match phase {
                Retirement::TryingLock => DaemonAction::AcquireLock(LockName::Worker),
                Retirement::SendingExit => DaemonAction::SendExit,
                Retirement::StartingWindow => DaemonAction::ReadClock,
                Retirement::CheckingWindow { .. } => DaemonAction::ReadClock,
                Retirement::Polling { .. } => DaemonAction::AcquireLock(LockName::Worker),
                Retirement::Sleeping { .. } => DaemonAction::Sleep { millis: RETRY_INTERVAL_MS },
                Retirement::ReleasingLock => DaemonAction::ReleaseLock(LockName::Worker),
            },
        ),
        DaemonState::SpawningWorker => Some(DaemonAction::SpawnWorker),
        DaemonState::Serving => Some(DaemonAction::StartIpcServer),
        DaemonState::Exiting => Some(DaemonAction::AwaitExitSignal),
        DaemonState::Exited { code } => Some(DaemonAction::Exit { code }),
        DaemonState::Aborted { reason } => Some(DaemonAction::Abort { reason }),
    }
}

/// The actions with which the daemon stops.
pub open spec fn stops(action: DaemonAction) -> bool {
    action is Exit || action is Abort
}

/// How far the daemon has come: a number that no step makes smaller.
pub open spec fn progress(state: DaemonState) -> nat {
    match state {
        DaemonState::Idle => 0,
        DaemonState::AcquiringDaemonLock => 1,
        DaemonState::ProbingExistingWorker => 2,
        DaemonState::RetiringStaleWorker(Retirement::TryingLock) => 3,
        DaemonState::RetiringStaleWorker(Retirement::SendingExit) => 4,
        DaemonState::RetiringStaleWorker(Retirement::StartingWindow) => 5,
        DaemonState::RetiringStaleWorker(Retirement::CheckingWindow { .. }) => 6,
        DaemonState::RetiringStaleWorker(Retirement::Polling { .. }) => 6,
        DaemonState::RetiringStaleWorker(Retirement::Sleeping { .. }) => 6,
        DaemonState::RetiringStaleWorker(Retirement::ReleasingLock) => 7,
        DaemonState::SpawningWorker => 8,
        DaemonState::Serving => 9,
        DaemonState::Exiting => 10,
        DaemonState::Exited { .. } => 11,
        DaemonState::Aborted { .. } => 11,
    }
}

/// The actions that a run can hold more than once: those of the wait for the
/// worker lock, and the last word of a daemon that has stopped.
pub open spec fn may_repeat(action: DaemonAction) -> bool {
    match action {
        DaemonAction::ReadClock => true,
        DaemonAction::AcquireLock(LockName::Worker) => true,
        DaemonAction::Sleep { .. } => true,
        DaemonAction::Exit { .. } => true,
        DaemonAction::Abort { .. } => true,
        _ => false,
    }
}

/// The states in which no worker has been asked for yet.
pub open spec fn before_spawn(state: DaemonState) -> bool {
    match state {
        DaemonState::Idle
        | DaemonState::AcquiringDaemonLock
        | DaemonState::ProbingExistingWorker
        | DaemonState::RetiringStaleWorker(_) => true,
        _ => false,
    }
}

/// The states in which the daemon is at work under its own lock.
pub open spec fn under_daemon_lock(state: DaemonState) -> bool {
    match state {
        DaemonState::ProbingExistingWorker
        | DaemonState::RetiringStaleWorker(_)
        | DaemonState::SpawningWorker
        | DaemonState::Serving
        | DaemonState::Exiting => true,
        _ => false,
    }
}

/// The states in which a worker has been asked to exit and still holds its
/// lock, as far as the daemon knows.
pub open spec fn waiting_for_worker(state: DaemonState) -> bool {
    match state {
        DaemonState::RetiringStaleWorker(Retirement::StartingWindow)
        | DaemonState::RetiringStaleWorker(Retirement::CheckingWindow { .. })
        | DaemonState::RetiringStaleWorker(Retirement::Polling { .. })
        | DaemonState::RetiringStaleWorker(Retirement::Sleeping { .. }) => true,
        _ => false,
    }
}

/// The actions that touch the worker, its lock, its endpoint or the daemon's
/// own endpoint: all but the attempt at the daemon lock and the two ways of
/// stopping.
pub open spec fn acts_for_worker(action: DaemonAction) -> bool {
    match action {
        DaemonAction::AcquireLock(LockName::Daemon) => false,
        DaemonAction::ReleaseLock(LockName::Daemon) => false,
        DaemonAction::Exit { .. } => false,
        DaemonAction::Abort { .. } => false,
        _ => true,
    }
}

/// Whether the daemon holds the lock `name` after `events`: it holds a lock
/// from the moment an attempt at it is granted until a release of it is
/// carried out.
pub open spec fn holds_lock(events: Seq<DaemonEvent>, name: LockName) -> bool
    decreases events.len(),
{
    if events.len() <= 1 {
        false
    } else {
        let asked = actions_of(events.drop_last()).last();
        if asked == DaemonAction::AcquireLock(name) && events.last() == DaemonEvent::LockGranted {
            true
        } else if asked == DaemonAction::ReleaseLock(name) && events.last()
            == DaemonEvent::Completed {
            false
        } else {
            holds_lock(events.drop_last(), name)
        }
    }
}

/// How often `wanted` is among `actions`.
pub open spec fn count_of(actions: Seq<DaemonAction>, wanted: DaemonAction) -> nat
    decreases actions.len(),
{
    if actions.len() == 0 {
        0
    } else {
        count_of(actions.drop_last(), wanted) + if actions.last() == wanted {
            1nat
        } else {
            0nat
        }
    }
}

/// The least that the clock can show after `events`: its last reading, and on
/// top of it the time that the daemon has slept since.
pub open spec fn clock_floor(events: Seq<DaemonEvent>) -> nat
    decreases events.len(),
{
    if events.len() == 0 {
        0
    } else {
        let before = events.drop_last();
        match events.last() {
            DaemonEvent::Clock { now_ms } => now_ms as nat,
            DaemonEvent::Completed => match pending_action(state_after(before)) {
                Some(DaemonAction::Sleep { millis }) => (clock_floor(before) + millis) as nat,
                _ => clock_floor(before),
            },
            _ => clock_floor(before),
        }
    }
}

/// Whether the clock of a run is honest: it never runs backwards, and a sleep
/// takes at least as long as was asked for.
pub open spec fn clock_is_honest(events: Seq<DaemonEvent>) -> bool {
    forall|i: int|
        0 <= i < events.len() ==> (#[trigger] events[i] matches DaemonEvent::Clock { now_ms }
            ==> now_ms >= clock_floor(events.take(i)))
}

/// One action is asked for per event.
pub proof fn one_action_per_event(events: Seq<DaemonEvent>)
    ensures
        actions_of(events).len() == events.len(),
    decreases events.len(),
{
    if events.len() > 0 {
        one_action_per_event(events.drop_last());
    }
}

/// A run goes through its prefixes: the action at position `i` is the answer
/// to the event at position `i` in the state that the events before it led to,
/// and the state after it is that answer's state.
pub proof fn run_goes_through_prefixes(events: Seq<DaemonEvent>, i: int)
    requires
        0 <= i < events.len(),
    ensures
        actions_of(events)[i] == next_step(state_after(events.take(i)), events[i]).1,
        state_after(events.take(i + 1)) == next_step(state_after(events.take(i)), events[i]).0,
        actions_of(events.take(i + 1)) == actions_of(events).take(i + 1),
    decreases events.len(),
{
    one_action_per_event(events);
    one_action_per_event(events.drop_last());
    if i == events.len() - 1 {
        assert(events.take(i) == events.drop_last());
        assert(events.take(i + 1) == events);
        assert(actions_of(events).take(i + 1) == actions_of(events));
    } else {
        run_goes_through_prefixes(events.drop_last(), i);
        assert(events.drop_last().take(i) == events.take(i));
        assert(events.drop_last().take(i + 1) == events.take(i + 1));
        assert(actions_of(events.drop_last()).take(i + 1) == actions_of(events).take(i + 1));
    }
}

/// Every answer of the daemon is the action that is pending in the state that
/// it goes on from.
pub proof fn the_answer_is_the_pending_action(state: DaemonState, event: DaemonEvent)
    ensures
        pending_action(next_step(state, event).0) == Some(next_step(state, event).1),
{
}

/// A daemon that has left or given up does nothing else: whatever is reported
/// to it afterwards, it repeats its last word.
pub proof fn a_stopped_daemon_stays_stopped(events: Seq<DaemonEvent>, i: int, j: int)
    requires
        0 <= i <= j < events.len(),
        stops(actions_of(events)[i]),
    ensures
        actions_of(events)[j] == actions_of(events)[i],
    decreases j - i,
{
    if i < j {
        a_stopped_daemon_stays_stopped(events, i, j - 1);
        run_goes_through_prefixes(events, j - 1);
        run_goes_through_prefixes(events, j);
    }
}

/// The first three steps of a run are forced: a state of the way in tells how
/// many events there were and what they said.
proof fn lemma_way_in(events: Seq<DaemonEvent>)
    ensures
        state_after(events) is Idle <==> events.len() == 0,
        state_after(events) is AcquiringDaemonLock ==> events.len() == 1 && events[0]
            == DaemonEvent::Started,
        state_after(events) is ProbingExistingWorker ==> events.len() == 2 && events[0]
            == DaemonEvent::Started && events[1] == DaemonEvent::LockGranted,
        state_after(events) == DaemonState::RetiringStaleWorker(Retirement::TryingLock)
            ==> events.len() == 3 && events[0] == DaemonEvent::Started && events[1]
            == DaemonEvent::LockGranted && events[2] == DaemonEvent::Completed,
    decreases events.len(),
{
    if events.len() > 0 {
        lemma_way_in(events.drop_last());
    }
}

/// While the daemon is at work under its lock, the run began with the start
/// and the grant of the daemon lock; and only then is anything done for the
/// worker.
proof fn lemma_daemon_lock_first(events: Seq<DaemonEvent>)
    ensures
        under_daemon_lock(state_after(events)) ==> events.len() >= 2 && events[0]
            == DaemonEvent::Started && events[1] == DaemonEvent::LockGranted,
        forall|i: int|
            0 <= i < events.len() && acts_for_worker(#[trigger] actions_of(events)[i]) ==> i >= 1
                && events[0] == DaemonEvent::Started && events[1] == DaemonEvent::LockGranted,
    decreases events.len(),
{
    one_action_per_event(events);
    if events.len() > 0 {
        let before = events.drop_last();
        lemma_daemon_lock_first(before);
        lemma_way_in(before);
        one_action_per_event(before);
        assert forall|i: int|
            0 <= i < events.len() && acts_for_worker(
                #[trigger] actions_of(events)[i],
            ) implies i >= 1 && events[0] == DaemonEvent::Started && events[1]
            == DaemonEvent::LockGranted by {
            if i < events.len() - 1 {
                assert(actions_of(events)[i] == actions_of(before)[i]);
                assert(before[0] == events[0]);
                assert(before[1] == events[1]);
            }
        }
    }
}

/// A daemon that waits for a worker to let go has asked that worker to exit,
/// as the fourth thing it did.
proof fn lemma_exit_was_sent(events: Seq<DaemonEvent>)
    ensures
        waiting_for_worker(state_after(events)) || state_after(events)
            == DaemonState::RetiringStaleWorker(Retirement::SendingExit) ==> events.len() >= 4
            && actions_of(events)[3] == DaemonAction::SendExit,
    decreases events.len(),
{
    one_action_per_event(events);
    if events.len() > 0 {
        let before = events.drop_last();
        lemma_exit_was_sent(before);
        lemma_way_in(before);
        one_action_per_event(before);
        if before.len() >= 4 {
            assert(actions_of(events)[3] == actions_of(before)[3]);
        }
    }
}

/// From one prefix of a run to a longer one the daemon does not fall back,
/// and it gets ahead unless it waits for the worker lock or has stopped.
proof fn lemma_progress(events: Seq<DaemonEvent>, i: int, j: int)
    requires
        0 <= i <= j <= events.len(),
    ensures
        progress(state_after(events.take(i))) <= progress(state_after(events.take(j))),
        i < j && progress(state_after(events.take(i))) != 6 && progress(
            state_after(events.take(i)),
        ) != 11 ==> progress(state_after(events.take(i))) < progress(state_after(events.take(j))),
    decreases j - i,
{
    if i < j {
        lemma_progress(events, i, j - 1);
        run_goes_through_prefixes(events, j - 1);
    }
}

/// As long as no worker has been asked for, none was; and in the whole run at
/// most one is.
proof fn lemma_one_spawn(events: Seq<DaemonEvent>)
    ensures
        before_spawn(state_after(events)) ==> forall|j: int|
            0 <= j < events.len() ==> actions_of(events)[j] != DaemonAction::SpawnWorker,
        state_after(events) == (DaemonState::Aborted { reason: AbortReason::WorkerStuck })
            ==> forall|j: int|
            0 <= j < events.len() ==> actions_of(events)[j] != DaemonAction::SpawnWorker,
        forall|i: int, j: int|
            0 <= i < events.len() && 0 <= j < events.len() && actions_of(events)[i]
                == DaemonAction::SpawnWorker && actions_of(events)[j] == DaemonAction::SpawnWorker
                ==> i == j,
        forall|i: int|
            0 <= i < events.len() && actions_of(events)[i] == (DaemonAction::Abort {
                reason: AbortReason::WorkerStuck,
            }) ==> state_after(events) == (DaemonState::Aborted {
                reason: AbortReason::WorkerStuck,
            }),
    decreases events.len(),
{
    one_action_per_event(events);
    if events.len() > 0 {
        let before = events.drop_last();
        lemma_one_spawn(before);
        one_action_per_event(before);
        assert forall|j: int| 0 <= j < events.len() - 1 implies actions_of(events)[j]
            == actions_of(before)[j] by {}
    }
}

/// What the daemon holds follows from where it stands: the worker lock only
/// while it hands it back, or after it gave up; its own lock whenever it is at
/// work. And the last action of a run is the one pending in its last state.
proof fn lemma_lock_ledger(events: Seq<DaemonEvent>)
    ensures
        events.len() > 0 ==> pending_action(state_after(events)) == Some(
            actions_of(events).last(),
        ),
        holds_lock(events, LockName::Worker) ==> state_after(events)
            == DaemonState::RetiringStaleWorker(Retirement::ReleasingLock) || state_after(
            events,
        ) is Aborted,
        under_daemon_lock(state_after(events)) ==> holds_lock(events, LockName::Daemon),
    decreases events.len(),
{
    if events.len() > 0 {
        lemma_lock_ledger(events.drop_last());
        lemma_way_in(events.drop_last());
        one_action_per_event(events.drop_last());
    }
}

/// How far a run has got with its attempts at the worker lock: the sleeps and
/// attempts so far fit into the time that has passed since the retry window
/// began.
spec fn polling_in_step(events: Seq<DaemonEvent>) -> bool {
    let sleeps = count_of(actions_of(events), DaemonAction::Sleep { millis: RETRY_INTERVAL_MS });
    let attempts = count_of(actions_of(events), DaemonAction::AcquireLock(LockName::Worker));
    let floor = clock_floor(events);
    match state_after(events) {
        DaemonState::Idle
        | DaemonState::AcquiringDaemonLock
        | DaemonState::ProbingExistingWorker => sleeps == 0 && attempts == 0,
        DaemonState::RetiringStaleWorker(phase) => match phase {
            Retirement::TryingLock
            | Retirement::SendingExit
            | Retirement::StartingWindow => sleeps == 0 && attempts == 1,
            Retirement::CheckingWindow { started_ms } => {
                &&& attempts == sleeps + 1
                &&& started_ms + sleeps * RETRY_INTERVAL_MS <= floor
                &&& sleeps * RETRY_INTERVAL_MS <= RETRY_WINDOW_MS
            },
            Retirement::Polling { started_ms } => {
                &&& attempts == sleeps + 2
                &&& started_ms + sleeps * RETRY_INTERVAL_MS <= floor
                &&& floor < started_ms + RETRY_WINDOW_MS
            },
            Retirement::Sleeping { started_ms } => {
                &&& attempts == sleeps + 1
                &&& sleeps >= 1
                &&& started_ms + (sleeps - 1) * RETRY_INTERVAL_MS <= floor
                &&& floor < started_ms + RETRY_WINDOW_MS
            },
            Retirement::ReleasingLock => {
                &&& attempts <= sleeps + 2
                &&& sleeps * RETRY_INTERVAL_MS < RETRY_WINDOW_MS
            },
        },
        _ => {
            &&& attempts <= sleeps + 2
            &&& sleeps * RETRY_INTERVAL_MS <= RETRY_WINDOW_MS
            &&& sleeps * RETRY_INTERVAL_MS == RETRY_WINDOW_MS ==> attempts <= sleeps + 1
        },
    }
}

/// Under an honest clock every run keeps in step.
proof fn lemma_polling_in_step(events: Seq<DaemonEvent>)
    requires
        clock_is_honest(events),
    ensures
        polling_in_step(events),
    decreases events.len(),
{
    if events.len() > 0 {
        let before = events.drop_last();
        assert(clock_is_honest(before)) by {
            assert forall|i: int| 0 <= i < before.len() implies (#[trigger] before[i] matches
            DaemonEvent::Clock { now_ms } ==> now_ms >= clock_floor(before.take(i))) by {
                assert(before.take(i) == events.take(i));
                assert(before[i] == events[i]);
            }
        }
        lemma_polling_in_step(before);
        lemma_lock_ledger(before);
        one_action_per_event(before);
        assert(events.take(events.len() - 1) == before);
        assert(events[events.len() - 1] == events.last());
        assert(actions_of(events).drop_last() == actions_of(before));
    }
}

/// Whatever the daemon does for the worker, it does under its own lock: the
/// run began with the start and the grant of the daemon lock.
pub proof fn the_daemon_lock_comes_first(events: Seq<DaemonEvent>, i: int)
    requires
        0 <= i < events.len(),
        acts_for_worker(actions_of(events)[i]),
    ensures
        i >= 1,
        events[0] == DaemonEvent::Started,
        events[1] == DaemonEvent::LockGranted,
        actions_of(events)[0] == DaemonAction::AcquireLock(LockName::Daemon),
{
    lemma_daemon_lock_first(events);
    run_goes_through_prefixes(events, 0);
    assert(events.take(0).len() == 0);
}

/// A daemon that finds the daemon lock held leaves with the code for "already
/// running", and does nothing else, whatever is reported to it afterwards.
pub proof fn a_second_daemon_leaves_at_once(events: Seq<DaemonEvent>)
    requires
        events.len() >= 2,
        events[0] == DaemonEvent::Started,
        events[1] == DaemonEvent::LockDenied,
    ensures
        state_after(events) == (DaemonState::Exited { code: ALREADY_RUNNING_CODE }),
        actions_of(events)[0] == DaemonAction::AcquireLock(LockName::Daemon),
        forall|i: int|
            1 <= i < events.len() ==> actions_of(events)[i] == (DaemonAction::Exit {
                code: ALREADY_RUNNING_CODE,
            }),
    decreases events.len(),
{
    one_action_per_event(events);
    let before = events.drop_last();
    one_action_per_event(before);
    if events.len() == 2 {
        assert(before.drop_last().len() == 0);
        assert(before.last() == events[0]);
        assert(state_after(before.drop_last()) == DaemonState::Idle);
        assert(run(before) == (
            DaemonState::AcquiringDaemonLock,
            Seq::<DaemonAction>::empty().push(DaemonAction::AcquireLock(LockName::Daemon)),
        ));
    } else {
        a_second_daemon_leaves_at_once(before);
        assert forall|i: int| 1 <= i < events.len() - 1 implies actions_of(events)[i]
            == actions_of(before)[i] by {}
    }
}

/// The daemon asks a worker to exit only when it has just found the worker
/// lock held, at its first attempt at that lock. So where that first attempt
/// finds the lock free, no worker is asked to exit, in the whole run.
pub proof fn exit_is_sent_only_to_a_running_worker(events: Seq<DaemonEvent>, i: int)
    requires
        0 <= i < events.len(),
        actions_of(events)[i] == DaemonAction::SendExit,
    ensures
        i == 3,
        events[0] == DaemonEvent::Started,
        events[1] == DaemonEvent::LockGranted,
        events[2] == DaemonEvent::Completed,
        events[3] == DaemonEvent::LockDenied,
        actions_of(events)[2] == DaemonAction::AcquireLock(LockName::Worker),
{
    run_goes_through_prefixes(events, i);
    lemma_way_in(events.take(i));
    assert(events.take(i)[0] == events[0]);
    assert(events.take(i)[1] == events[1]);
    assert(events.take(i)[2] == events[2]);
    run_goes_through_prefixes(events, 2);
    lemma_way_in(events.take(2));
}

/// Where the first attempt at the worker lock finds it free, the daemon never
/// asks a worker to exit.
pub proof fn no_exit_is_sent_when_the_worker_lock_is_free(events: Seq<DaemonEvent>)
    requires
        events.len() >= 4,
        events[3] == DaemonEvent::LockGranted,
    ensures
        forall|i: int| 0 <= i < events.len() ==> actions_of(events)[i] != DaemonAction::SendExit,
{
    assert forall|i: int| 0 <= i < events.len() implies actions_of(events)[i]
        != DaemonAction::SendExit by {
        if actions_of(events)[i] == DaemonAction::SendExit {
            exit_is_sent_only_to_a_running_worker(events, i);
        }
    }
}

/// Outside the wait for the worker lock the daemon asks for everything at
/// most once: one attempt at the daemon lock, one client, one request to exit,
/// one release, one worker, one server, one wait for the exit signal.
pub proof fn all_but_the_polling_is_asked_once(events: Seq<DaemonEvent>, i: int, j: int)
    requires
        0 <= i < events.len(),
        0 <= j < events.len(),
        actions_of(events)[i] == actions_of(events)[j],
        !may_repeat(actions_of(events)[i]),
    ensures
        i == j,
{
    run_goes_through_prefixes(events, i);
    run_goes_through_prefixes(events, j);
    if i < j {
        lemma_progress(events, i + 1, j + 1);
    } else if j < i {
        lemma_progress(events, j + 1, i + 1);
    }
}

/// In no run is a worker asked for twice.
pub proof fn worker_is_spawned_at_most_once(events: Seq<DaemonEvent>, i: int, j: int)
    requires
        0 <= i < events.len(),
        0 <= j < events.len(),
        actions_of(events)[i] == DaemonAction::SpawnWorker,
        actions_of(events)[j] == DaemonAction::SpawnWorker,
    ensures
        i == j,
{
    lemma_one_spawn(events);
}

/// A worker is asked for only under the daemon lock, and only right after the
/// daemon took the worker lock itself and handed it back: the two steps before
/// the spawn are the attempt at the worker lock, which was granted, and the
/// release, which was carried out.
pub proof fn worker_is_spawned_only_after_its_lock_was_free(events: Seq<DaemonEvent>, i: int)
    requires
        0 <= i < events.len(),
        actions_of(events)[i] == DaemonAction::SpawnWorker,
    ensures
        i >= 4,
        events[0] == DaemonEvent::Started,
        events[1] == DaemonEvent::LockGranted,
        actions_of(events)[i - 2] == DaemonAction::AcquireLock(LockName::Worker),
        events[i - 1] == DaemonEvent::LockGranted,
        actions_of(events)[i - 1] == DaemonAction::ReleaseLock(LockName::Worker),
        events[i] == DaemonEvent::Completed,
{
    lemma_daemon_lock_first(events);
    run_goes_through_prefixes(events, i);
    lemma_way_in(events.take(i));
    run_goes_through_prefixes(events, i - 1);
    lemma_way_in(events.take(i - 1));
    run_goes_through_prefixes(events, i - 2);
    lemma_way_in(events.take(i - 2));
    if i >= 3 {
        run_goes_through_prefixes(events, i - 3);
        lemma_way_in(events.take(i - 3));
    }
}

/// Where no attempt at the worker lock is ever granted, no worker is asked
/// for.
pub proof fn no_worker_is_spawned_while_the_lock_is_held(events: Seq<DaemonEvent>)
    requires
        forall|k: int|
            1 <= k < events.len() && actions_of(events)[k - 1] == DaemonAction::AcquireLock(
                LockName::Worker,
            ) ==> events[k] != DaemonEvent::LockGranted,
    ensures
        forall|i: int|
            0 <= i < events.len() ==> actions_of(events)[i] != DaemonAction::SpawnWorker,
{
    assert forall|i: int| 0 <= i < events.len() implies actions_of(events)[i]
        != DaemonAction::SpawnWorker by {
        if actions_of(events)[i] == DaemonAction::SpawnWorker {
            worker_is_spawned_only_after_its_lock_was_free(events, i);
        }
    }
}

/// Once an attempt at the worker lock is pending, a grant makes the daemon
/// hand the lock back and then ask for the new worker: the only one of the
/// run.
pub proof fn a_released_lock_leads_to_one_spawn(events: Seq<DaemonEvent>)
    requires
        events.len() > 0,
        actions_of(events).last() == DaemonAction::AcquireLock(LockName::Worker),
    ensures
        ({
            let then = events.push(DaemonEvent::LockGranted).push(DaemonEvent::Completed);
            &&& state_after(then) == DaemonState::SpawningWorker
            &&& actions_of(then) == actions_of(events).push(
                DaemonAction::ReleaseLock(LockName::Worker),
            ).push(DaemonAction::SpawnWorker)
            &&& forall|j: int|
                0 <= j < then.len() - 1 ==> actions_of(then)[j] != DaemonAction::SpawnWorker
        }),
{
    let granted = events.push(DaemonEvent::LockGranted);
    let then = granted.push(DaemonEvent::Completed);
    one_action_per_event(events);
    one_action_per_event(then);
    assert(granted.drop_last() == events);
    assert(then.drop_last() == granted);
    let asked = next_step(state_after(events.drop_last()), events.last());
    assert(asked.1 == DaemonAction::AcquireLock(LockName::Worker));
    assert(state_after(events) == asked.0);
    let released = next_step(state_after(events), DaemonEvent::LockGranted);
    assert(released.0 == DaemonState::RetiringStaleWorker(Retirement::ReleasingLock));
    assert(run(granted) == (released.0, actions_of(events).push(released.1)));
    assert(actions_of(then)[then.len() - 1] == DaemonAction::SpawnWorker);
    assert forall|j: int| 0 <= j < then.len() - 1 implies actions_of(then)[j]
        != DaemonAction::SpawnWorker by {
        if actions_of(then)[j] == DaemonAction::SpawnWorker {
            worker_is_spawned_at_most_once(then, j, then.len() - 1);
        }
    }
}

/// While the daemon waits for the worker lock, a clock reading inside the
/// retry window makes it try the lock again, and a reading at or past the end
/// of the window makes it give up.
pub proof fn the_retry_window_decides(events: Seq<DaemonEvent>, started_ms: u64, now_ms: u64)
    requires
        state_after(events) == DaemonState::RetiringStaleWorker(
            Retirement::CheckingWindow { started_ms },
        ),
    ensures
        window_open(started_ms, now_ms) ==> run(events.push(DaemonEvent::Clock { now_ms })) == (
            DaemonState::RetiringStaleWorker(Retirement::Polling { started_ms }),
            actions_of(events).push(DaemonAction::AcquireLock(LockName::Worker)),
        ),
        !window_open(started_ms, now_ms) ==> run(events.push(DaemonEvent::Clock { now_ms })) == (
            DaemonState::Aborted { reason: AbortReason::WorkerStuck },
            actions_of(events).push(DaemonAction::Abort { reason: AbortReason::WorkerStuck }),
        ),
{
    let then = events.push(DaemonEvent::Clock { now_ms });
    assert(then.drop_last() == events);
}

/// A daemon that gives up because the worker kept its lock has asked for no
/// worker, and asks for none afterwards.
pub proof fn a_stuck_worker_prevents_the_spawn(events: Seq<DaemonEvent>, i: int)
    requires
        0 <= i < events.len(),
        actions_of(events)[i] == (DaemonAction::Abort { reason: AbortReason::WorkerStuck }),
    ensures
        state_after(events) == (DaemonState::Aborted { reason: AbortReason::WorkerStuck }),
        forall|j: int|
            0 <= j < events.len() ==> actions_of(events)[j] != DaemonAction::SpawnWorker,
{
    lemma_one_spawn(events);
}

/// A worker that was asked to exit and lets go of its lock while the retry
/// window is open is replaced: the daemon tries the lock, hands it back, and
/// asks for the new worker, the only one of the run. It does not give up on
/// the way.
pub proof fn a_worker_that_lets_go_in_time_is_replaced(
    events: Seq<DaemonEvent>,
    started_ms: u64,
    now_ms: u64,
)
    requires
        state_after(events) == DaemonState::RetiringStaleWorker(
            Retirement::CheckingWindow { started_ms },
        ),
        window_open(started_ms, now_ms),
    ensures
        ({
            let then = events.push(DaemonEvent::Clock { now_ms }).push(
                DaemonEvent::LockGranted,
            ).push(DaemonEvent::Completed);
            &&& state_after(then) == DaemonState::SpawningWorker
            &&& actions_of(then) == actions_of(events).push(
                DaemonAction::AcquireLock(LockName::Worker),
            ).push(DaemonAction::ReleaseLock(LockName::Worker)).push(DaemonAction::SpawnWorker)
            &&& actions_of(then)[3] == DaemonAction::SendExit
            &&& forall|j: int|
                0 <= j < then.len() - 1 ==> actions_of(then)[j] != DaemonAction::SpawnWorker
        }),
{
    let read = events.push(DaemonEvent::Clock { now_ms });
    the_retry_window_decides(events, started_ms, now_ms);
    one_action_per_event(events);
    one_action_per_event(read);
    a_released_lock_leads_to_one_spawn(read);
    lemma_exit_was_sent(events);
}

/// A worker that was asked to exit and still holds its lock when the retry
/// window has closed stops the daemon: it gives up, and the run holds the
/// request to exit and no request for a new worker.
pub proof fn a_worker_that_keeps_its_lock_stops_the_daemon(
    events: Seq<DaemonEvent>,
    started_ms: u64,
    now_ms: u64,
)
    requires
        state_after(events) == DaemonState::RetiringStaleWorker(
            Retirement::CheckingWindow { started_ms },
        ),
        !window_open(started_ms, now_ms),
    ensures
        ({
            let then = events.push(DaemonEvent::Clock { now_ms });
            &&& state_after(then) == (DaemonState::Aborted { reason: AbortReason::WorkerStuck })
            &&& actions_of(then).last() == (DaemonAction::Abort {
                reason: AbortReason::WorkerStuck,
            })
            &&& actions_of(then)[3] == DaemonAction::SendExit
            &&& forall|j: int|
                0 <= j < then.len() ==> actions_of(then)[j] != DaemonAction::SpawnWorker
        }),
{
    let then = events.push(DaemonEvent::Clock { now_ms });
    the_retry_window_decides(events, started_ms, now_ms);
    one_action_per_event(events);
    one_action_per_event(then);
    lemma_exit_was_sent(events);
    a_stuck_worker_prevents_the_spawn(then, then.len() - 1);
}

/// Under an honest clock the daemon does not wait for a worker for ever: it
/// sleeps at most as often as the retry interval fits into the retry window,
/// fifteen times, and tries the worker lock at most once more than that, after
/// the first attempt.
pub proof fn polling_is_bounded(events: Seq<DaemonEvent>)
    requires
        clock_is_honest(events),
    ensures
        count_of(actions_of(events), DaemonAction::Sleep { millis: RETRY_INTERVAL_MS }) <= 15,
        count_of(actions_of(events), DaemonAction::AcquireLock(LockName::Worker)) <= 16,
{
    lemma_polling_in_step(events);
}

/// The daemon never tries a lock that it holds, so it never holds a lock
/// twice; and it lets go only of a lock that it holds.
pub proof fn a_lock_is_held_at_most_once(events: Seq<DaemonEvent>, i: int, name: LockName)
    requires
        0 <= i < events.len(),
    ensures
        actions_of(events)[i] == DaemonAction::AcquireLock(name) ==> !holds_lock(
            events.take(i + 1),
            name,
        ),
        actions_of(events)[i] == DaemonAction::ReleaseLock(name) ==> holds_lock(
            events.take(i + 1),
            name,
        ),
{
    let upto = events.take(i + 1);
    run_goes_through_prefixes(events, i);
    one_action_per_event(upto);
    assert(actions_of(upto).last() == actions_of(events)[i]);
    lemma_lock_ledger(upto);
    lemma_way_in(upto);
    assert(upto.drop_last() == events.take(i));
    lemma_lock_ledger(events.take(i));
    lemma_way_in(events.take(i));
    one_action_per_event(events.take(i));
}

/// When the new worker is asked for, the daemon holds its own lock and does
/// not hold the worker lock: the worker can take it.
pub proof fn the_worker_lock_is_free_for_the_new_worker(events: Seq<DaemonEvent>, i: int)
    requires
        0 <= i < events.len(),
        actions_of(events)[i] == DaemonAction::SpawnWorker,
    ensures
        holds_lock(events.take(i + 1), LockName::Daemon),
        !holds_lock(events.take(i + 1), LockName::Worker),
{
    let upto = events.take(i + 1);
    run_goes_through_prefixes(events, i);
    one_action_per_event(upto);
    assert(actions_of(upto).last() == actions_of(events)[i]);
    lemma_lock_ledger(upto);
}

/// The first value on the exit-signal channel is the daemon's exit code, and
/// nothing that is reported afterwards changes it.
pub proof fn the_first_signal_is_the_exit_code(
    events: Seq<DaemonEvent>,
    code: i32,
    later: Seq<DaemonEvent>,
)
    requires
        state_after(events) == DaemonState::Exiting,
    ensures
        ({
            let all = events.push(DaemonEvent::ExitSignal { code }) + later;
            &&& state_after(all) == (DaemonState::Exited { code })
            &&& actions_of(all)[events.len() as int] == (DaemonAction::Exit { code })
        }),
    decreases later.len(),
{
    let signalled = events.push(DaemonEvent::ExitSignal { code });
    let all = signalled + later;
    one_action_per_event(events);
    if later.len() == 0 {
        assert(all == signalled);
        assert(signalled.drop_last() == events);
    } else {
        the_first_signal_is_the_exit_code(events, code, later.drop_last());
        assert(all.drop_last() == signalled + later.drop_last());
        one_action_per_event(all.drop_last());
    }
}

} // verus!
