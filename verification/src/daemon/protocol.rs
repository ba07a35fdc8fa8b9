//! The daemon's startup and shutdown protocol as a state machine.
//!
//! The daemon alternates between deciding and acting on the outside world:
//! taking lock files, talking to a worker that may still be running, reading
//! the clock, sleeping, spawning the new worker. Everything that is decided
//! lives here, in [`step`]: it takes the current state and the outcome of the
//! action that was last asked for, and answers with the next state and the
//! next action. Whoever drives the daemon performs the action and reports
//! back.

use vstd::prelude::*;
use crate::daemon::ExitCode;

verus! {

/// How long, in milliseconds, a running worker is given to hand its lock back
/// after it was asked to exit.
pub const RETRY_WINDOW_MS: u64 = 3000;

/// How long, in milliseconds, the daemon sleeps between two attempts at the
/// worker lock.
pub const RETRY_INTERVAL_MS: u64 = 200;

/// The exit code of a daemon that found another daemon already running.
pub const ALREADY_RUNNING_CODE: i32 = 1;

/// The two lock files of a runtime directory, one per role.
#[derive(Clone, Copy, Debug, PartialEq, Eq, Structural)]
pub enum LockName {
    Daemon,
    Worker,
}

/// Why the daemon gave up without an exit code.
#[derive(Clone, Copy, Debug, PartialEq, Eq, Structural)]
pub enum AbortReason {
    /// No client for the worker's endpoint could be made.
    IpcClientUnavailable,
    /// A running worker kept its lock for the whole retry window.
    WorkerStuck,
    /// The new worker process could not be started.
    WorkerSpawnFailed,
    /// The daemon's own endpoint could not be served.
    IpcServerUnavailable,
    /// The driver reported an outcome that the pending action cannot have.
    UnexpectedEvent,
}

impl LockName {
    /// The name of the lock file, inside the runtime directory.
    pub open spec fn file_name_text(self) -> Seq<char> {
        match self {
            LockName::Daemon => "daemon"@,
            LockName::Worker => "worker"@,
        }
    }

    /// Returns the name of the lock file, inside the runtime directory.
    pub fn file_name(self) -> (name: &'static str)
        ensures
            name@ == self.file_name_text(),
    {
        match self {
            LockName::Daemon => "daemon",
            LockName::Worker => "worker",
        }
    }
}

impl AbortReason {
    /// What the operator is told when the daemon gives up.
    pub open spec fn message_text(self) -> Seq<char> {
        match self {
            AbortReason::IpcClientUnavailable => "unable to create IPC client to worker process"@,
            AbortReason::WorkerStuck =>
                "could not terminate worker process, please kill it manually, otherwise espanso won't start"@,
            AbortReason::WorkerSpawnFailed => "unable to spawn worker process"@,
            AbortReason::IpcServerUnavailable => "unable to initialize ipc server for daemon"@,
            AbortReason::UnexpectedEvent => "unexpected event in the daemon's protocol"@,
        }
    }

    /// Returns what the operator is told when the daemon gives up.
    pub fn message(self) -> (text: &'static str)
        ensures
            text@ == self.message_text(),
    {
        match self {
            AbortReason::IpcClientUnavailable => "unable to create IPC client to worker process",
            AbortReason::WorkerStuck =>
                "could not terminate worker process, please kill it manually, otherwise espanso won't start",
            AbortReason::WorkerSpawnFailed => "unable to spawn worker process",
            AbortReason::IpcServerUnavailable => "unable to initialize ipc server for daemon",
            AbortReason::UnexpectedEvent => "unexpected event in the daemon's protocol",
        }
    }
}

/// What the daemon asks its driver to do next.
#[derive(Clone, Copy, Debug, PartialEq, Eq, Structural)]
pub enum DaemonAction {
    /// Try to take the named lock, without blocking.
    AcquireLock(LockName),
    /// Make a client for the endpoint of a worker that may be running.
    ConnectToWorker,
    /// Ask the running worker to exit.
    SendExit,
    /// Read the monotonic clock.
    ReadClock,
    /// Sleep for the given number of milliseconds.
    Sleep { millis: u64 },
    /// Let go of the named lock.
    ReleaseLock(LockName),
    /// Start the new worker process and the thread that watches it.
    SpawnWorker,
    /// Serve the daemon's own endpoint.
    StartIpcServer,
    /// Block until a value arrives on the exit-signal channel.
    AwaitExitSignal,
    /// Leave with the given exit code.
    Exit { code: i32 },
    /// Give up at once.
    Abort { reason: AbortReason },
}

/// What the driver reports after it performed an action.
#[derive(Clone, Copy, Debug, PartialEq, Eq, Structural)]
pub enum DaemonEvent {
    /// The daemon was started.
    Started,
    /// The lock was free and is now held.
    LockGranted,
    /// Somebody else holds the lock.
    LockDenied,
    /// The action was carried out.
    Completed,
    /// The action could not be carried out.
    Failed,
    /// The reading of the monotonic clock, in milliseconds.
    Clock { now_ms: u64 },
    /// A code arrived on the exit-signal channel.
    ExitSignal { code: i32 },
    /// The exit-signal channel has no senders left.
    ChannelClosed,
}

/// Where the daemon stands while it makes sure that no earlier worker is left.
#[derive(Clone, Copy, Debug, PartialEq, Eq, Structural)]
pub enum Retirement {
    /// The first attempt at the worker lock is under way.
    TryingLock,
    /// The lock was held; the worker is being asked to exit.
    SendingExit,
    /// The clock is being read for the start of the retry window.
    StartingWindow,
    /// The clock is being read to see whether the window is still open.
    CheckingWindow { started_ms: u64 },
    /// Another attempt at the worker lock is under way.
    Polling { started_ms: u64 },
    /// The daemon sleeps before it looks at the clock again.
    Sleeping { started_ms: u64 },
    /// The daemon got the lock and hands it back for the new worker.
    ReleasingLock,
}

/// The states of the daemon. Each one but `Idle` names the action that the
/// driver is performing while the daemon is in it.
#[derive(Clone, Copy, Debug, PartialEq, Eq, Structural)]
pub enum DaemonState {
    /// Nothing has happened yet.
    Idle,
    /// The daemon lock is being tried.
    AcquiringDaemonLock,
    /// A client for the endpoint of an earlier worker is being made.
    ProbingExistingWorker,
    /// An earlier worker, if there is one, is being retired.
    RetiringStaleWorker(Retirement),
    /// The new worker is being started.
    SpawningWorker,
    /// The daemon's own endpoint is being set up.
    Serving,
    /// The daemon waits for its exit code.
    Exiting,
    /// The daemon has left with an exit code.
    Exited { code: i32 },
    /// The daemon has given up.
    Aborted { reason: AbortReason },
}

/// The time that has passed between two readings of the monotonic clock. A
/// later reading that is smaller than the earlier one counts as no time at
/// all.
pub open spec fn elapsed_ms(started_ms: u64, now_ms: u64) -> nat {
    if now_ms >= started_ms {
        (now_ms - started_ms) as nat
    } else {
        0
    }
}

/// Whether, at `now_ms`, a retry window that began at `started_ms` is still
/// open.
pub open spec fn window_open(started_ms: u64, now_ms: u64) -> bool {
    elapsed_ms(started_ms, now_ms) < RETRY_WINDOW_MS
}

/// The state and action of a daemon that gives up for `reason`.
pub open spec fn abort_with(reason: AbortReason) -> (DaemonState, DaemonAction) {
    (DaemonState::Aborted { reason }, DaemonAction::Abort { reason })
}

/// The state and action of a daemon that leaves with `code`.
pub open spec fn exit_with(code: i32) -> (DaemonState, DaemonAction) {
    (DaemonState::Exited { code }, DaemonAction::Exit { code })
}

/// The transitions of the retirement of an earlier worker.
pub open spec fn next_retirement(phase: Retirement, event: DaemonEvent) -> (
    DaemonState,
    DaemonAction,
) {
    match (phase, event) {
        (Retirement::TryingLock, DaemonEvent::LockGranted) => (
            DaemonState::RetiringStaleWorker(Retirement::ReleasingLock),
            DaemonAction::ReleaseLock(LockName::Worker),
        ),
        (Retirement::TryingLock, DaemonEvent::LockDenied) => (
            DaemonState::RetiringStaleWorker(Retirement::SendingExit),
            DaemonAction::SendExit,
        ),
        (Retirement::SendingExit, DaemonEvent::Completed)
        | (Retirement::SendingExit, DaemonEvent::Failed) => (
            DaemonState::RetiringStaleWorker(Retirement::StartingWindow),
            DaemonAction::ReadClock,
        ),
        (Retirement::StartingWindow, DaemonEvent::Clock { now_ms }) => (
            DaemonState::RetiringStaleWorker(Retirement::CheckingWindow { started_ms: now_ms }),
            DaemonAction::ReadClock,
        ),
        (Retirement::CheckingWindow { started_ms }, DaemonEvent::Clock { now_ms }) => {
            if window_open(started_ms, now_ms) {
                (
                    DaemonState::RetiringStaleWorker(Retirement::Polling { started_ms }),
                    DaemonAction::AcquireLock(LockName::Worker),
                )
            } else {
                abort_with(AbortReason::WorkerStuck)
            }
        },
        (Retirement::Polling { started_ms }, DaemonEvent::LockGranted) => (
            DaemonState::RetiringStaleWorker(Retirement::ReleasingLock),
            DaemonAction::ReleaseLock(LockName::Worker),
        ),
        (Retirement::Polling { started_ms }, DaemonEvent::LockDenied) => (
            DaemonState::RetiringStaleWorker(Retirement::Sleeping { started_ms }),
            DaemonAction::Sleep { millis: RETRY_INTERVAL_MS },
        ),
        (Retirement::Sleeping { started_ms }, DaemonEvent::Completed) => (
            DaemonState::RetiringStaleWorker(Retirement::CheckingWindow { started_ms }),
            DaemonAction::ReadClock,
        ),
        (Retirement::ReleasingLock, DaemonEvent::Completed) => (
            DaemonState::SpawningWorker,
            DaemonAction::SpawnWorker,
        ),
        _ => abort_with(AbortReason::UnexpectedEvent),
    }
}

/// The transitions of the daemon: the state that follows `state` when the
/// driver reports `event`, and the action that the driver is to perform next.
///
/// A daemon that has left or given up stays where it is and repeats its last
/// word. An event that the pending action cannot have produced makes the
/// daemon give up.
pub open spec fn next_step(state: DaemonState, event: DaemonEvent) -> (DaemonState, DaemonAction) {
    match (state, event) {
        (DaemonState::Exited { code }, _) => exit_with(code),
        (DaemonState::Aborted { reason }, _) => abort_with(reason),
        (DaemonState::Idle, DaemonEvent::Started) => (
            DaemonState::AcquiringDaemonLock,
            DaemonAction::AcquireLock(LockName::Daemon),
        ),
        (DaemonState::AcquiringDaemonLock, DaemonEvent::LockGranted) => (
            DaemonState::ProbingExistingWorker,
            DaemonAction::ConnectToWorker,
        ),
        (DaemonState::AcquiringDaemonLock, DaemonEvent::LockDenied) => exit_with(
            ALREADY_RUNNING_CODE,
        ),
        (DaemonState::ProbingExistingWorker, DaemonEvent::Completed) => (
            DaemonState::RetiringStaleWorker(Retirement::TryingLock),
            DaemonAction::AcquireLock(LockName::Worker),
        ),
        (DaemonState::ProbingExistingWorker, DaemonEvent::Failed) => abort_with(
            AbortReason::IpcClientUnavailable,
        ),
        (DaemonState::RetiringStaleWorker(phase), _) => next_retirement(phase, event),
        (DaemonState::SpawningWorker, DaemonEvent::Completed) => (
            DaemonState::Serving,
            DaemonAction::StartIpcServer,
        ),
        (DaemonState::SpawningWorker, DaemonEvent::Failed) => abort_with(
            AbortReason::WorkerSpawnFailed,
        ),
        (DaemonState::Serving, DaemonEvent::Completed) => (
            DaemonState::Exiting,
            DaemonAction::AwaitExitSignal,
        ),
        (DaemonState::Serving, DaemonEvent::Failed) => abort_with(
            AbortReason::IpcServerUnavailable,
        ),
        (DaemonState::Exiting, DaemonEvent::ExitSignal { code }) => exit_with(code),
        (DaemonState::Exiting, DaemonEvent::ChannelClosed) => exit_with(
            ExitCode::ExitCodeUnwrapError.value(),
        ),
        _ => abort_with(AbortReason::UnexpectedEvent),
    }
}

/// Tells whether a retry window that began at `started_ms` is still open at
/// `now_ms`.
pub fn is_window_open(started_ms: u64, now_ms: u64) -> (open: bool)
    ensures
        open == window_open(started_ms, now_ms),
{
    if now_ms >= started_ms {
        now_ms - started_ms < RETRY_WINDOW_MS
    } else {
        true
    }
}

/// Decides what to do next while an earlier worker is being retired.
///
/// The worker lock is tried once. If it is free, it is handed back and the
/// new worker can be started. If it is held, the worker is asked to exit, and
/// the lock is tried again every [`RETRY_INTERVAL_MS`] until it is free or
/// [`RETRY_WINDOW_MS`] have passed since the request was made; after that the
/// daemon gives up.
pub fn retire_stale_worker(phase: Retirement, event: DaemonEvent) -> (next: (
    DaemonState,
    DaemonAction,
))
    ensures
        next == next_retirement(phase, event),
{
    let release = (
        DaemonState::RetiringStaleWorker(Retirement::ReleasingLock),
        DaemonAction::ReleaseLock(LockName::Worker),
    );
    let unexpected = (
        DaemonState::Aborted { reason: AbortReason::UnexpectedEvent },
        DaemonAction::Abort { reason: AbortReason::UnexpectedEvent },
    );
    match phase {
        Retirement::TryingLock => match event {
            DaemonEvent::LockGranted => release,
            DaemonEvent::LockDenied => (
                DaemonState::RetiringStaleWorker(Retirement::SendingExit),
                DaemonAction::SendExit,
            ),
            _ => unexpected,
        },
        Retirement::SendingExit => match event {
            DaemonEvent::Completed | DaemonEvent::Failed => (
                DaemonState::RetiringStaleWorker(Retirement::StartingWindow),
                DaemonAction::ReadClock,
            ),
            _ => unexpected,
        },
        Retirement::StartingWindow => match event {
            DaemonEvent::Clock { now_ms } => (
                DaemonState::RetiringStaleWorker(Retirement::CheckingWindow { started_ms: now_ms }),
                DaemonAction::ReadClock,
            ),
            _ => unexpected,
        },
        Retirement::CheckingWindow { started_ms } => match event {
            DaemonEvent::Clock { now_ms } => {
                if is_window_open(started_ms, now_ms) {
                    (
                        DaemonState::RetiringStaleWorker(Retirement::Polling { started_ms }),
                        DaemonAction::AcquireLock(LockName::Worker),
                    )
                } else {
                    (
                        DaemonState::Aborted { reason: AbortReason::WorkerStuck },
                        DaemonAction::Abort { reason: AbortReason::WorkerStuck },
                    )
                }
            },
            _ => unexpected,
        },
        Retirement::Polling { started_ms } => match event {
            DaemonEvent::LockGranted => release,
            DaemonEvent::LockDenied => (
                DaemonState::RetiringStaleWorker(Retirement::Sleeping { started_ms }),
                DaemonAction::Sleep { millis: RETRY_INTERVAL_MS },
            ),
            _ => unexpected,
        },
        Retirement::Sleeping { started_ms } => match event {
            DaemonEvent::Completed => (
                DaemonState::RetiringStaleWorker(Retirement::CheckingWindow { started_ms }),
                DaemonAction::ReadClock,
            ),
            _ => unexpected,
        },
        Retirement::ReleasingLock => match event {
            DaemonEvent::Completed => (DaemonState::SpawningWorker, DaemonAction::SpawnWorker),
            _ => unexpected,
        },
    }
}

/// Decides what the daemon does next.
///
/// `state` is where the daemon stands and `event` is what came of the action
/// that it asked for last; a daemon in `Idle` is told `Started`. The answer is
/// the state to go on from and the action to perform now.
pub fn step(state: DaemonState, event: DaemonEvent) -> (next: (DaemonState, DaemonAction))
    ensures
        next == next_step(state, event),
{
    let unexpected = (
        DaemonState::Aborted { reason: AbortReason::UnexpectedEvent },
        DaemonAction::Abort { reason: AbortReason::UnexpectedEvent },
    );
    match state {
        DaemonState::Idle => match event {
            DaemonEvent::Started => (
                DaemonState::AcquiringDaemonLock,
                DaemonAction::AcquireLock(LockName::Daemon),
            ),
            _ => unexpected,
        },
        DaemonState::AcquiringDaemonLock => match event {
            DaemonEvent::LockGranted => (
                DaemonState::ProbingExistingWorker,
                DaemonAction::ConnectToWorker,
            ),
            DaemonEvent::LockDenied => (
                DaemonState::Exited { code: ALREADY_RUNNING_CODE },
                DaemonAction::Exit { code: ALREADY_RUNNING_CODE },
            ),
            _ => unexpected,
        },
        DaemonState::ProbingExistingWorker => match event {
            DaemonEvent::Completed => (
                DaemonState::RetiringStaleWorker(Retirement::TryingLock),
                DaemonAction::AcquireLock(LockName::Worker),
            ),
            DaemonEvent::Failed => (
                DaemonState::Aborted { reason: AbortReason::IpcClientUnavailable },
                DaemonAction::Abort { reason: AbortReason::IpcClientUnavailable },
            ),
            _ => unexpected,
        },
        DaemonState::RetiringStaleWorker(phase) => retire_stale_worker(phase, event),
        DaemonState::SpawningWorker => match event {
            DaemonEvent::Completed => (DaemonState::Serving, DaemonAction::StartIpcServer),
            DaemonEvent::Failed => (
                DaemonState::Aborted { reason: AbortReason::WorkerSpawnFailed },
                DaemonAction::Abort { reason: AbortReason::WorkerSpawnFailed },
            ),
            _ => unexpected,
        },
        DaemonState::Serving => match event {
            DaemonEvent::Completed => (DaemonState::Exiting, DaemonAction::AwaitExitSignal),
            DaemonEvent::Failed => (
                DaemonState::Aborted { reason: AbortReason::IpcServerUnavailable },
                DaemonAction::Abort { reason: AbortReason::IpcServerUnavailable },
            ),
            _ => unexpected,
        },
        DaemonState::Exiting => match event {
            DaemonEvent::ExitSignal { code } => (
                DaemonState::Exited { code },
                DaemonAction::Exit { code },
            ),
            DaemonEvent::ChannelClosed => {
                let code: i32 = ExitCode::ExitCodeUnwrapError.code();
                (DaemonState::Exited { code }, DaemonAction::Exit { code })
            },
            _ => unexpected,
        },
        DaemonState::Exited { code } => (DaemonState::Exited { code }, DaemonAction::Exit { code }),
        DaemonState::Aborted { reason } => (
            DaemonState::Aborted { reason },
            DaemonAction::Abort { reason },
        ),
    }
}

} // verus!
