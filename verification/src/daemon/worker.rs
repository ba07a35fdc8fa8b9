//! The worker process: how it is started, and what its end means to the
//! daemon.

use vstd::prelude::*;
use crate::paths::{Paths, PathsView};

verus! {

/// An environment variable for a new process: its name and its value.
#[derive(Clone, Debug)]
pub struct EnvVar {
    pub name: String,
    pub value: String,
}

/// What [`EnvVar`] holds, as text.
pub struct EnvVarView {
    pub name: Seq<char>,
    pub value: Seq<char>,
}

impl View for EnvVar {
    type V = EnvVarView;

    open spec fn view(&self) -> EnvVarView {
        EnvVarView { name: self.name@, value: self.value@ }
    }
}

/// How a process is started: the program, its arguments, and the environment
/// variables that are set for it on top of the daemon's own.
#[derive(Clone, Debug)]
pub struct WorkerCommand {
    pub program: String,
    pub args: Vec<String>,
    pub envs: Vec<EnvVar>,
}

/// What [`WorkerCommand`] holds, as text.
pub struct WorkerCommandView {
    pub program: Seq<char>,
    pub args: Seq<Seq<char>>,
    pub envs: Seq<EnvVarView>,
}

impl View for WorkerCommand {
    type V = WorkerCommandView;

    open spec fn view(&self) -> WorkerCommandView {
        WorkerCommandView {
            program: self.program@,
            args: Seq::new(self.args@.len(), |i: int| self.args@[i]@),
            envs: Seq::new(self.envs@.len(), |i: int| self.envs@[i]@),
        }
    }
}

/// How the worker is started: the daemon's own executable is run again with
/// the one argument `worker`, and is told the three directories through its
/// environment.
pub open spec fn worker_invocation(executable: Seq<char>, paths: PathsView) -> WorkerCommandView {
    WorkerCommandView {
        program: executable,
        args: seq!["worker"@],
        envs: seq![
            EnvVarView { name: "ESPANSO_CONFIG_DIR"@, value: paths.config },
            EnvVarView { name: "ESPANSO_PACKAGE_DIR"@, value: paths.packages },
            EnvVarView { name: "ESPANSO_RUNTIME_DIR"@, value: paths.runtime },
        ],
    }
}

/// Returns the command that starts the worker. `executable` is the path of the
/// running daemon's own executable.
pub fn worker_command(executable: &str, paths: &Paths) -> (command: WorkerCommand)
    ensures
        command@ == worker_invocation(executable@, paths@),
{
    let mut args: Vec<String> = Vec::new();
    args.push("worker".to_owned());
    let mut envs: Vec<EnvVar> = Vec::new();
    envs.push(EnvVar { name: "ESPANSO_CONFIG_DIR".to_owned(), value: paths.config.clone() });
    envs.push(EnvVar { name: "ESPANSO_PACKAGE_DIR".to_owned(), value: paths.packages.clone() });
    envs.push(EnvVar { name: "ESPANSO_RUNTIME_DIR".to_owned(), value: paths.runtime.clone() });
    let command = WorkerCommand { program: executable.to_owned(), args, envs };
    assert(command@.args =~= worker_invocation(executable@, paths@).args);
    assert(command@.envs =~= worker_invocation(executable@, paths@).envs);
    command
}

/// The exit code that the end of a worker puts on the exit-signal channel.
/// `exit_code` is the code that the worker process left with, or `None` where
/// it left without one or could not be waited for. A worker that leaves with
/// zero, or without a code, tells the daemon nothing; any other code is passed
/// on as it is.
pub open spec fn signal_of_worker_exit(exit_code: Option<i32>) -> Option<i32> {
    match exit_code {
        Some(code) if code != 0 => Some(code),
        _ => None,
    }
}

/// Returns the exit code that the end of a worker puts on the exit-signal
/// channel, or `None` where it puts none there.
pub fn exit_signal_for_worker(exit_code: Option<i32>) -> (signal: Option<i32>)
    ensures
        signal == signal_of_worker_exit(exit_code),
{
    match exit_code {
        Some(code) => {
            if code != 0 {
                Some(code)
            } else {
                None
            }
        },
        None => None,
    }
}

} // verus!
