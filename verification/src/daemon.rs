//! The daemon: its exit codes and the parts of its protocol.

use vstd::prelude::*;
use crate::cli::{CliEntry, CliModule, CliModuleView, LogMode};

pub mod ipc;
pub mod protocol;
pub mod runs;
pub mod signal;
pub mod worker;

verus! {

/// Exit codes that the daemon itself produces.
#[derive(Clone, Copy, Debug, PartialEq, Eq, Structural)]
pub enum ExitCode {
    /// The daemon was asked to stop and did so.
    Success,
    /// The exit-signal channel closed before any code arrived.
    ExitCodeUnwrapError,
}

impl ExitCode {
    /// The process exit code that this variant stands for.
    pub open spec fn value(self) -> i32 {
        match self {
            ExitCode::Success => 0,
            ExitCode::ExitCodeUnwrapError => 100,
        }
    }

    /// Returns the process exit code of this variant.
    pub fn code(self) -> (code: i32)
        ensures
            code == self.value(),
    {
        match self {
            ExitCode::Success => 0,
            ExitCode::ExitCodeUnwrapError => 100,
        }
    }
}

/// The daemon as the command line sees it: it is called `daemon`, it needs
/// the directories and the configuration, and it starts its log afresh.
pub open spec fn daemon_module() -> CliModuleView {
    CliModuleView {
        enable_logs: true,
        log_mode: LogMode::CleanAndAppend,
        requires_paths: true,
        requires_config: true,
        subcommand: "daemon"@,
        entry: CliEntry::Daemon,
    }
}

/// Describes the `daemon` subcommand.
pub fn new() -> (module: CliModule)
    ensures
        module@ == daemon_module(),
{
    CliModule {
        requires_paths: true,
        requires_config: true,
        enable_logs: true,
        log_mode: LogMode::CleanAndAppend,
        subcommand: "daemon".to_owned(),
        entry: CliEntry::Daemon,
    }
}

} // verus!
