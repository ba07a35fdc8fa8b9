//! How a subcommand describes itself to the command line.

use vstd::prelude::*;

verus! {

/// What a subcommand does with the log file.
#[derive(Clone, Copy, Debug, PartialEq, Eq, Structural)]
pub enum LogMode {
    /// The log is only read.
    Read,
    /// New lines are added to the log.
    AppendOnly,
    /// The log is emptied first, then new lines are added.
    CleanAndAppend,
}

/// The routine that runs a subcommand.
#[derive(Clone, Copy, Debug, PartialEq, Eq, Structural)]
pub enum CliEntry {
    /// No routine: the subcommand returns at once, with success.
    Nothing,
    /// The daemon's main routine.
    Daemon,
}

/// A subcommand: its name, what has to be set up before it runs, and the
/// routine that runs it.
#[derive(Clone, Debug)]
pub struct CliModule {
    /// Whether logging is set up for the subcommand.
    pub enable_logs: bool,
    /// What the subcommand does with the log file.
    pub log_mode: LogMode,
    /// Whether the directories are resolved for the subcommand.
    pub requires_paths: bool,
    /// Whether the configuration is loaded for the subcommand.
    pub requires_config: bool,
    /// The name by which the subcommand is called.
    pub subcommand: String,
    /// The routine that runs the subcommand.
    pub entry: CliEntry,
}

/// What [`CliModule`] holds, the name as text.
pub struct CliModuleView {
    pub enable_logs: bool,
    pub log_mode: LogMode,
    pub requires_paths: bool,
    pub requires_config: bool,
    pub subcommand: Seq<char>,
    pub entry: CliEntry,
}

impl View for CliModule {
    type V = CliModuleView;

    open spec fn view(&self) -> CliModuleView {
        CliModuleView {
            enable_logs: self.enable_logs,
            log_mode: self.log_mode,
            requires_paths: self.requires_paths,
            requires_config: self.requires_config,
            subcommand: self.subcommand@,
            entry: self.entry,
        }
    }
}

/// The subcommand without a name that needs nothing and does nothing.
pub open spec fn blank_module() -> CliModuleView {
    CliModuleView {
        enable_logs: false,
        log_mode: LogMode::Read,
        requires_paths: false,
        requires_config: false,
        subcommand: Seq::empty(),
        entry: CliEntry::Nothing,
    }
}

impl Default for CliModule {
    fn default() -> (module: CliModule)
        ensures
            module@ == blank_module(),
    {
        CliModule {
            enable_logs: false,
            log_mode: LogMode::Read,
            requires_paths: false,
            requires_config: false,
            subcommand: String::new(),
            entry: CliEntry::Nothing,
        }
    }
}

} // verus!
