use espanso_daemon::cli::{CliEntry, CliModule, LogMode};
use espanso_daemon::daemon::{new, ExitCode};

#[test]
fn daemon_module_describes_the_daemon() {
    let module = new();
    assert!(module.requires_paths);
    assert!(module.requires_config);
    assert!(module.enable_logs);
    assert_eq!(module.log_mode, LogMode::CleanAndAppend);
    assert_eq!(module.subcommand, "daemon");
    assert_eq!(module.entry, CliEntry::Daemon);
}

#[test]
fn blank_module_needs_nothing() {
    let module = CliModule::default();
    assert!(!module.requires_paths);
    assert!(!module.requires_config);
    assert!(!module.enable_logs);
    assert_eq!(module.log_mode, LogMode::Read);
    assert_eq!(module.subcommand, "");
    assert_eq!(module.entry, CliEntry::Nothing);
}

#[test]
fn exit_codes_have_their_numbers() {
    assert_eq!(ExitCode::Success.code(), 0);
    assert_eq!(ExitCode::ExitCodeUnwrapError.code(), 100);
}
