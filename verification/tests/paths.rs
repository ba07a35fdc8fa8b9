use espanso_daemon::paths::{extract_runtime, RuntimeDirError, RuntimeProbe};
use std::path::PathBuf;

fn probe() -> RuntimeProbe<String> {
    RuntimeProbe {
        established: Some("/run/espanso".to_string()),
        portable_mode: false,
        portable_path: Some("/media/stick/.espanso-runtime".to_string()),
        default_path: "/home/user/.cache/espanso".to_string(),
    }
}

#[test]
fn forced_runtime_dir_is_taken_as_it_is() {
    let chosen = extract_runtime(Some("/elsewhere".to_string()), probe()).unwrap();
    assert_eq!(chosen.path, "/elsewhere");
    assert!(!chosen.create);
}

#[test]
fn forced_runtime_dir_wins_even_when_nothing_else_is_known() {
    let mut probe = probe();
    probe.established = None;
    probe.portable_mode = true;
    probe.portable_path = None;
    let chosen = extract_runtime(Some("/elsewhere".to_string()), probe).unwrap();
    assert_eq!(chosen.path, "/elsewhere");
    assert!(!chosen.create);
}

#[test]
fn established_runtime_dir_comes_second() {
    let chosen = extract_runtime(None, probe()).unwrap();
    assert_eq!(chosen.path, "/run/espanso");
    assert!(!chosen.create);
}

#[test]
fn default_runtime_dir_is_created() {
    let mut probe = probe();
    probe.established = None;
    let chosen = extract_runtime(None, probe).unwrap();
    assert_eq!(chosen.path, "/home/user/.cache/espanso");
    assert!(chosen.create);
}

#[test]
fn portable_runtime_dir_is_created() {
    let mut probe = probe();
    probe.established = None;
    probe.portable_mode = true;
    let chosen = extract_runtime(None, probe).unwrap();
    assert_eq!(chosen.path, "/media/stick/.espanso-runtime");
    assert!(chosen.create);
}

#[test]
fn portable_mode_without_a_path_fails() {
    let mut probe = probe();
    probe.established = None;
    probe.portable_mode = true;
    probe.portable_path = None;
    let error = extract_runtime(None, probe).unwrap_err();
    assert_eq!(error, RuntimeDirError::PortablePathUnavailable);
}

#[test]
fn portable_path_is_ignored_outside_portable_mode() {
    let mut probe = probe();
    probe.established = None;
    probe.portable_path = None;
    let chosen = extract_runtime(None, probe).unwrap();
    assert_eq!(chosen.path, "/home/user/.cache/espanso");
    assert!(chosen.create);
}

#[test]
fn paths_of_the_file_system_are_chosen_alike() {
    let probe = RuntimeProbe {
        established: None,
        portable_mode: false,
        portable_path: None,
        default_path: PathBuf::from("/var/cache/espanso"),
    };
    let chosen = extract_runtime(None, probe.clone()).unwrap();
    assert_eq!(chosen.path, PathBuf::from("/var/cache/espanso"));
    assert!(chosen.create);
    let chosen = extract_runtime(Some(PathBuf::from("/forced")), probe).unwrap();
    assert_eq!(chosen.path, PathBuf::from("/forced"));
    assert!(!chosen.create);
}
