use espanso_daemon::daemon::worker::worker_command;
use espanso_daemon::paths::Paths;

fn paths() -> Paths {
    Paths {
        config: "/home/user/.config/espanso".to_string(),
        packages: "/home/user/.local/share/espanso/packages".to_string(),
        runtime: "/home/user/.cache/espanso".to_string(),
    }
}

#[test]
fn worker_is_the_same_executable_with_one_argument() {
    let command = worker_command("/usr/bin/espanso", &paths());
    assert_eq!(command.program, "/usr/bin/espanso");
    assert_eq!(command.args, vec!["worker".to_string()]);
}

#[test]
fn worker_is_told_the_three_directories() {
    let command = worker_command("/usr/bin/espanso", &paths());
    let envs: Vec<(&str, &str)> =
        command.envs.iter().map(|var| (var.name.as_str(), var.value.as_str())).collect();
    assert_eq!(
        envs,
        vec![
            ("ESPANSO_CONFIG_DIR", "/home/user/.config/espanso"),
            ("ESPANSO_PACKAGE_DIR", "/home/user/.local/share/espanso/packages"),
            ("ESPANSO_RUNTIME_DIR", "/home/user/.cache/espanso"),
        ]
    );
}

#[test]
fn worker_command_keeps_odd_paths_as_they_are() {
    let odd = Paths {
        config: String::new(),
        packages: "C:\\Program Files\\espanso".to_string(),
        runtime: "/tmp/with space/\u{e9}".to_string(),
    };
    let command = worker_command("", &odd);
    assert_eq!(command.program, "");
    assert_eq!(command.envs[0].value, "");
    assert_eq!(command.envs[1].value, "C:\\Program Files\\espanso");
    assert_eq!(command.envs[2].value, "/tmp/with space/\u{e9}");
    assert_eq!(command.envs.len(), 3);
}
