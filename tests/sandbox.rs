use evaltor::{Instance, NSJailBlueprint};

fn blueprint(disable_network: bool, quiet: bool, write_stdin: bool) -> NSJailBlueprint {
    NSJailBlueprint {
        tests: "/srv/tests".to_string(),
        memory_limit: 512,
        time_limit: 5,
        max_cpus: 1,
        disable_network,
        mountpoint: "/srv/sub/a/u/t".to_string(),
        command: "/usr/bin/python3  main.py".to_string(),
        write_stdin,
        quiet,
    }
}

fn strings(v: &[&str]) -> Vec<String> {
    v.iter().map(|s| s.to_string()).collect()
}

#[test]
fn command_without_network() {
    let cmd = blueprint(true, true, true).into_command();
    assert_eq!(cmd.program, "sudo");
    assert!(cmd.pipe_stdin);
    assert_eq!(
        cmd.args,
        strings(&[
            "nsjail",
            "--mode",
            "o",
            "--chroot",
            "/",
            "--cwd",
            "/workspace",
            "--tmpfsmount",
            "/tmp",
            "--disable_clone_newuser",
            "--rlimit_as",
            "512",
            "--time_limit",
            "5",
            "--max_cpus",
            "1",
            "--bindmount_ro",
            "/srv/sub/a/u/t:/workspace",
            "--quiet",
            "--",
            "/usr/bin/python3",
            "main.py",
        ])
    );
}

#[test]
fn command_with_network_and_log() {
    let cmd = blueprint(false, false, false).into_command();
    assert!(!cmd.pipe_stdin);
    assert_eq!(cmd.args.len(), 22);
    assert_eq!(cmd.args[18], "--disable_clone_newnet");
    assert_eq!(cmd.args[19], "--");
    assert!(!cmd.args.contains(&"--quiet".to_string()));
}

#[test]
fn negative_limits_are_passed_through() {
    let mut bp = blueprint(true, false, true);
    bp.memory_limit = -1;
    let cmd = bp.into_command();
    assert_eq!(cmd.args[11], "-1");
}

#[test]
fn instance_keeps_its_blueprint() {
    let bp = Instance::new(blueprint(true, true, true)).into_blueprint();
    assert_eq!(bp.mountpoint, "/srv/sub/a/u/t");
    assert_eq!(bp.time_limit, 5);
}
