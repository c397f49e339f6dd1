use piforma_panel::launcher::{
    clean_exec_command, detached_env_key_names, detached_shell_args, fallback_start,
    fallback_step, join_strings, launch_failure_message, remove_remaining_field_codes, setsid_args,
    shell_quote, systemd_run_args, unique_launch_unit_name, AttemptResult, FallbackAction,
    launch_start, launch_step, LaunchStep, SpawnOutcome,
};

fn cmds(list: &[&[&str]]) -> Vec<Vec<String>> {
    list.iter().map(|c| c.iter().map(|w| w.to_string()).collect()).collect()
}

#[test]
fn exec_field_codes_are_removed() {
    assert_eq!(clean_exec_command("xcalc %U", "Calculator"), "xcalc");
    assert_eq!(clean_exec_command("viewer %f --icon %i %k", "V"), "viewer  --icon");
    assert_eq!(clean_exec_command("app --name %c", "It's"), "app --name 'It'\\''s'");
    assert_eq!(clean_exec_command("printf 100%% %d", "P"), "printf 100%");
    assert_eq!(clean_exec_command("  run %", "R"), "run");
}

#[test]
fn field_code_removal_and_quoting() {
    assert_eq!(remove_remaining_field_codes("a%%b%xc%"), "a%bc");
    assert_eq!(remove_remaining_field_codes("plain"), "plain");
    assert_eq!(shell_quote("a'b"), "'a'\\''b'");
    assert_eq!(shell_quote(""), "''");
}

#[test]
fn detached_launch_arguments() {
    assert_eq!(
        detached_shell_args("xcalc"),
        vec!["-c", "exec sh -c \"$1\"", "piforma-shell", "xcalc"]
    );
    assert_eq!(setsid_args("xcalc", &vec!["-a".to_string()]), vec!["-f", "--", "xcalc", "-a"]);
    assert_eq!(unique_launch_unit_name(42, 1700000000123), "piforma-launch-42-1700000000123");
    assert_eq!(
        systemd_run_args(
            "u",
            &vec![
                ("DISPLAY".to_string(), Some(":0".to_string())),
                ("XAUTHORITY".to_string(), None),
            ],
            "sh",
            &vec!["-c".to_string()],
        ),
        vec!["--user", "--scope", "--collect", "--quiet", "--unit=u", "--setenv=DISPLAY=:0", "--", "sh", "-c"]
    );
    assert_eq!(detached_env_key_names().len(), 5);
    assert_eq!(launch_failure_message("x", "boom"), "failed to launch x: boom");
    assert_eq!(join_strings(&vec!["a".to_string(), "b".to_string()], "; "), "a; b");
}

#[test]
fn fallbacks_stop_at_the_first_success() {
    let commands = cmds(&[&[], &["xcalc"], &["galculator"]]);
    let (state, action) = fallback_start(&commands);
    assert!(matches!(action, FallbackAction::Attempt(1)));
    let (state, action) = fallback_step(&commands, state, 1, AttemptResult::NotFound);
    assert!(matches!(action, FallbackAction::Attempt(2)));
    let (_, action) = fallback_step(&commands, state, 2, AttemptResult::Succeeded);
    assert!(matches!(action, FallbackAction::Finish(Ok(()))));
}

#[test]
fn failed_fallbacks_report_every_attempt() {
    let commands = cmds(&[&["xset", "dpms", "force", "off"], &["xset", "s", "activate"], &["a"], &["b"]]);
    let (state, _) = fallback_start(&commands);
    let (state, _) = fallback_step(&commands, state, 0, AttemptResult::ExitedWith("exit status: 1".to_string()));
    let (state, _) = fallback_step(&commands, state, 1, AttemptResult::CouldNotRun("No such file".to_string()));
    let (state, _) = fallback_step(&commands, state, 2, AttemptResult::Failed("failed to launch a: x".to_string()));
    let (_, action) = fallback_step(&commands, state, 3, AttemptResult::NotFound);
    match action {
        FallbackAction::Finish(Err(message)) => assert_eq!(
            message,
            "xset dpms force off exited with status exit status: 1; xset s activate: No such file; failed to launch a: x; b not found"
        ),
        _ => panic!("every attempt failed"),
    }
    let (_, action) = fallback_start(&cmds(&[]));
    assert!(matches!(action, FallbackAction::Finish(Err(ref m)) if m.is_empty()));
}

fn words(list: &[&str]) -> Vec<String> {
    list.iter().map(|w| w.to_string()).collect()
}

#[test]
fn detached_launch_tries_systemd_run_then_setsid_then_the_program() {
    let env = vec![
        ("DISPLAY".to_string(), Some(":0".to_string())),
        ("XAUTHORITY".to_string(), None),
    ];
    let args = words(&["--new-window"]);
    let start = launch_start(12, 345, &env, "xterm", &args);
    match &start {
        LaunchStep::SystemdRun(a) => assert_eq!(
            a,
            &words(&[
                "--user",
                "--scope",
                "--collect",
                "--quiet",
                "--unit=piforma-launch-12-345",
                "--setenv=DISPLAY=:0",
                "--",
                "xterm",
                "--new-window",
            ])
        ),
        other => panic!("unexpected first step {other:?}"),
    }
    let setsid = launch_step(&start, SpawnOutcome::NotOnPath, "xterm", &args);
    match &setsid {
        LaunchStep::Setsid(a) => assert_eq!(a, &words(&["-f", "--", "xterm", "--new-window"])),
        other => panic!("unexpected step {other:?}"),
    }
    let direct = launch_step(&setsid, SpawnOutcome::Failed("denied".to_string()), "xterm", &args);
    assert!(matches!(direct, LaunchStep::Direct));
    match launch_step(&direct, SpawnOutcome::Failed("No such file".to_string()), "xterm", &args) {
        LaunchStep::Done(result) => {
            assert_eq!(result, Err("failed to launch xterm: No such file".to_string()))
        }
        other => panic!("unexpected step {other:?}"),
    }
    match launch_step(&direct, SpawnOutcome::Spawned, "xterm", &args) {
        LaunchStep::Done(result) => assert_eq!(result, Ok(())),
        other => panic!("unexpected step {other:?}"),
    }
    match launch_step(&start, SpawnOutcome::Spawned, "xterm", &args) {
        LaunchStep::Done(result) => assert_eq!(result, Ok(())),
        other => panic!("unexpected step {other:?}"),
    }
    let after_failure = launch_step(&start, SpawnOutcome::Failed("no bus".to_string()), "xterm", &args);
    assert!(matches!(after_failure, LaunchStep::Setsid(_)));
}

#[test]
fn name_code_is_one_quoted_shell_word() {
    assert_eq!(clean_exec_command("app %c", "Bob's"), "app 'Bob'\\''s'");
    assert_eq!(clean_exec_command("app %c", "Calc"), "app 'Calc'");
}
