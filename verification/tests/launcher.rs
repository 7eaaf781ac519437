use terminal_launcher::command::{delayed_command, invocation, num_candidates, Platform,
    STARTUP_DELAY_SECS};
use terminal_launcher::session::{LaunchSession, SpawnOutcome};

#[test]
fn wrapped_command_windows_exact() {
    let wrapped = delayed_command(Platform::Windows, "echo hi");
    assert_eq!(wrapped, "timeout /t 2 && echo hi");
}

#[test]
fn wrapped_command_macos_exact() {
    let wrapped = delayed_command(Platform::MacOs, "echo hi");
    assert_eq!(wrapped, "sleep 2 && echo hi");
}

#[test]
fn wrapped_command_linux_exact() {
    let wrapped = delayed_command(Platform::Linux, "echo hi");
    assert_eq!(wrapped, "sleep 2 && echo hi;bash");
}

#[test]
fn wrapped_command_keeps_input_verbatim() {
    let tricky = "echo \"a && b\" ; rm -- $HOME/x";
    let wrapped = delayed_command(Platform::Windows, tricky);
    assert_eq!(wrapped, format!("timeout /t 2 && {}", tricky));
}

#[test]
fn wrapped_command_empty_input() {
    assert_eq!(delayed_command(Platform::MacOs, ""), "sleep 2 && ");
    assert_eq!(delayed_command(Platform::Linux, ""), "sleep 2 && ;bash");
}

#[test]
fn wrapped_command_embeds_named_delay() {
    for platform in [Platform::MacOs, Platform::Windows, Platform::Linux] {
        let wrapped = delayed_command(platform, "true");
        assert!(wrapped.contains(&format!(" {} ", STARTUP_DELAY_SECS)));
    }
}

#[test]
fn candidate_counts() {
    assert_eq!(num_candidates(Platform::MacOs), 1);
    assert_eq!(num_candidates(Platform::Windows), 1);
    assert_eq!(num_candidates(Platform::Linux), 3);
}

#[test]
fn macos_invocation_shape() {
    let inv = invocation(Platform::MacOs, "echo hi", 0);
    assert_eq!(inv.program, "osascript");
    assert_eq!(
        inv.args,
        vec![
            "-e".to_string(),
            "tell application \"Terminal\" to do script \"sleep 2 && echo hi\"".to_string(),
        ]
    );
}

#[test]
fn windows_invocation_shape() {
    let inv = invocation(Platform::Windows, "echo hi", 0);
    assert_eq!(inv.program, "cmd");
    assert_eq!(
        inv.args,
        vec![
            "/C".to_string(),
            "start".to_string(),
            "cmd".to_string(),
            "/k".to_string(),
            "timeout /t 2 && echo hi".to_string(),
        ]
    );
}

#[test]
fn linux_invocation_shapes() {
    let first = invocation(Platform::Linux, "ls", 0);
    assert_eq!(first.program, "gnome-terminal");
    assert_eq!(
        first.args,
        vec![
            "--".to_string(),
            "bash".to_string(),
            "-c".to_string(),
            "sleep 2 && ls;bash".to_string(),
        ]
    );

    let second = invocation(Platform::Linux, "ls", 1);
    assert_eq!(second.program, "xterm");
    assert_eq!(second.args, vec!["-e".to_string(), "sleep 2 && ls;bash".to_string()]);

    let third = invocation(Platform::Linux, "ls", 2);
    assert_eq!(third.program, "konsole");
    assert_eq!(
        third.args,
        vec![
            "--noclose".to_string(),
            "-e".to_string(),
            "sleep 2 && ls;bash".to_string(),
        ]
    );
}

#[test]
fn first_success_reports_ok_nonempty() {
    let mut session = LaunchSession::new(Platform::MacOs, "echo hi".to_string());
    let _ = session.next_invocation();
    let response = session.record_outcome(SpawnOutcome::Exited(true));
    let message = response.expect("one outcome decides on macOS").expect("success");
    assert_eq!(message, "Terminal launched successfully");
    assert!(!message.is_empty());
}

#[test]
fn linux_second_candidate_succeeds_after_two_attempts() {
    let mut session = LaunchSession::new(Platform::Linux, "htop".to_string());

    let first = session.next_invocation();
    assert_eq!(first.program, "gnome-terminal");
    let pending = session.record_outcome(SpawnOutcome::SpawnError("not found".to_string()));
    assert!(pending.is_none(), "one failed candidate must not finish the run");

    let second = session.next_invocation();
    assert_eq!(second.program, "xterm");
    let response = session.record_outcome(SpawnOutcome::Exited(true));
    assert_eq!(response, Some(Ok("Terminal launched successfully".to_string())));
    // The run is decided after exactly two attempts; konsole is never asked for.
}

#[test]
fn linux_all_candidates_fail() {
    let mut session = LaunchSession::new(Platform::Linux, "htop".to_string());
    let mut programs: Vec<String> = Vec::new();
    let mut attempts: usize = 0;
    let response = loop {
        programs.push(session.next_invocation().program);
        attempts += 1;
        if let Some(response) = session.record_outcome(SpawnOutcome::Exited(false)) {
            break response;
        }
    };
    assert_eq!(attempts, 3);
    assert_eq!(programs, vec!["gnome-terminal", "xterm", "konsole"]);
    assert_eq!(response, Err("Failed to launch terminal on Linux".to_string()));
}

#[test]
fn linux_mixes_spawn_errors_and_failures() {
    let mut session = LaunchSession::new(Platform::Linux, "ls".to_string());
    assert!(session.record_outcome(SpawnOutcome::SpawnError("missing".to_string())).is_none());
    assert!(session.record_outcome(SpawnOutcome::Exited(false)).is_none());
    let response = session.record_outcome(SpawnOutcome::SpawnError("missing too".to_string()));
    assert_eq!(response, Some(Err("Failed to launch terminal on Linux".to_string())));
}

#[test]
fn macos_spawn_error_text_is_surfaced() {
    let mut session = LaunchSession::new(Platform::MacOs, "echo hi".to_string());
    let response = session.record_outcome(SpawnOutcome::SpawnError(
        "No such file or directory (os error 2)".to_string(),
    ));
    assert_eq!(response, Some(Err("No such file or directory (os error 2)".to_string())));
}

#[test]
fn windows_nonzero_status_reports_fixed_message() {
    let mut session = LaunchSession::new(Platform::Windows, "echo hi".to_string());
    let response = session.record_outcome(SpawnOutcome::Exited(false));
    assert_eq!(response, Some(Err("Failed to launch terminal".to_string())));
}

#[test]
fn two_sessions_are_independent() {
    let mut one = LaunchSession::new(Platform::Linux, "first-command".to_string());
    let mut two = LaunchSession::new(Platform::Linux, "second-command".to_string());

    // Interleave the two sessions as concurrent callers would.
    let inv_one = one.next_invocation();
    let inv_two = two.next_invocation();
    assert!(inv_one.args.last().unwrap().contains("first-command"));
    assert!(inv_two.args.last().unwrap().contains("second-command"));
    assert!(!inv_one.args.last().unwrap().contains("second-command"));
    assert!(!inv_two.args.last().unwrap().contains("first-command"));

    let r_one = one.record_outcome(SpawnOutcome::Exited(true));
    assert_eq!(r_one, Some(Ok("Terminal launched successfully".to_string())));

    assert!(two.record_outcome(SpawnOutcome::Exited(false)).is_none());
    assert!(two.record_outcome(SpawnOutcome::Exited(false)).is_none());
    let r_two = two.record_outcome(SpawnOutcome::Exited(false));
    assert_eq!(r_two, Some(Err("Failed to launch terminal on Linux".to_string())));
}
