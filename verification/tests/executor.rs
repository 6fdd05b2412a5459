use runtime_service::executor::{
    after_container, after_fallback, command_failure_text, container_failure_text, contains,
    docker_command_args, done_message, error_message, fallback_failure_text,
    finish_from_outcome, local_fallback_enabled, local_next, local_program_name, pump_line,
    sandbox_config, stop_after_local_failure, tempfile_path, CommandFailure, LocalStep,
    RunnerStep, SandboxConfig, StreamOutput, WaitOutcome,
};
use runtime_service::service::RunOutput;

fn out(s: &str) -> RunOutput {
    RunOutput { stdout: s.into(), stderr: String::new(), exit_code: Some(0) }
}

#[test]
fn test_docker_command_has_expected_flags() {
    let config = SandboxConfig {
        image: "python:3.12-slim".into(),
        memory_mb: 256,
        cpus: "1.0".into(),
        pids_limit: 64,
    };
    let path = "/tmp/main.py";
    let args = docker_command_args(path, &config);
    assert!(args.contains(&"run".to_string()));
    assert!(args.contains(&"--rm".to_string()));
    assert!(args.contains(&"--network".to_string()));
    assert!(args.contains(&"none".to_string()));
    assert!(args.iter().any(|arg| arg.contains("/tmp/main.py:/sandbox/main.py:ro")));
    assert!(args.contains(&"python:3.12-slim".to_string()));
}

#[test]
fn docker_args_are_exact() {
    let config = SandboxConfig { image: "img".into(), memory_mb: 512, cpus: "0.5".into(), pids_limit: 7 };
    let args = docker_command_args("/work/x.py", &config);
    let expected: Vec<&str> = vec![
        "run", "--rm", "--network", "none", "--cap-drop", "ALL", "--security-opt",
        "no-new-privileges", "--pids-limit", "7", "--memory", "512m", "--cpus", "0.5",
        "--read-only", "--tmpfs", "/sandbox:rw,noexec,nosuid,size=64m", "-v",
        "/work/x.py:/sandbox/main.py:ro", "img", "python", "-u", "/sandbox/main.py",
    ];
    assert_eq!(args, expected);
}

#[test]
fn sandbox_config_defaults_and_overrides() {
    let c = sandbox_config(None, None, None, None);
    assert_eq!(c.image, "python:3.12-slim");
    assert_eq!(c.memory_mb, 256);
    assert_eq!(c.cpus, "1.0");
    assert_eq!(c.pids_limit, 64);
    let c = sandbox_config(Some("alpine".into()), Some("+1024".into()), Some("2".into()), Some("x9".into()));
    assert_eq!(c.image, "alpine");
    assert_eq!(c.memory_mb, 1024);
    assert_eq!(c.cpus, "2");
    assert_eq!(c.pids_limit, 64);
    let c = sandbox_config(None, Some("18446744073709551616".into()), None, Some("18446744073709551615".into()));
    assert_eq!(c.memory_mb, 256);
    assert_eq!(c.pids_limit, u64::MAX);
}

#[test]
fn tempfile_path_drops_trailing_slashes() {
    assert_eq!(tempfile_path(Some("/var/tmp///".into()), "abc"), "/var/tmp/runtime-abc.py");
    assert_eq!(tempfile_path(None, "u-1"), "/tmp/runtime-u-1.py");
    assert_eq!(tempfile_path(Some("/".into()), "z"), "/runtime-z.py");
}

#[test]
fn failure_texts() {
    assert_eq!(command_failure_text(&CommandFailure::TimedOut), "execution timed out");
    assert_eq!(
        command_failure_text(&CommandFailure::StartFailed("No such file".into())),
        "failed to start execution: No such file"
    );
    assert_eq!(container_failure_text("boom"), "failed to start sandbox container: boom");
    assert_eq!(
        fallback_failure_text("a", "b"),
        "container runner failed: a; local fallback failed: b"
    );
    assert_eq!(local_program_name(0), "python3");
    assert_eq!(local_program_name(1), "python");
}

#[test]
fn fallback_only_when_flag_is_one() {
    assert!(local_fallback_enabled(&Some("1".into())));
    assert!(!local_fallback_enabled(&Some("true".into())));
    assert!(!local_fallback_enabled(&None));
}

#[test]
fn local_runner_stops_on_timeout_only() {
    assert!(stop_after_local_failure("execution timed out"));
    assert!(!stop_after_local_failure("failed to start execution: not found"));
    assert!(contains("abc", ""));
    assert!(contains("abc", "bc"));
    assert!(!contains("ab", "abc"));
}

#[test]
fn finish_outcomes() {
    let f = finish_from_outcome(WaitOutcome::Exited { success: true, code: Some(0) }, "o".into(), "e".into());
    assert_eq!((f.status.as_str(), f.stdout.as_str(), f.stderr.as_str(), f.exit_code), ("completed", "o", "e", Some(0)));
    let f = finish_from_outcome(WaitOutcome::Exited { success: false, code: Some(2) }, "o".into(), "e".into());
    assert_eq!((f.status.as_str(), f.exit_code), ("failed", Some(2)));
    let f = finish_from_outcome(WaitOutcome::WaitFailed("io".into()), "o".into(), "e".into());
    assert_eq!((f.status.as_str(), f.stdout.as_str(), f.stderr.as_str(), f.exit_code), ("failed", "", "error: io", None));
    let f = finish_from_outcome(WaitOutcome::TimedOut, "o".into(), "e".into());
    assert_eq!(f.stderr, "execution timed out");
    let f = finish_from_outcome(WaitOutcome::NoChild, "o".into(), "e".into());
    assert_eq!(f.stderr, "no child process");
}

#[test]
fn pump_line_collects_and_announces() {
    let mut buffer = String::new();
    let m1 = pump_line(&mut buffer, "OUT:", "first");
    let m2 = pump_line(&mut buffer, "OUT:", "second");
    assert_eq!(buffer, "first\nsecond\n");
    assert_eq!(m1, "OUT: first");
    assert_eq!(m2, "OUT: second");
}

#[test]
fn listener_messages() {
    assert_eq!(done_message(Some(0)), "DONE: exit=Some(0)");
    assert_eq!(done_message(Some(-9)), "DONE: exit=Some(-9)");
    assert_eq!(done_message(None), "DONE: exit=None");
    assert_eq!(error_message("x"), "ERR: x");
}

#[test]
fn pumping_a_sequence_of_lines() {
    let mut buffer = String::from("x\n");
    let lines = ["a", "", "c d"];
    let messages: Vec<String> = lines.iter().map(|l| pump_line(&mut buffer, "ERR:", l)).collect();
    assert_eq!(buffer, "x\na\n\nc d\n");
    assert_eq!(messages, vec!["ERR: a".to_string(), "ERR: ".to_string(), "ERR: c d".to_string()]);
}

#[test]
fn local_runner_steps() {
    assert!(matches!(local_next(0, Ok(out("x"))), LocalStep::Finish(Ok(o)) if o.stdout == "x"));
    assert!(matches!(local_next(0, Err("execution timed out".into())), LocalStep::Finish(Err(e)) if e == "execution timed out"));
    assert!(matches!(local_next(0, Err("failed to start execution: nope".into())), LocalStep::Try(1)));
    assert!(matches!(local_next(1, Err("failed to start execution: nope".into())), LocalStep::Finish(Err(e)) if e == "no python interpreter found"));
    assert!(matches!(local_next(1, Ok(out("y"))), LocalStep::Finish(Ok(o)) if o.stdout == "y"));
}

#[test]
fn container_then_fallback() {
    assert!(matches!(after_container(Ok(out("c")), true), RunnerStep::Finish(Ok(o)) if o.stdout == "c"));
    assert!(matches!(after_container(Err("boom".into()), false), RunnerStep::Finish(Err(e)) if e == "boom"));
    assert!(matches!(after_container(Err("boom".into()), true), RunnerStep::FallBack(e) if e == "boom"));
    assert!(matches!(after_fallback("boom", Ok(out("l"))), Ok(o) if o.stdout == "l"));
    assert_eq!(
        after_fallback("boom", Err("no python interpreter found".into())).unwrap_err(),
        "container runner failed: boom; local fallback failed: no python interpreter found"
    );
}

#[test]
fn stream_output_collects_lines() {
    let mut s = StreamOutput::new("OUT:");
    assert_eq!(s.collected(), "");
    assert_eq!(s.push_line("first"), "OUT: first");
    assert_eq!(s.push_line(""), "OUT: ");
    assert_eq!(s.push_line("second"), "OUT: second");
    assert_eq!(s.collected(), "first\n\nsecond\n");
}
