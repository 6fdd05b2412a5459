use runtime_service::jobs::JobStatus;
use runtime_service::service::{
    execution_limits, language_is_python, status_url, validate_request, ExecutionLimits, RunOutput,
    RuntimeState, SyncStart,
};
use runtime_service::types::ExecutionRequest;

fn req(language: &str, code: &str, timeout_ms: Option<u64>) -> ExecutionRequest {
    ExecutionRequest { language: language.into(), code: code.into(), timeout_ms }
}

const LIMITS: ExecutionLimits = ExecutionLimits { max_code_bytes: 10_000, max_timeout_ms: 30_000 };

#[test]
fn limits_from_environment_values() {
    let l = execution_limits(None, None);
    assert_eq!((l.max_code_bytes, l.max_timeout_ms), (10_000, 30_000));
    let l = execution_limits(Some("64".into()), Some("abc".into()));
    assert_eq!((l.max_code_bytes, l.max_timeout_ms), (64, 30_000));
}

#[test]
fn validation_reasons() {
    assert_eq!(validate_request(&req("python", " \n\t", None), &LIMITS), Err("empty code".to_string()));
    let big = "é".repeat(5_001);
    assert_eq!(validate_request(&req("python", &big, None), &LIMITS), Err("code too large".to_string()));
    let fits = "a".repeat(10_000);
    assert_eq!(validate_request(&req("python", &fits, None), &LIMITS), Ok(5_000));
    assert_eq!(
        validate_request(&req("python", "print(1)", Some(0)), &LIMITS),
        Err("invalid timeout; must be 1..30000 ms".to_string())
    );
    assert_eq!(
        validate_request(&req("python", "print(1)", Some(30_001)), &LIMITS),
        Err("invalid timeout; must be 1..30000 ms".to_string())
    );
    assert_eq!(validate_request(&req("python", "print(1)", Some(30_000)), &LIMITS), Ok(30_000));
}

#[test]
fn languages() {
    assert!(language_is_python("python"));
    assert!(language_is_python("py"));
    assert!(!language_is_python("Python"));
    assert_eq!(status_url("abc"), "/status/abc");
}

#[test]
fn synchronous_flow() {
    let mut st = RuntimeState::new();
    match st.begin_sync("j1", &req("python", "print('sync-test')", Some(2000)), &LIMITS, 10) {
        SyncStart::Run { timeout_ms } => assert_eq!(timeout_ms, 2000),
        _ => panic!("expected a run"),
    }
    let out = RunOutput { stdout: "sync-test\n".into(), stderr: String::new(), exit_code: Some(0) };
    let (code, body) = st.finish_sync("j1", Ok(out), 42, 11);
    assert_eq!(code, 200);
    assert!(body.stdout.contains("sync-test"));
    assert_eq!(body.status, "completed");
    assert_eq!(st.metrics.total_jobs, 1);
    assert_eq!(st.metrics.completed_jobs, 1);
    assert_eq!(st.metrics.min_execution_time_ms, 42);

    match st.begin_sync("j2", &req("ruby", "puts 1", None), &LIMITS, 12) {
        SyncStart::Fail(e) => {
            let (code, body) = st.finish_sync("j2", Err(e), 1, 13);
            assert_eq!(code, 500);
            assert_eq!(body.stderr, "unsupported language");
        }
        _ => panic!("expected a failure"),
    }
    assert_eq!(st.metrics.failed_jobs, 1);

    match st.begin_sync("j3", &req("python", "", None), &LIMITS, 14) {
        SyncStart::Rejected(r) => {
            assert_eq!(r.status, "failed");
            assert_eq!(r.stderr, "empty code");
            assert_eq!(r.created_at, Some(14));
        }
        _ => panic!("expected a rejection"),
    }
    assert_eq!(st.metrics.total_jobs, 3);
    assert!(matches!(st.jobs.status("j3"), JobStatus::Finished(_)));
}

#[test]
fn asynchronous_flow_and_cancel() {
    let mut st = RuntimeState::new();
    assert_eq!(st.begin_async("a1", &req("python", "print('async-test')", Some(2000)), &LIMITS, 50), Ok(2000));
    assert!(matches!(st.jobs.status("a1"), JobStatus::Running { created_at: Some(50) }));
    assert!(st.begin_async("a2", &req("python", "x", Some(0)), &LIMITS, 51).is_err());
    assert!(matches!(st.jobs.status("a2"), JobStatus::NotFound));

    assert!(!st.cancel("a1", false));
    assert!(st.cancel("a1", true));
    match st.jobs.status("a1") {
        JobStatus::Finished(r) => {
            assert_eq!(r.status, "cancelled");
            assert_eq!(r.stderr, "cancelled by user");
            assert_eq!(r.created_at, Some(50));
        }
        _ => panic!("expected a cancelled job"),
    }
    assert_eq!(st.metrics.cancelled_jobs, 1);

    st.reject_language("a3", 60);
    match st.jobs.status("a3") {
        JobStatus::Finished(r) => assert_eq!(r.stderr, "unsupported language"),
        _ => panic!("expected a failed job"),
    }
}

#[test]
fn streamed_job_end() {
    let mut st = RuntimeState::new();
    let msg = st.stream_spawn_failed("s1", "no docker", 70);
    assert_eq!(msg, "ERR: failed to start sandbox container: no docker");
    assert_eq!(st.jobs.created_at("s1"), None);
    let finish = runtime_service::executor::finish_from_outcome(
        runtime_service::executor::WaitOutcome::Exited { success: true, code: Some(0) },
        "out\n".into(),
        String::new(),
    );
    let done = st.finalize_job("s2", finish, 80);
    assert_eq!(done, "DONE: exit=Some(0)");
    assert_eq!(st.jobs.created_at("s2"), Some(80));
    match st.jobs.status("s2") {
        JobStatus::Finished(r) => assert_eq!(r.status, "completed"),
        _ => panic!("expected a finished job"),
    }
}
