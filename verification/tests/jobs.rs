use runtime_service::jobs::{JobLogs, JobStatus, JobStore, ListJobsQuery, LogsQuery};
use runtime_service::types::ExecutionResult;

fn record(id: &str, status: &str, stdout: &str, at: i64) -> ExecutionResult {
    ExecutionResult {
        id: id.into(),
        status: status.into(),
        stdout: stdout.into(),
        stderr: String::new(),
        exit_code: Some(0),
        created_at: Some(at),
    }
}

#[test]
fn status_reads_back() {
    let mut s = JobStore::new();
    assert!(matches!(s.status("x"), JobStatus::NotFound));
    s.mark_running("x", 100);
    assert!(matches!(s.status("x"), JobStatus::Running { created_at: Some(100) }));
    s.put_result_at(record("x", "completed", "hi\n", 200), 200);
    match s.status("x") {
        JobStatus::Finished(r) => {
            assert_eq!(r.status, "completed");
            assert_eq!(r.stdout, "hi\n");
        }
        _ => panic!("expected a finished job"),
    }
    assert_eq!(s.created_at("x"), Some(200));
}

#[test]
fn list_filters_by_status() {
    let mut s = JobStore::new();
    s.mark_running("r1", 1);
    s.put_result_at(record("c1", "completed", "", 2), 2);
    s.put_result(record("f1", "failed", "", 3));
    let all = s.list(&ListJobsQuery { status: None });
    assert_eq!(all.len(), 3);
    let running = s.list(&ListJobsQuery { status: Some("running".into()) });
    assert_eq!(running.len(), 1);
    assert_eq!(running[0].id, "r1");
    assert_eq!(running[0].created_at, Some(1));
    let failed = s.list(&ListJobsQuery { status: Some("failed".into()) });
    assert_eq!(failed.len(), 1);
    assert_eq!(failed[0].created_at, Some(3));
    assert!(s.list(&ListJobsQuery { status: Some("cancelled".into()) }).is_empty());
}

#[test]
fn summary_counts_and_latest() {
    let mut s = JobStore::new();
    let e = s.summary();
    assert_eq!((e.total_jobs, e.running_jobs, e.completed_jobs, e.latest_job_at), (0, 0, 0, None));
    s.mark_running("a", 5);
    s.put_result_at(record("b", "completed", "", 9), 9);
    s.mark_running("c", -3);
    let m = s.summary();
    assert_eq!((m.total_jobs, m.running_jobs, m.completed_jobs, m.latest_job_at), (3, 2, 1, Some(9)));
    assert_eq!(m.running_jobs + m.completed_jobs, m.total_jobs);
}

#[test]
fn logs_tail() {
    let mut s = JobStore::new();
    s.put_result_at(record("j", "completed", "1\n2\n3\n", 1), 1);
    s.mark_running("k", 2);
    match s.logs("j", &LogsQuery { tail: Some(2) }) {
        JobLogs::Output { stdout, stderr } => {
            assert_eq!(stdout, "2\n3");
            assert_eq!(stderr, "");
        }
        _ => panic!("expected output"),
    }
    match s.logs("j", &LogsQuery { tail: None }) {
        JobLogs::Output { stdout, .. } => assert_eq!(stdout, "1\n2\n3\n"),
        _ => panic!("expected output"),
    }
    assert!(matches!(s.logs("k", &LogsQuery { tail: None }), JobLogs::Running));
    assert!(matches!(s.logs("zz", &LogsQuery { tail: None }), JobLogs::NotFound));
}

#[test]
fn purge_keeps_times() {
    let mut s = JobStore::new();
    s.mark_running("a", 5);
    s.put_result_at(record("b", "completed", "", 9), 9);
    s.purge();
    assert!(matches!(s.status("a"), JobStatus::NotFound));
    assert!(matches!(s.status("b"), JobStatus::NotFound));
    let m = s.summary();
    assert_eq!((m.total_jobs, m.running_jobs, m.completed_jobs, m.latest_job_at), (0, 0, 0, Some(9)));
    assert_eq!(s.created_at("a"), Some(5));
}
