use runtime_service::metrics::{execution_time_report, Metrics};

#[test]
fn fresh_counters() {
    let m = Metrics::new();
    assert!(m.can_snapshot());
    let s = m.snapshot();
    assert_eq!((s.total_jobs, s.completed_jobs, s.failed_jobs, s.running_jobs, s.cancelled_jobs), (0, 0, 0, 0, 0));
    assert_eq!(s.min_execution_time_ms, u64::MAX);
    let r = execution_time_report(&s);
    assert_eq!((r.total_ms, r.min_ms, r.max_ms, r.avg_ms), (0, 0, 0, 0));
}

#[test]
fn completions_fold_min_max_total() {
    let mut m = Metrics::new();
    for _ in 0..4 {
        m.record_job_started();
    }
    m.record_job_completed(30);
    m.record_job_completed(10);
    m.record_job_completed(50);
    m.record_job_failed();
    let s = m.snapshot();
    assert_eq!(s.total_jobs, 4);
    assert_eq!(s.completed_jobs, 3);
    assert_eq!(s.failed_jobs, 1);
    assert_eq!(s.running_jobs, 0);
    assert_eq!((s.min_execution_time_ms, s.max_execution_time_ms, s.total_execution_time_ms), (10, 50, 90));
    let r = execution_time_report(&s);
    assert_eq!(r.avg_ms, 30);
    assert_eq!(r.min_ms, 10);
}

#[test]
fn completions_commute_on_values() {
    let mut a = Metrics::new();
    a.record_job_completed(7);
    a.record_job_completed(3);
    let mut b = Metrics::new();
    b.record_job_completed(3);
    b.record_job_completed(7);
    assert_eq!(
        (a.completed_jobs, a.total_execution_time_ms, a.min_execution_time_ms, a.max_execution_time_ms),
        (b.completed_jobs, b.total_execution_time_ms, b.min_execution_time_ms, b.max_execution_time_ms)
    );
}

#[test]
fn counters_wrap_like_atomics() {
    let mut m = Metrics::new();
    m.webhook_failed = u64::MAX;
    m.record_webhook_failure();
    assert_eq!(m.webhook_failed, 0);
    m.record_webhook_success();
    assert_eq!(m.webhook_delivered, 1);
    m.record_job_cancelled();
    assert_eq!(m.cancelled_jobs, 1);
    assert!(!m.can_snapshot());
}

#[test]
fn counters_summarise_a_sequence() {
    let mut m = Metrics::new();
    let times = [40u64, 5, 17, 5];
    for (i, t) in times.iter().enumerate() {
        m.record_job_started();
        if i == 1 {
            m.record_job_failed();
            m.record_webhook_failure();
        }
        m.record_job_completed(*t);
    }
    assert_eq!(m.completed_jobs, 4);
    assert_eq!(m.total_execution_time_ms, 67);
    assert_eq!(m.min_execution_time_ms, 5);
    assert_eq!(m.max_execution_time_ms, 40);
    let avg = m.total_execution_time_ms / m.completed_jobs;
    assert!(m.min_execution_time_ms <= avg && avg <= m.max_execution_time_ms);
}
