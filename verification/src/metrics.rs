//! Job and webhook counters kept by the runtime service.
use vstd::prelude::*;

verus! {

/// A point-in-time copy of the counters, with the derived count of jobs still running.
#[derive(Debug, Clone, Copy)]
pub struct MetricsSnapshot {
    pub total_jobs: u64,
    pub completed_jobs: u64,
    pub failed_jobs: u64,
    pub running_jobs: u64,
    pub cancelled_jobs: u64,
    pub total_execution_time_ms: u64,
    pub min_execution_time_ms: u64,
    pub max_execution_time_ms: u64,
    pub webhook_delivered: u64,
    pub webhook_failed: u64,
}

/// Counters of jobs and webhook deliveries.
pub struct Metrics {
    pub total_jobs: u64,
    pub completed_jobs: u64,
    pub failed_jobs: u64,
    pub cancelled_jobs: u64,
    pub total_execution_time_ms: u64,
    pub min_execution_time_ms: u64,
    pub max_execution_time_ms: u64,
    pub webhook_delivered: u64,
    pub webhook_failed: u64,
}

/// Addition modulo 2^64, as the counters' atomic `fetch_add` performs it.
pub open spec fn wrap_add(a: u64, b: u64) -> u64 {
    if a + b <= u64::MAX { (a + b) as u64 } else { (a + b - (u64::MAX + 1)) as u64 }
}

impl Metrics {
    /// The counters of a fresh service.
    pub open spec fn new_spec() -> Metrics {
        Metrics {
            total_jobs: 0,
            completed_jobs: 0,
            failed_jobs: 0,
            cancelled_jobs: 0,
            total_execution_time_ms: 0,
            min_execution_time_ms: u64::MAX,
            max_execution_time_ms: 0,
            webhook_delivered: 0,
            webhook_failed: 0,
        }
    }

    /// The counters after one job started.
    pub open spec fn after_start(self) -> Metrics {
        Metrics { total_jobs: wrap_add(self.total_jobs, 1), ..self }
    }

    /// The counters after one job failed.
    pub open spec fn after_failure(self) -> Metrics {
        Metrics { failed_jobs: wrap_add(self.failed_jobs, 1), ..self }
    }

    /// The counters after one webhook delivery.
    pub open spec fn after_webhook_success(self) -> Metrics {
        Metrics { webhook_delivered: wrap_add(self.webhook_delivered, 1), ..self }
    }

    /// The counters after one failed webhook delivery.
    pub open spec fn after_webhook_failure(self) -> Metrics {
        Metrics { webhook_failed: wrap_add(self.webhook_failed, 1), ..self }
    }

    /// The counters after one job was cancelled.
    pub open spec fn after_cancel(self) -> Metrics {
        Metrics { cancelled_jobs: wrap_add(self.cancelled_jobs, 1), ..self }
    }

    /// The counters after one completed job that ran for `t` milliseconds.
    pub open spec fn after_completion(self, t: u64) -> Metrics {
        Metrics {
            completed_jobs: wrap_add(self.completed_jobs, 1),
            total_execution_time_ms: wrap_add(self.total_execution_time_ms, t),
            min_execution_time_ms: if t < self.min_execution_time_ms {
                t
            } else {
                self.min_execution_time_ms
            },
            max_execution_time_ms: if t > self.max_execution_time_ms {
                t
            } else {
                self.max_execution_time_ms
            },
            ..self
        }
    }

    pub fn new() -> (m: Self)
        ensures
            m == Metrics::new_spec(),
    {
        Metrics {
            total_jobs: 0,
            completed_jobs: 0,
            failed_jobs: 0,
            cancelled_jobs: 0,
            total_execution_time_ms: 0,
            min_execution_time_ms: u64::MAX,
            max_execution_time_ms: 0,
            webhook_delivered: 0,
            webhook_failed: 0,
        }
    }

    pub fn record_job_started(&mut self)
        ensures
            *final(self) == old(self).after_start(),
    {
        self.total_jobs = self.total_jobs.wrapping_add(1);
    }

    /// Counts a completed job and folds its execution time into the total, the minimum and
    /// the maximum.
    pub fn record_job_completed(&mut self, execution_time_ms: u64)
        ensures
            *final(self) == old(self).after_completion(execution_time_ms),
    {
        self.completed_jobs = self.completed_jobs.wrapping_add(1);
        self.total_execution_time_ms = self.total_execution_time_ms.wrapping_add(execution_time_ms);
        if execution_time_ms < self.min_execution_time_ms {
            self.min_execution_time_ms = execution_time_ms;
        }
        if execution_time_ms > self.max_execution_time_ms {
            self.max_execution_time_ms = execution_time_ms;
        }
    }

    pub fn record_job_failed(&mut self)
        ensures
            *final(self) == old(self).after_failure(),
    {
        self.failed_jobs = self.failed_jobs.wrapping_add(1);
    }

    pub fn record_job_cancelled(&mut self)
        ensures
            *final(self) == old(self).after_cancel(),
    {
        self.cancelled_jobs = self.cancelled_jobs.wrapping_add(1);
    }

    pub fn record_webhook_success(&mut self)
        ensures
            *final(self) == old(self).after_webhook_success(),
    {
        self.webhook_delivered = self.webhook_delivered.wrapping_add(1);
    }

    pub fn record_webhook_failure(&mut self)
        ensures
            *final(self) == old(self).after_webhook_failure(),
    {
        self.webhook_failed = self.webhook_failed.wrapping_add(1);
    }

    /// Whether the finished counts fit under the started count, so that the number of jobs
    /// still running can be derived.
    pub open spec fn running_is_defined(&self) -> bool {
        self.completed_jobs + self.failed_jobs + self.cancelled_jobs <= self.total_jobs
    }

    /// Tests `running_is_defined`.
    pub fn can_snapshot(&self) -> (b: bool)
        ensures
            b == self.running_is_defined(),
    {
        (self.completed_jobs as u128) + (self.failed_jobs as u128) + (self.cancelled_jobs as u128)
            <= self.total_jobs as u128
    }

    pub fn snapshot(&self) -> (s: MetricsSnapshot)
        requires
            self.running_is_defined(),
        ensures
            s == (MetricsSnapshot {
                total_jobs: self.total_jobs,
                completed_jobs: self.completed_jobs,
                failed_jobs: self.failed_jobs,
                running_jobs: (self.total_jobs - (self.completed_jobs + self.failed_jobs
                    + self.cancelled_jobs)) as u64,
                cancelled_jobs: self.cancelled_jobs,
                total_execution_time_ms: self.total_execution_time_ms,
                min_execution_time_ms: self.min_execution_time_ms,
                max_execution_time_ms: self.max_execution_time_ms,
                webhook_delivered: self.webhook_delivered,
                webhook_failed: self.webhook_failed,
            }),
    {
        MetricsSnapshot {
            total_jobs: self.total_jobs,
            completed_jobs: self.completed_jobs,
            failed_jobs: self.failed_jobs,
            running_jobs: self.total_jobs - (self.completed_jobs + self.failed_jobs
                + self.cancelled_jobs),
            cancelled_jobs: self.cancelled_jobs,
            total_execution_time_ms: self.total_execution_time_ms,
            min_execution_time_ms: self.min_execution_time_ms,
            max_execution_time_ms: self.max_execution_time_ms,
            webhook_delivered: self.webhook_delivered,
            webhook_failed: self.webhook_failed,
        }
    }
}

/// The execution-time figures that the metrics endpoint reports.
#[derive(Debug, Clone, Copy)]
pub struct ExecutionTimeReport {
    pub total_ms: u64,
    pub min_ms: u64,
    pub max_ms: u64,
    pub avg_ms: u64,
}

/// The execution-time part of the metrics report: the minimum reads 0 while no job has
/// lowered it from its initial `u64::MAX`, and the average is the total over the completed
/// jobs, or 0 when none completed.
pub fn execution_time_report(s: &MetricsSnapshot) -> (r: ExecutionTimeReport)
    ensures
        r.total_ms == s.total_execution_time_ms,
        r.min_ms == (if s.min_execution_time_ms == u64::MAX { 0 } else { s.min_execution_time_ms }),
        r.max_ms == s.max_execution_time_ms,
        r.avg_ms == (if s.completed_jobs > 0 {
            s.total_execution_time_ms / s.completed_jobs
        } else {
            0
        }),
{
    let avg_ms = if s.completed_jobs > 0 {
        s.total_execution_time_ms / s.completed_jobs
    } else {
        0
    };
    ExecutionTimeReport {
        total_ms: s.total_execution_time_ms,
        min_ms: if s.min_execution_time_ms == u64::MAX { 0 } else { s.min_execution_time_ms },
        max_ms: s.max_execution_time_ms,
        avg_ms,
    }
}

/// After a completion of `t` milliseconds, the recorded minimum is at most `t` and the
/// recorded maximum at least `t`.
pub proof fn completion_time_within_extremes(m: Metrics, t: u64)
    ensures
        m.after_completion(t).min_execution_time_ms <= t,
        m.after_completion(t).max_execution_time_ms >= t,
{
}

/// Recording a completion never raises the minimum nor lowers the maximum.
pub proof fn completion_extremes_monotone(m: Metrics, t: u64)
    ensures
        m.after_completion(t).min_execution_time_ms <= m.min_execution_time_ms,
        m.after_completion(t).max_execution_time_ms >= m.max_execution_time_ms,
{
}

proof fn wrap_add_swap(a: u64, b: u64, c: u64)
    ensures
        wrap_add(wrap_add(a, b), c) == wrap_add(wrap_add(a, c), b),
{
}

/// Two completions give the same counters in either order.
pub proof fn completions_commute(m: Metrics, t1: u64, t2: u64)
    ensures
        m.after_completion(t1).after_completion(t2) == m.after_completion(t2).after_completion(t1),
{
    wrap_add_swap(m.completed_jobs, 1, 1);
    wrap_add_swap(m.total_execution_time_ms, t1, t2);
}

/// One call that records something on the counters.
pub ghost enum Record {
    JobStarted,
    JobCompleted(u64),
    JobFailed,
    JobCancelled,
    WebhookSuccess,
    WebhookFailure,
}

/// The counters after one record call.
pub open spec fn apply_record(m: Metrics, r: Record) -> Metrics {
    match r {
        Record::JobStarted => m.after_start(),
        Record::JobCompleted(t) => m.after_completion(t),
        Record::JobFailed => m.after_failure(),
        Record::JobCancelled => m.after_cancel(),
        Record::WebhookSuccess => m.after_webhook_success(),
        Record::WebhookFailure => m.after_webhook_failure(),
    }
}

/// The counters after the record calls `rs`, in order, starting from `m`.
pub open spec fn after_records(m: Metrics, rs: Seq<Record>) -> Metrics
    decreases rs.len(),
{
    if rs.len() == 0 {
        m
    } else {
        apply_record(after_records(m, rs.drop_last()), rs.last())
    }
}

/// Each record call touches only its own counters: a start only the started count, a
/// failure only the failed count, a cancel only the cancelled count, a webhook outcome only
/// its own count, and a completion only the completed count and the execution times; the
/// counter it touches goes up by one (modulo 2^64).
pub proof fn record_touches_own_counter(m: Metrics, r: Record)
    ensures
        apply_record(m, r).total_jobs == if r == Record::JobStarted { wrap_add(m.total_jobs, 1) } else { m.total_jobs },
        apply_record(m, r).failed_jobs == if r == Record::JobFailed { wrap_add(m.failed_jobs, 1) } else { m.failed_jobs },
        apply_record(m, r).cancelled_jobs == if r == Record::JobCancelled { wrap_add(m.cancelled_jobs, 1) } else { m.cancelled_jobs },
        apply_record(m, r).webhook_delivered == if r == Record::WebhookSuccess { wrap_add(m.webhook_delivered, 1) } else { m.webhook_delivered },
        apply_record(m, r).webhook_failed == if r == Record::WebhookFailure { wrap_add(m.webhook_failed, 1) } else { m.webhook_failed },
        apply_record(m, r).completed_jobs == if r is JobCompleted { wrap_add(m.completed_jobs, 1) } else { m.completed_jobs },
        !(r is JobCompleted) ==> apply_record(m, r).total_execution_time_ms == m.total_execution_time_ms
            && apply_record(m, r).min_execution_time_ms == m.min_execution_time_ms
            && apply_record(m, r).max_execution_time_ms == m.max_execution_time_ms,
{
}

/// How many of the record calls `rs` are `kind`.
pub open spec fn record_count(rs: Seq<Record>, kind: Record) -> nat
    decreases rs.len(),
{
    if rs.len() == 0 {
        0
    } else {
        record_count(rs.drop_last(), kind) + if rs.last() == kind { 1nat } else { 0nat }
    }
}

/// From fresh counters, after any sequence of record calls, each count is the number of
/// calls of its kind (while that number fits in a `u64`): jobs started, failed and
/// cancelled, and webhook deliveries and failures.
pub proof fn counters_count_records(rs: Seq<Record>)
    requires
        record_count(rs, Record::JobStarted) <= u64::MAX,
        record_count(rs, Record::JobFailed) <= u64::MAX,
        record_count(rs, Record::JobCancelled) <= u64::MAX,
        record_count(rs, Record::WebhookSuccess) <= u64::MAX,
        record_count(rs, Record::WebhookFailure) <= u64::MAX,
    ensures
        after_records(Metrics::new_spec(), rs).total_jobs == record_count(rs, Record::JobStarted),
        after_records(Metrics::new_spec(), rs).failed_jobs == record_count(rs, Record::JobFailed),
        after_records(Metrics::new_spec(), rs).cancelled_jobs == record_count(rs, Record::JobCancelled),
        after_records(Metrics::new_spec(), rs).webhook_delivered == record_count(rs, Record::WebhookSuccess),
        after_records(Metrics::new_spec(), rs).webhook_failed == record_count(rs, Record::WebhookFailure),
    decreases rs.len(),
{
    if rs.len() > 0 {
        let rest = rs.drop_last();
        counters_count_records(rest);
        record_touches_own_counter(after_records(Metrics::new_spec(), rest), rs.last());
    }
}

/// The execution times of the completions among `rs`, in order.
pub open spec fn completion_times(rs: Seq<Record>) -> Seq<u64>
    decreases rs.len(),
{
    if rs.len() == 0 {
        Seq::empty()
    } else {
        let before = completion_times(rs.drop_last());
        match rs.last() {
            Record::JobCompleted(t) => before.push(t),
            _ => before,
        }
    }
}

/// The sum of some times.
pub open spec fn time_sum(ts: Seq<u64>) -> nat
    decreases ts.len(),
{
    if ts.len() == 0 {
        0
    } else {
        time_sum(ts.drop_last()) + ts.last() as nat
    }
}

/// The least of some times, `u64::MAX` for none.
pub open spec fn time_min(ts: Seq<u64>) -> u64
    decreases ts.len(),
{
    if ts.len() == 0 {
        u64::MAX
    } else {
        let m = time_min(ts.drop_last());
        if ts.last() < m { ts.last() } else { m }
    }
}

/// The greatest of some times, 0 for none.
pub open spec fn time_max(ts: Seq<u64>) -> u64
    decreases ts.len(),
{
    if ts.len() == 0 {
        0
    } else {
        let m = time_max(ts.drop_last());
        if ts.last() > m { ts.last() } else { m }
    }
}

proof fn time_sum_between(ts: Seq<u64>)
    ensures
        ts.len() * time_min(ts) <= time_sum(ts) || ts.len() == 0,
        time_sum(ts) <= ts.len() * time_max(ts),
    decreases ts.len(),
{
    if ts.len() > 0 {
        let rest = ts.drop_last();
        time_sum_between(rest);
        let (n, lo, hi, lo1, hi1) = (rest.len(), time_min(rest), time_max(rest), time_min(ts), time_max(ts));
        assert(lo1 <= lo && lo1 <= ts.last());
        assert(hi1 >= hi && hi1 >= ts.last());
        assert(n * lo1 <= n * lo) by (nonlinear_arith)
            requires lo1 <= lo;
        assert(n * hi <= n * hi1) by (nonlinear_arith)
            requires hi <= hi1;
        assert((n + 1) * lo1 == n * lo1 + lo1) by (nonlinear_arith);
        assert((n + 1) * hi1 == n * hi1 + hi1) by (nonlinear_arith);
        if n == 0 {
            assert(rest.len() == 0);
        }
    }
}

/// From fresh counters, after any sequence of record calls whose completion times add up
/// to at most `u64::MAX` (and are at most `u64::MAX` in number): the completed count is
/// the number of completions, the total time is their sum, and the minimum and maximum are
/// the least and greatest of them (`u64::MAX` and 0 when there were none).
pub proof fn counters_summarise_completions(rs: Seq<Record>)
    requires
        time_sum(completion_times(rs)) <= u64::MAX,
        completion_times(rs).len() <= u64::MAX,
    ensures
        after_records(Metrics::new_spec(), rs).completed_jobs == completion_times(rs).len(),
        after_records(Metrics::new_spec(), rs).total_execution_time_ms == time_sum(completion_times(rs)),
        after_records(Metrics::new_spec(), rs).min_execution_time_ms == time_min(completion_times(rs)),
        after_records(Metrics::new_spec(), rs).max_execution_time_ms == time_max(completion_times(rs)),
    decreases rs.len(),
{
    if rs.len() > 0 {
        let rest = rs.drop_last();
        let ts = completion_times(rs);
        let ts0 = completion_times(rest);
        match rs.last() {
            Record::JobCompleted(t) => {
                assert(ts.drop_last() == ts0);
            },
            _ => {},
        }
        assert(time_sum(ts0) <= time_sum(ts));
        counters_summarise_completions(rest);
    }
}

/// From fresh counters, once at least one job completed (with the same bounds), the average
/// execution time lies between the minimum and the maximum.
pub proof fn average_between_extremes(rs: Seq<Record>)
    requires
        time_sum(completion_times(rs)) <= u64::MAX,
        completion_times(rs).len() <= u64::MAX,
        completion_times(rs).len() >= 1,
    ensures
        ({
            let m = after_records(Metrics::new_spec(), rs);
            &&& m.min_execution_time_ms <= m.total_execution_time_ms / m.completed_jobs
            &&& m.total_execution_time_ms / m.completed_jobs <= m.max_execution_time_ms
        }),
{
    counters_summarise_completions(rs);
    let ts = completion_times(rs);
    time_sum_between(ts);
    let (n, s, lo, hi) = (ts.len() as int, time_sum(ts) as int, time_min(ts) as int, time_max(ts) as int);
    assert(lo <= s / n && s / n <= hi) by (nonlinear_arith)
        requires n >= 1, n * lo <= s, s <= n * hi, lo >= 0;
}

} // verus!
