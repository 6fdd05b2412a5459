//! The runtime service's handling of execution requests, on its job table and counters.
use vstd::prelude::*;
use vstd::utf8::encode_utf8;
use crate::executor::{
    configured_u64, container_failure_message, container_failure_text, done_message,
    error_message, parse_or_default_u64, JobFinish,
};
use crate::jobs::JobStore;
use crate::metrics::Metrics;
use crate::text::{decimal, option_i32_debug, is_blank, parse_unsigned, parse_unsigned_max, str_equal, trim, u64_to_decimal};
use crate::types::{ExecutionRequest, ExecutionResult, ResultView};

verus! {

/// The limits that requests are held to.
#[derive(Debug, Clone, Copy)]
pub struct ExecutionLimits {
    pub max_code_bytes: usize,
    pub max_timeout_ms: u64,
}

/// A configured size, or `default` when it is missing or does not parse as a `usize`.
pub open spec fn configured_usize(value: Option<String>, default: usize) -> usize {
    match value {
        Some(v) => match parse_unsigned(v@, usize::MAX as nat) {
            Some(n) => n as usize,
            None => default,
        },
        None => default,
    }
}

/// The limits from the values of `MAX_CODE_BYTES` (10 000 when unset or unreadable) and
/// `MAX_TIMEOUT_MS` (30 000).
pub fn execution_limits(max_code_bytes: Option<String>, max_timeout_ms: Option<String>) -> (l: ExecutionLimits)
    ensures
        l.max_code_bytes == configured_usize(max_code_bytes, 10_000),
        l.max_timeout_ms == configured_u64(max_timeout_ms, 30_000),
{
    let code = match &max_code_bytes {
        Some(v) => match parse_unsigned_max(v.as_str(), usize::MAX as u64) {
            Some(n) => n as usize,
            None => 10_000,
        },
        None => 10_000,
    };
    ExecutionLimits { max_code_bytes: code, max_timeout_ms: parse_or_default_u64(&max_timeout_ms, 30_000) }
}

/// The size of code in bytes, as UTF-8.
pub open spec fn code_bytes(code: Seq<char>) -> nat {
    encode_utf8(code).len()
}

/// The time limit a request asks for: 5 000 ms when it names none.
pub open spec fn requested_timeout(req: ExecutionRequest) -> u64 {
    match req.timeout_ms {
        Some(t) => t,
        None => 5_000,
    }
}

/// Why a request is refused, if it is: code that is empty or only whitespace, code over the
/// size limit, or a time limit of 0 or over the maximum.
pub open spec fn rejection(req: ExecutionRequest, limits: ExecutionLimits) -> Option<Seq<char>> {
    if trim(req.code@).len() == 0 {
        Some("empty code"@)
    } else if code_bytes(req.code@) > limits.max_code_bytes {
        Some("code too large"@)
    } else if requested_timeout(req) == 0 || requested_timeout(req) > limits.max_timeout_ms {
        Some("invalid timeout; must be 1.."@ + decimal(limits.max_timeout_ms as nat) + " ms"@)
    } else {
        None
    }
}

/// Checks a request: its time limit in milliseconds when it is accepted, else why not.
pub fn validate_request(req: &ExecutionRequest, limits: &ExecutionLimits) -> (r: Result<u64, String>)
    ensures
        r matches Ok(t) ==> rejection(*req, *limits) is None && t == requested_timeout(*req),
        r matches Err(m) ==> rejection(*req, *limits) == Some(m@),
{
    if is_blank(req.code.as_str()) {
        return Err(String::from_str("empty code"));
    }
    if req.code.as_str().as_bytes().len() > limits.max_code_bytes {
        return Err(String::from_str("code too large"));
    }
    let requested: u64 = match req.timeout_ms {
        Some(t) => t,
        None => 5_000,
    };
    if requested == 0 || requested > limits.max_timeout_ms {
        let mut m = String::from_str("invalid timeout; must be 1..");
        let max = u64_to_decimal(limits.max_timeout_ms);
        m.append(max.as_str());
        m.append(" ms");
        return Err(m);
    }
    Ok(requested)
}

/// Whether the service runs code in `language`.
pub open spec fn is_python(language: Seq<char>) -> bool {
    language == "python"@ || language == "py"@
}

pub fn language_is_python(language: &str) -> (b: bool)
    ensures
        b == is_python(language@),
{
    str_equal(language, "python") || str_equal(language, "py")
}

/// What a finished run gave: its output and exit code.
#[derive(Debug, Clone)]
pub struct RunOutput {
    pub stdout: String,
    pub stderr: String,
    pub exit_code: Option<i32>,
}

/// The next step of a synchronous request once it was counted and checked.
#[derive(Debug, Clone)]
pub enum SyncStart {
    /// Refused (answer 400 with this record).
    Rejected(ExecutionResult),
    /// Run the code with this time limit, then call `finish_sync`.
    Run { timeout_ms: u64 },
    /// Do not run; call `finish_sync` with this error.
    Fail(String),
}

/// A failed job record with no output.
pub open spec fn failed_record(id: Seq<char>, stderr: Seq<char>, created_at: Option<i64>) -> ResultView {
    ResultView { id, status: "failed"@, stdout: Seq::empty(), stderr, exit_code: None, created_at }
}

/// The record of a job cancelled by its user.
pub open spec fn cancelled_record(id: Seq<char>, created_at: Option<i64>) -> ResultView {
    ResultView {
        id,
        status: "cancelled"@,
        stdout: Seq::empty(),
        stderr: "cancelled by user"@,
        exit_code: None,
        created_at,
    }
}

/// The address at which the status of job `id` is read.
pub fn status_url(id: &str) -> (u: String)
    ensures
        u@ == "/status/"@ + id@,
{
    let mut u = String::from_str("/status/");
    u.append(id);
    u
}

/// A failed record with no output.
pub fn failed_result(id: &str, stderr: String, created_at: Option<i64>) -> (r: ExecutionResult)
    ensures
        r@ == failed_record(id@, stderr@, created_at),
        r.status@ == "failed"@,
        r.stdout@.len() == 0,
        r.stderr@ == stderr@,
        r.exit_code is None,
{
    ExecutionResult {
        id: String::from_str(id),
        status: String::from_str("failed"),
        stdout: String::new(),
        stderr,
        exit_code: None,
        created_at,
    }
}

/// The service's state: its jobs and its counters.
pub struct RuntimeState {
    pub jobs: JobStore,
    pub metrics: Metrics,
}

impl RuntimeState {
    pub fn new() -> (s: Self)
        ensures
            s.jobs.wf(),
            s.jobs.results().is_empty(),
            s.jobs.created().is_empty(),
            s.metrics == Metrics::new_spec(),
    {
        RuntimeState { jobs: JobStore::new(), metrics: Metrics::new() }
    }

    /// The start of a synchronous request with id `id` at time `now`: the job is counted as
    /// started; a refused request is recorded as failed with the reason; an accepted one runs
    /// when its language is Python, and fails as `unsupported language` otherwise.
    pub fn begin_sync(&mut self, id: &str, req: &ExecutionRequest, limits: &ExecutionLimits, now: i64) -> (r: SyncStart)
        requires
            old(self).jobs.wf(),
        ensures
            final(self).jobs.wf(),
            final(self).metrics == old(self).metrics.after_start(),
            match rejection(*req, *limits) {
                Some(m) => (r matches SyncStart::Rejected(res) && res@ == failed_record(id@, m, Some(now))
                        && res@.stdout.len() == 0 && res@.stderr == m)
                    && final(self).jobs.results() == old(self).jobs.results().insert(id@, Some(failed_record(id@, m, Some(now))))
                    && final(self).jobs.created() == old(self).jobs.created().insert(id@, now),
                None => final(self).jobs.results() == old(self).jobs.results()
                    && final(self).jobs.created() == old(self).jobs.created()
                    && if is_python(req.language@) {
                        (r matches SyncStart::Run { timeout_ms } && timeout_ms == requested_timeout(*req))
                    } else {
                        (r matches SyncStart::Fail(e) && e@ == "unsupported language"@)
                    },
            },
    {
        self.metrics.record_job_started();
        match validate_request(req, limits) {
            Err(m) => {
                let stored = failed_result(id, m.clone(), Some(now));
                self.jobs.put_result_at(stored, now);
                SyncStart::Rejected(failed_result(id, m, Some(now)))
            },
            Ok(timeout_ms) => {
                if language_is_python(req.language.as_str()) {
                    SyncStart::Run { timeout_ms }
                } else {
                    SyncStart::Fail(String::from_str("unsupported language"))
                }
            },
        }
    }

    /// The end of a synchronous request: a run that gave output is counted as completed
    /// (with its time) and recorded as `completed` with its output (answer 200); an error is
    /// counted as failed and recorded as `failed` with the error text (answer 500). The
    /// record is stored under `id` with `now` as its time.
    pub fn finish_sync(&mut self, id: &str, outcome: Result<RunOutput, String>, elapsed_ms: u64, now: i64) -> (r: (u16, ExecutionResult))
        requires
            old(self).jobs.wf(),
        ensures
            final(self).jobs.wf(),
            final(self).jobs.results() == old(self).jobs.results().insert(id@, Some(r.1@)),
            final(self).jobs.created() == old(self).jobs.created().insert(id@, now),
            match outcome {
                Ok(out) => r.0 == 200 && r.1@ == (ResultView {
                    id: id@,
                    status: "completed"@,
                    stdout: out.stdout@,
                    stderr: out.stderr@,
                    exit_code: out.exit_code,
                    created_at: Some(now),
                }) && final(self).metrics == old(self).metrics.after_completion(elapsed_ms),
                Err(e) => r.0 == 500 && r.1@ == failed_record(id@, e@, Some(now))
                    && r.1@.stdout.len() == 0 && r.1@.stderr == e@
                    && final(self).metrics == old(self).metrics.after_failure(),
            },
    {
        match outcome {
            Ok(out) => {
                self.metrics.record_job_completed(elapsed_ms);
                let stdout = out.stdout;
                let stderr = out.stderr;
                let stored = ExecutionResult {
                    id: String::from_str(id),
                    status: String::from_str("completed"),
                    stdout: stdout.clone(),
                    stderr: stderr.clone(),
                    exit_code: out.exit_code,
                    created_at: Some(now),
                };
                self.jobs.put_result_at(stored, now);
                let body = ExecutionResult {
                    id: String::from_str(id),
                    status: String::from_str("completed"),
                    stdout,
                    stderr,
                    exit_code: out.exit_code,
                    created_at: Some(now),
                };
                (200, body)
            },
            Err(e) => {
                self.metrics.record_job_failed();
                self.jobs.put_result_at(failed_result(id, e.clone(), Some(now)), now);
                (500, failed_result(id, e, Some(now)))
            },
        }
    }

    /// The start of an asynchronous request with id `id` at time `now`: a refused request
    /// leaves everything unchanged and gives the reason; an accepted one is marked running
    /// since `now` and gives its time limit.
    pub fn begin_async(&mut self, id: &str, req: &ExecutionRequest, limits: &ExecutionLimits, now: i64) -> (r: Result<u64, String>)
        requires
            old(self).jobs.wf(),
        ensures
            final(self).jobs.wf(),
            final(self).metrics == old(self).metrics,
            match rejection(*req, *limits) {
                Some(m) => (r matches Err(e) && e@ == m)
                    && final(self).jobs.results() == old(self).jobs.results()
                    && final(self).jobs.created() == old(self).jobs.created(),
                None => r == Ok::<u64, String>(requested_timeout(*req))
                    && final(self).jobs.results() == old(self).jobs.results().insert(id@, None)
                    && final(self).jobs.created() == old(self).jobs.created().insert(id@, now),
            },
    {
        match validate_request(req, limits) {
            Err(m) => Err(m),
            Ok(t) => {
                self.jobs.mark_running(id, now);
                Ok(t)
            },
        }
    }

    /// A scheduled job whose language is not run: it is recorded as failed with
    /// `unsupported language` at time `now`.
    pub fn reject_language(&mut self, id: &str, now: i64)
        requires
            old(self).jobs.wf(),
        ensures
            final(self).jobs.wf(),
            final(self).metrics == old(self).metrics,
            final(self).jobs.results() == old(self).jobs.results().insert(id@, Some(failed_record(id@, "unsupported language"@, Some(now)))),
            final(self).jobs.created() == old(self).jobs.created().insert(id@, now),
    {
        self.jobs.put_result_at(failed_result(id, String::from_str("unsupported language"), Some(now)), now);
    }

    /// A streamed job whose process could not be started: it is recorded as failed with the
    /// container error, at time `now` but without a recorded time; the returned message goes
    /// to its listeners.
    pub fn stream_spawn_failed(&mut self, id: &str, cause: &str, now: i64) -> (message: String)
        requires
            old(self).jobs.wf(),
        ensures
            final(self).jobs.wf(),
            final(self).metrics == old(self).metrics,
            final(self).jobs.results() == old(self).jobs.results().insert(id@, Some(failed_record(id@, container_failure_message(cause@), Some(now)))),
            final(self).jobs.created() == old(self).jobs.created(),
            message@ == "ERR: "@ + container_failure_message(cause@),
    {
        let err = container_failure_text(cause);
        let message = error_message(err.as_str());
        self.jobs.put_result(failed_result(id, err, Some(now)));
        message
    }

    /// The end of a streamed job: its record is stored with `now` as its time, and the
    /// returned message tells its listeners the exit code.
    pub fn finalize_job(&mut self, id: &str, finish: JobFinish, now: i64) -> (message: String)
        requires
            old(self).jobs.wf(),
        ensures
            final(self).jobs.wf(),
            final(self).metrics == old(self).metrics,
            final(self).jobs.results() == old(self).jobs.results().insert(id@, Some(ResultView {
                id: id@,
                status: finish.status@,
                stdout: finish.stdout@,
                stderr: finish.stderr@,
                exit_code: finish.exit_code,
                created_at: Some(now),
            })),
            final(self).jobs.created() == old(self).jobs.created().insert(id@, now),
            message@ == "DONE: exit="@ + option_i32_debug(finish.exit_code),
    {
        let message = done_message(finish.exit_code);
        let stored = ExecutionResult {
            id: String::from_str(id),
            status: finish.status,
            stdout: finish.stdout,
            stderr: finish.stderr,
            exit_code: finish.exit_code,
            created_at: Some(now),
        };
        self.jobs.put_result_at(stored, now);
        message
    }

    /// A cancel request for `id`, where `was_running` tells whether a process slot was
    /// registered for it: the job is then counted as cancelled and recorded as `cancelled`
    /// with its recorded time; otherwise nothing changes. Gives whether it was cancelled.
    pub fn cancel(&mut self, id: &str, was_running: bool) -> (cancelled: bool)
        requires
            old(self).jobs.wf(),
        ensures
            final(self).jobs.wf(),
            cancelled == was_running,
            final(self).jobs.created() == old(self).jobs.created(),
            was_running ==> final(self).metrics == old(self).metrics.after_cancel()
                && final(self).jobs.results() == old(self).jobs.results().insert(id@, Some(cancelled_record(id@, old(self).jobs.created_of(id@)))),
            !was_running ==> final(self).metrics == old(self).metrics
                && final(self).jobs.results() == old(self).jobs.results(),
    {
        if was_running {
            self.metrics.record_job_cancelled();
            let created_at = self.jobs.created_at(id);
            self.jobs.put_result(ExecutionResult {
                id: String::from_str(id),
                status: String::from_str("cancelled"),
                stdout: String::new(),
                stderr: String::from_str("cancelled by user"),
                exit_code: None,
                created_at,
            });
            true
        } else {
            false
        }
    }
}

/// A job that failed without running carries no output: its record is `failed`, its
/// stdout is empty and has no exit code, and the reason stands only in its stderr.
pub proof fn failed_records_carry_no_output(id: Seq<char>, reason: Seq<char>, created_at: Option<i64>)
    ensures
        failed_record(id, reason, created_at).status == "failed"@,
        failed_record(id, reason, created_at).stdout == Seq::<char>::empty(),
        failed_record(id, reason, created_at).stderr == reason,
        failed_record(id, reason, created_at).exit_code is None,
        failed_record(id, reason, created_at).id == id,
        failed_record(id, reason, created_at).created_at == created_at,
{
}

/// A refused request reads back as a failed job with no output and no exit code, whose
/// error is the reason it was refused.
pub proof fn refused_request_reads_back(before: RuntimeState, after: RuntimeState, id: Seq<char>, reason: Seq<char>, now: i64, reply: crate::jobs::JobStatus)
    requires
        after.jobs.results() == before.jobs.results().insert(id, Some(failed_record(id, reason, Some(now)))),
        after.jobs.status_is(id, reply),
    ensures
        reply matches crate::jobs::JobStatus::Finished(res) && res@.status == "failed"@ && res@.stderr == reason
            && res@.stdout.len() == 0 && res@.exit_code is None && res@.created_at == Some(now),
{
    crate::jobs::status_reads_back_record(before.jobs, after.jobs, failed_record(id, reason, Some(now)), reply);
}

/// After a cancel of a running job, its status reads back as cancelled by its user, with
/// the time recorded for it before.
pub proof fn cancelled_job_reads_cancelled(before: RuntimeState, after: RuntimeState, id: Seq<char>, reply: crate::jobs::JobStatus)
    requires
        after.jobs.results() == before.jobs.results().insert(id, Some(cancelled_record(id, before.jobs.created_of(id)))),
        after.jobs.status_is(id, reply),
    ensures
        reply matches crate::jobs::JobStatus::Finished(res) && res@.status == "cancelled"@
            && res@.stderr == "cancelled by user"@ && res@.created_at == before.jobs.created_of(id),
{
    crate::jobs::status_reads_back_record(before.jobs, after.jobs, cancelled_record(id, before.jobs.created_of(id)), reply);
}

} // verus!
