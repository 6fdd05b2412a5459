//! The sandbox runner's decisions: the container command line, the outcome of a run, and
//! the log lines streamed while it runs.
use vstd::prelude::*;
use crate::service::RunOutput;
use crate::text::{
    chars_of, decimal, option_i32_debug, option_i32_to_debug, parse_unsigned,
    parse_unsigned_max, push_char, str_equal, trim_end_char, trim_end_matches_char,
    u64_to_decimal,
};

verus! {

/// The limits and image of the sandbox container.
#[derive(Debug, Clone)]
pub struct SandboxConfig {
    pub image: String,
    pub memory_mb: u64,
    pub cpus: String,
    pub pids_limit: u64,
}

/// A configured number, or `default` when it is missing or does not parse as a `u64`.
pub open spec fn configured_u64(value: Option<String>, default: u64) -> u64 {
    match value {
        Some(v) => match parse_unsigned(v@, u64::MAX as nat) {
            Some(n) => n as u64,
            None => default,
        },
        None => default,
    }
}

/// A configured text, or `default` when it is missing.
pub open spec fn configured_text(value: Option<String>, default: Seq<char>) -> Seq<char> {
    match value {
        Some(v) => v@,
        None => default,
    }
}

/// Reads a configured number as `str::parse::<u64>`, falling back to `default`.
pub fn parse_or_default_u64(value: &Option<String>, default: u64) -> (n: u64)
    ensures
        n == configured_u64(*value, default),
{
    match value {
        Some(v) => match parse_unsigned_max(v.as_str(), u64::MAX) {
            Some(n) => n,
            None => default,
        },
        None => default,
    }
}

fn text_or_default(value: Option<String>, default: &str) -> (s: String)
    ensures
        s@ == configured_text(value, default@),
{
    match value {
        Some(v) => v,
        None => String::from_str(default),
    }
}

/// The sandbox settings from the values of `EXECUTOR_IMAGE`, `EXECUTOR_MEMORY_MB`,
/// `EXECUTOR_CPUS` and `EXECUTOR_PIDS_LIMIT` (each `None` when unset).
pub fn sandbox_config(
    image: Option<String>,
    memory_mb: Option<String>,
    cpus: Option<String>,
    pids_limit: Option<String>,
) -> (c: SandboxConfig)
    ensures
        c.image@ == configured_text(image, "python:3.12-slim"@),
        c.memory_mb == configured_u64(memory_mb, 256),
        c.cpus@ == configured_text(cpus, "1.0"@),
        c.pids_limit == configured_u64(pids_limit, 64),
{
    let memory = parse_or_default_u64(&memory_mb, 256);
    let pids = parse_or_default_u64(&pids_limit, 64);
    SandboxConfig {
        image: text_or_default(image, "python:3.12-slim"),
        memory_mb: memory,
        cpus: text_or_default(cpus, "1.0"),
        pids_limit: pids,
    }
}

/// The arguments of `docker` that run the script at `script_path` under `config`: no
/// network, no capabilities, no new privileges, the pid, memory and cpu limits, a read-only
/// root with a small non-executable scratch mount, and the script mounted read-only.
pub open spec fn docker_args_spec(script_path: Seq<char>, config: SandboxConfig) -> Seq<Seq<char>> {
    seq![
        "run"@,
        "--rm"@,
        "--network"@,
        "none"@,
        "--cap-drop"@,
        "ALL"@,
        "--security-opt"@,
        "no-new-privileges"@,
        "--pids-limit"@,
        decimal(config.pids_limit as nat),
        "--memory"@,
        decimal(config.memory_mb as nat) + "m"@,
        "--cpus"@,
        config.cpus@,
        "--read-only"@,
        "--tmpfs"@,
        "/sandbox:rw,noexec,nosuid,size=64m"@,
        "-v"@,
        script_path + ":/sandbox/main.py:ro"@,
        config.image@,
        "python"@,
        "-u"@,
        "/sandbox/main.py"@,
    ]
}

fn push_str(v: &mut Vec<String>, s: &str)
    ensures
        final(v)@.map_values(|x: String| x@) == old(v)@.map_values(|x: String| x@).push(s@),
{
    let ghost before = v@;
    v.push(String::from_str(s));
    assert(v@.map_values(|x: String| x@) =~= before.map_values(|x: String| x@).push(s@));
}

fn push_string(v: &mut Vec<String>, s: String)
    ensures
        final(v)@.map_values(|x: String| x@) == old(v)@.map_values(|x: String| x@).push(s@),
{
    let ghost before = v@;
    let ghost sv = s@;
    v.push(s);
    assert(v@.map_values(|x: String| x@) =~= before.map_values(|x: String| x@).push(sv));
}

pub fn docker_command_args(script_path: &str, config: &SandboxConfig) -> (args: Vec<String>)
    ensures
        args@.map_values(|x: String| x@) == docker_args_spec(script_path@, *config),
{
    let mut args: Vec<String> = Vec::new();
    push_str(&mut args, "run");
    push_str(&mut args, "--rm");
    push_str(&mut args, "--network");
    push_str(&mut args, "none");
    push_str(&mut args, "--cap-drop");
    push_str(&mut args, "ALL");
    push_str(&mut args, "--security-opt");
    push_str(&mut args, "no-new-privileges");
    push_str(&mut args, "--pids-limit");
    push_string(&mut args, u64_to_decimal(config.pids_limit));
    push_str(&mut args, "--memory");
    let mut memory = u64_to_decimal(config.memory_mb);
    memory.append("m");
    push_string(&mut args, memory);
    push_str(&mut args, "--cpus");
    push_str(&mut args, config.cpus.as_str());
    push_str(&mut args, "--read-only");
    push_str(&mut args, "--tmpfs");
    push_str(&mut args, "/sandbox:rw,noexec,nosuid,size=64m");
    push_str(&mut args, "-v");
    let mut mount = String::from_str(script_path);
    mount.append(":/sandbox/main.py:ro");
    push_string(&mut args, mount);
    push_str(&mut args, config.image.as_str());
    push_str(&mut args, "python");
    push_str(&mut args, "-u");
    push_str(&mut args, "/sandbox/main.py");
    assert(args@.map_values(|x: String| x@) =~= docker_args_spec(script_path@, *config));
    args
}

/// The file that holds a job's script: `runtime-<unique>.py` in the directory `dir`
/// (`EXECUTOR_TMP_DIR`, `/tmp` when unset), whose trailing slashes are dropped.
pub open spec fn tempfile_path_spec(dir: Option<String>, unique: Seq<char>) -> Seq<char> {
    trim_end_char(configured_text(dir, "/tmp"@), '/') + "/runtime-"@ + unique + ".py"@
}

pub fn tempfile_path(dir: Option<String>, unique: &str) -> (p: String)
    ensures
        p@ == tempfile_path_spec(dir, unique@),
{
    let d = text_or_default(dir, "/tmp");
    let mut p = trim_end_matches_char(d.as_str(), '/');
    p.append("/runtime-");
    p.append(unique);
    p.append(".py");
    p
}

/// Whether `s` holds `p` somewhere.
pub open spec fn has_infix(s: Seq<char>, p: Seq<char>) -> bool {
    exists|i: int| 0 <= i && i + p.len() <= s.len() && #[trigger] s.subrange(i, i + p.len()) == p
}

/// `s.contains(p)`.
pub fn contains(s: &str, p: &str) -> (b: bool)
    ensures
        b == has_infix(s@, p@),
{
    let sv = chars_of(s);
    let pv = chars_of(p);
    if pv.len() > sv.len() {
        return false;
    }
    let mut i: usize = 0;
    while sv.len() - i >= pv.len()
        invariant
            sv@ == s@,
            pv@ == p@,
            pv@.len() <= sv@.len(),
            i <= sv@.len(),
            i <= sv@.len() - pv@.len() + 1,
            forall|k: int| 0 <= k < i ==> #[trigger] sv@.subrange(k, k + pv@.len()) != pv@,
        decreases sv@.len() - i,
    {
        let mut j: usize = 0;
        let mut same = true;
        while j < pv.len()
            invariant
                sv@ == s@,
                pv@ == p@,
                i + pv@.len() <= sv@.len(),
                sv@.len() <= usize::MAX,
                j <= pv@.len(),
                same == (forall|t: int| 0 <= t < j ==> sv@[i + t] == pv@[t]),
            decreases pv@.len() - j,
        {
            if sv[i + j] != pv[j] {
                same = false;
            }
            j = j + 1;
        }
        if same {
            assert(sv@.subrange(i as int, i + pv@.len()) =~= pv@);
            return true;
        }
        proof {
            let t = choose|t: int| 0 <= t < pv@.len() && sv@[i + t] != pv@[t];
            assert(sv@.subrange(i as int, i + pv@.len())[t] != pv@[t]);
        }
        i = i + 1;
    }
    assert forall|k: int| 0 <= k && k + p@.len() <= s@.len() implies #[trigger] s@.subrange(k, k + p@.len()) != p@ by {
        assert(k < i);
    }
    false
}

/// What a command that was started under a time limit gave, when it gave no output.
#[derive(Debug, Clone)]
pub enum CommandFailure {
    /// The program could not be started; the text is the system's error.
    StartFailed(String),
    /// The time limit passed first.
    TimedOut,
}

/// The error text of a failed command.
pub open spec fn command_failure_message(f: CommandFailure) -> Seq<char> {
    match f {
        CommandFailure::StartFailed(e) => "failed to start execution: "@ + e@,
        CommandFailure::TimedOut => "execution timed out"@,
    }
}

pub fn command_failure_text(f: &CommandFailure) -> (m: String)
    ensures
        m@ == command_failure_message(*f),
{
    match f {
        CommandFailure::StartFailed(e) => {
            let mut m = String::from_str("failed to start execution: ");
            m.append(e.as_str());
            m
        },
        CommandFailure::TimedOut => String::from_str("execution timed out"),
    }
}

/// The error of the container runner, wrapping the command's error.
pub open spec fn container_failure_message(cause: Seq<char>) -> Seq<char> {
    "failed to start sandbox container: "@ + cause
}

pub fn container_failure_text(cause: &str) -> (m: String)
    ensures
        m@ == container_failure_message(cause@),
{
    let mut m = String::from_str("failed to start sandbox container: ");
    m.append(cause);
    m
}

/// Whether the local interpreter is tried after the container failed: only when
/// `EXECUTOR_LOCAL_FALLBACK` is `1`.
pub fn local_fallback_enabled(flag: &Option<String>) -> (b: bool)
    ensures
        b == (match flag {
            Some(v) => v@ == "1"@,
            None => false,
        }),
{
    match flag {
        Some(v) => str_equal(v.as_str(), "1"),
        None => false,
    }
}

/// The error when both the container and the local interpreter failed.
pub fn fallback_failure_text(container_err: &str, local_err: &str) -> (m: String)
    ensures
        m@ == "container runner failed: "@ + container_err@ + "; local fallback failed: "@
            + local_err@,
{
    let mut m = String::from_str("container runner failed: ");
    m.append(container_err);
    m.append("; local fallback failed: ");
    m.append(local_err);
    m
}

/// After an interpreter failed with `err`, whether to stop rather than try the next one:
/// a run that timed out is not repeated.
pub fn stop_after_local_failure(err: &str) -> (b: bool)
    ensures
        b == has_infix(err@, "timed out"@),
{
    contains(err, "timed out")
}

/// The interpreter tried at step `index` when running without a container: `python3`,
/// then `python`.
pub open spec fn local_program(index: nat) -> Seq<char> {
    if index == 0 {
        "python3"@
    } else {
        "python"@
    }
}

pub fn local_program_name(index: usize) -> (p: String)
    requires
        index < 2,
    ensures
        p@ == local_program(index as nat),
{
    if index == 0 {
        String::from_str("python3")
    } else {
        String::from_str("python")
    }
}

/// What the local runner does once the interpreter of step `index` ran.
#[derive(Debug)]
pub enum LocalStep {
    /// Stop with this outcome.
    Finish(Result<RunOutput, String>),
    /// Try the interpreter of this step next.
    Try(usize),
}

/// The local runner's decision as values.
pub ghost enum LocalVerdict {
    Output(RunOutput),
    Failure(Seq<char>),
    Next,
}

/// After the interpreter of step `index` gave `outcome`: output ends the run; a failure
/// that timed out ends it with that failure; another failure moves on to `python`, or, after
/// `python`, ends the run as `no python interpreter found`.
pub open spec fn local_verdict(index: nat, outcome: Result<RunOutput, String>) -> LocalVerdict {
    match outcome {
        Ok(o) => LocalVerdict::Output(o),
        Err(e) => if has_infix(e@, "timed out"@) {
            LocalVerdict::Failure(e@)
        } else if index == 0 {
            LocalVerdict::Next
        } else {
            LocalVerdict::Failure("no python interpreter found"@)
        },
    }
}

/// The step as values.
pub open spec fn local_step_view(s: LocalStep) -> LocalVerdict {
    match s {
        LocalStep::Finish(Ok(o)) => LocalVerdict::Output(o),
        LocalStep::Finish(Err(e)) => LocalVerdict::Failure(e@),
        LocalStep::Try(_) => LocalVerdict::Next,
    }
}

pub fn local_next(index: usize, outcome: Result<RunOutput, String>) -> (s: LocalStep)
    requires
        index < 2,
    ensures
        local_step_view(s) == local_verdict(index as nat, outcome),
        s matches LocalStep::Try(next) ==> next == index + 1,
{
    match outcome {
        Ok(o) => LocalStep::Finish(Ok(o)),
        Err(e) => {
            if stop_after_local_failure(e.as_str()) {
                LocalStep::Finish(Err(e))
            } else if index == 0 {
                LocalStep::Try(1)
            } else {
                LocalStep::Finish(Err(String::from_str("no python interpreter found")))
            }
        },
    }
}

/// The outcome of the whole local run from the outcomes of `python3` and (when reached)
/// `python`.
pub open spec fn local_run(first: Result<RunOutput, String>, second: Result<RunOutput, String>) -> LocalVerdict {
    match local_verdict(0, first) {
        LocalVerdict::Next => local_verdict(1, second),
        v => v,
    }
}

/// `python3` is tried first and its output ends the run; a timeout ends it with that
/// failure; any other failure hands over to `python`, whose output or timeout ends the run,
/// and whose other failures end it as `no python interpreter found`.
pub proof fn local_runner_order(first: Result<RunOutput, String>, second: Result<RunOutput, String>)
    ensures
        first matches Ok(o) ==> local_run(first, second) == LocalVerdict::Output(o),
        first matches Err(e) ==> (has_infix(e@, "timed out"@) ==> local_run(first, second) == LocalVerdict::Failure(e@)),
        first matches Err(e) ==> (!has_infix(e@, "timed out"@) ==> local_run(first, second) == match second {
            Ok(o) => LocalVerdict::Output(o),
            Err(e2) => if has_infix(e2@, "timed out"@) {
                LocalVerdict::Failure(e2@)
            } else {
                LocalVerdict::Failure("no python interpreter found"@)
            },
        }),
        !(local_run(first, second) is Next),
{
}

/// What the runner does once the container gave its outcome.
#[derive(Debug)]
pub enum RunnerStep {
    /// Stop with this outcome.
    Finish(Result<RunOutput, String>),
    /// Run locally; the text is the container's error.
    FallBack(String),
}

/// The container's output is the result; its error is the result too, unless the local
/// fallback is enabled, in which case the code runs locally.
pub fn after_container(outcome: Result<RunOutput, String>, fallback_enabled: bool) -> (s: RunnerStep)
    ensures
        outcome matches Ok(o) ==> s == RunnerStep::Finish(Ok(o)),
        outcome matches Err(e) ==> (!fallback_enabled ==> s == RunnerStep::Finish(Err(e))),
        outcome matches Err(e) ==> (fallback_enabled ==> s == RunnerStep::FallBack(e)),
{
    match outcome {
        Ok(o) => RunnerStep::Finish(Ok(o)),
        Err(e) => if fallback_enabled {
            RunnerStep::FallBack(e)
        } else {
            RunnerStep::Finish(Err(e))
        },
    }
}

/// The result after a fallback: the local output, or an error that names both failures.
pub fn after_fallback(container_err: &str, local: Result<RunOutput, String>) -> (r: Result<RunOutput, String>)
    ensures
        local matches Ok(o) ==> r == Ok::<RunOutput, String>(o),
        local matches Err(le) ==> (r matches Err(m) && m@ == "container runner failed: "@ + container_err@
            + "; local fallback failed: "@ + le@),
{
    match local {
        Ok(o) => Ok(o),
        Err(le) => Err(fallback_failure_text(container_err, le.as_str())),
    }
}

/// How the wait for a streamed job's process ended.
#[derive(Debug, Clone)]
pub enum WaitOutcome {
    /// The process exited; `success` when its status was success.
    Exited { success: bool, code: Option<i32> },
    /// Waiting failed; the text is the system's error.
    WaitFailed(String),
    /// The time limit passed; the process was killed.
    TimedOut,
    /// The process had already been taken away (cancelled).
    NoChild,
}

/// The status, output and exit code recorded for a streamed job.
#[derive(Debug, Clone)]
pub struct JobFinish {
    pub status: String,
    pub stdout: String,
    pub stderr: String,
    pub exit_code: Option<i32>,
}

/// A process that exited is `completed` with its output when its status was success,
/// `failed` otherwise; any other ending is `failed` with no output and an error text.
pub open spec fn finish_spec(outcome: WaitOutcome, stdout: Seq<char>, stderr: Seq<char>) -> (Seq<char>, Seq<char>, Seq<char>, Option<i32>) {
    match outcome {
        WaitOutcome::Exited { success, code } => (
            if success { "completed"@ } else { "failed"@ },
            stdout,
            stderr,
            code,
        ),
        WaitOutcome::WaitFailed(e) => ("failed"@, Seq::empty(), "error: "@ + e@, None),
        WaitOutcome::TimedOut => ("failed"@, Seq::empty(), "execution timed out"@, None),
        WaitOutcome::NoChild => ("failed"@, Seq::empty(), "no child process"@, None),
    }
}

pub fn finish_from_outcome(outcome: WaitOutcome, stdout: String, stderr: String) -> (f: JobFinish)
    ensures
        (f.status@, f.stdout@, f.stderr@, f.exit_code) == finish_spec(outcome, stdout@, stderr@),
        (outcome matches WaitOutcome::Exited { success: true, .. }) ==> f.status@ == "completed"@,
        !(outcome matches WaitOutcome::Exited { success: true, .. }) ==> f.status@ == "failed"@,
        !(outcome is Exited) ==> f.stdout@.len() == 0 && f.exit_code is None,
{
    match outcome {
        WaitOutcome::Exited { success, code } => JobFinish {
            status: if success {
                String::from_str("completed")
            } else {
                String::from_str("failed")
            },
            stdout,
            stderr,
            exit_code: code,
        },
        WaitOutcome::WaitFailed(e) => {
            let mut err = String::from_str("error: ");
            err.append(e.as_str());
            JobFinish { status: String::from_str("failed"), stdout: String::new(), stderr: err, exit_code: None }
        },
        WaitOutcome::TimedOut => JobFinish {
            status: String::from_str("failed"),
            stdout: String::new(),
            stderr: String::from_str("execution timed out"),
            exit_code: None,
        },
        WaitOutcome::NoChild => JobFinish {
            status: String::from_str("failed"),
            stdout: String::new(),
            stderr: String::from_str("no child process"),
            exit_code: None,
        },
    }
}

/// Only a process that exited with a success status is recorded as `completed`; every
/// other ending (a failed exit status, a timeout, a failed wait, no process left) is
/// recorded as `failed`, and an ending without an exit keeps no output and no exit code.
pub proof fn only_successful_exit_completes(outcome: WaitOutcome, stdout: Seq<char>, stderr: Seq<char>)
    ensures
        finish_spec(outcome, stdout, stderr).0 == "completed"@ <==> (outcome matches WaitOutcome::Exited { success: true, .. }),
        !(outcome matches WaitOutcome::Exited { success: true, .. }) ==> finish_spec(outcome, stdout, stderr).0 == "failed"@,
        !(outcome is Exited) ==> finish_spec(outcome, stdout, stderr).1.len() == 0
            && finish_spec(outcome, stdout, stderr).3 is None,
{
    reveal_strlit("completed");
    reveal_strlit("failed");
    assert("completed"@[0] != "failed"@[0]);
}

/// The collected output and the message after one line: the line and a newline join the
/// output, and the message is `prefix line`.
pub open spec fn pump_step(buffer: Seq<char>, prefix: Seq<char>, line: Seq<char>) -> (Seq<char>, Seq<char>) {
    (buffer + line + seq!['\n'], prefix + seq![' '] + line)
}

/// The collected output and the messages sent, in order, after the lines `lines` were
/// read one by one, starting from the output `buffer`.
pub open spec fn pump_sequence(buffer: Seq<char>, prefix: Seq<char>, lines: Seq<Seq<char>>) -> (Seq<char>, Seq<Seq<char>>)
    decreases lines.len(),
{
    if lines.len() == 0 {
        (buffer, Seq::empty())
    } else {
        let (b, msgs) = pump_sequence(buffer, prefix, lines.drop_last());
        let (b2, m) = pump_step(b, prefix, lines.last());
        (b2, msgs.push(m))
    }
}

/// The lines, each followed by a newline, one after another.
pub open spec fn newline_terminated(lines: Seq<Seq<char>>) -> Seq<char>
    decreases lines.len(),
{
    if lines.len() == 0 {
        Seq::empty()
    } else {
        newline_terminated(lines.drop_last()) + lines.last() + seq!['\n']
    }
}

/// After reading the lines `l_1 .. l_n` from a stream, the collected output is what it was
/// followed by `l_1\n .. l_n\n`, and the messages sent are `prefix l_1 .. prefix l_n` in
/// that order.
pub proof fn pumped_stream(buffer: Seq<char>, prefix: Seq<char>, lines: Seq<Seq<char>>)
    ensures
        pump_sequence(buffer, prefix, lines).0 == buffer + newline_terminated(lines),
        pump_sequence(buffer, prefix, lines).1 == lines.map_values(|l: Seq<char>| prefix + seq![' '] + l),
    decreases lines.len(),
{
    if lines.len() > 0 {
        pumped_stream(buffer, prefix, lines.drop_last());
        let f = |l: Seq<char>| prefix + seq![' '] + l;
        assert(lines.map_values(f) =~= lines.drop_last().map_values(f).push(f(lines.last())));
        assert(buffer + newline_terminated(lines) =~= buffer + newline_terminated(lines.drop_last()) + lines.last() + seq!['\n']);
    }
}

/// The output collected from one stream of a running job, with the prefix of the messages
/// it sends for each line.
pub struct StreamOutput {
    prefix: String,
    collected: String,
    read: Ghost<Seq<Seq<char>>>,
}

impl StreamOutput {
    /// The prefix of the messages.
    pub closed spec fn prefix_text(&self) -> Seq<char> {
        self.prefix@
    }

    /// The lines read so far, in order.
    pub closed spec fn lines_read(&self) -> Seq<Seq<char>> {
        self.read@
    }

    /// The output collected so far.
    pub closed spec fn collected_text(&self) -> Seq<char> {
        self.collected@
    }

    /// The collected output is what reading the lines one by one gives from nothing.
    pub open spec fn wf(&self) -> bool {
        self.collected_text() == pump_sequence(Seq::empty(), self.prefix_text(), self.lines_read()).0
    }

    /// A stream with nothing read yet.
    pub fn new(prefix: &str) -> (s: Self)
        ensures
            s.wf(),
            s.prefix_text() == prefix@,
            s.lines_read().len() == 0,
            s.collected_text().len() == 0,
    {
        StreamOutput { prefix: String::from_str(prefix), collected: String::new(), read: Ghost(Seq::empty()) }
    }

    /// Reads one more line: it joins the collected output, and the returned message, the
    /// last of `pump_sequence` over the lines read, goes to the job's listeners.
    pub fn push_line(&mut self, line: &str) -> (message: String)
        requires
            old(self).wf(),
        ensures
            final(self).wf(),
            final(self).prefix_text() == old(self).prefix_text(),
            final(self).lines_read() == old(self).lines_read().push(line@),
            message@ == pump_sequence(Seq::empty(), final(self).prefix_text(), final(self).lines_read()).1.last(),
    {
        let ghost before = self.read@;
        let message = pump_line(&mut self.collected, self.prefix.as_str(), line);
        self.read = Ghost(before.push(line@));
        proof {
            assert(self.read@.drop_last() == before);
        }
        message
    }

    /// The output collected so far: each line read followed by a newline.
    pub fn collected(&self) -> (out: String)
        requires
            self.wf(),
        ensures
            out@ == pump_sequence(Seq::empty(), self.prefix_text(), self.lines_read()).0,
            out@ == newline_terminated(self.lines_read()),
    {
        proof {
            pumped_stream(Seq::empty(), self.prefix_text(), self.lines_read());
            assert(Seq::<char>::empty() + newline_terminated(self.lines_read()) == newline_terminated(self.lines_read()));
        }
        self.collected.clone()
    }
}

/// A streamed job whose process exited records as output exactly the lines read from each
/// stream, each followed by a newline, with `completed` or `failed` by its exit status and
/// its exit code.
pub proof fn streamed_job_output(out_lines: Seq<Seq<char>>, err_lines: Seq<Seq<char>>, success: bool, code: Option<i32>)
    ensures
        finish_spec(
            WaitOutcome::Exited { success, code },
            pump_sequence(Seq::empty(), "OUT:"@, out_lines).0,
            pump_sequence(Seq::empty(), "ERR:"@, err_lines).0,
        ) == (
            if success { "completed"@ } else { "failed"@ },
            newline_terminated(out_lines),
            newline_terminated(err_lines),
            code,
        ),
{
    pumped_stream(Seq::empty(), "OUT:"@, out_lines);
    pumped_stream(Seq::empty(), "ERR:"@, err_lines);
    assert(Seq::<char>::empty() + newline_terminated(out_lines) == newline_terminated(out_lines));
    assert(Seq::<char>::empty() + newline_terminated(err_lines) == newline_terminated(err_lines));
}

/// One line read from a streamed process: it joins the collected output with a newline, and
/// the returned message, `prefix line`, goes to the job's listeners.
pub fn pump_line(buffer: &mut String, prefix: &str, line: &str) -> (message: String)
    ensures
        (final(buffer)@, message@) == pump_step(old(buffer)@, prefix@, line@),
{
    buffer.append(line);
    push_char(buffer, '\n');
    let mut message = String::from_str(prefix);
    push_char(&mut message, ' ');
    message.append(line);
    message
}

/// The message that tells listeners a job ended: `DONE: exit=` and the exit code as `Debug`
/// writes it.
pub fn done_message(exit_code: Option<i32>) -> (m: String)
    ensures
        m@ == "DONE: exit="@ + option_i32_debug(exit_code),
{
    let mut m = String::from_str("DONE: exit=");
    let code = option_i32_to_debug(exit_code);
    m.append(code.as_str());
    m
}

/// The message that tells listeners a job could not start.
pub fn error_message(err: &str) -> (m: String)
    ensures
        m@ == "ERR: "@ + err@,
{
    let mut m = String::from_str("ERR: ");
    m.append(err);
    m
}

} // verus!
