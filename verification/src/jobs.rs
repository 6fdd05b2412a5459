//! The job table of the runtime service and the replies of its job endpoints.
use vstd::prelude::*;
use crate::outside::{
    created_table, created_table_get, created_table_insert, created_table_new,
    created_table_values, result_table, result_table_clear, result_table_entries,
    result_table_get, result_table_insert, result_table_len, result_table_new, CreatedMap,
    ResultMap,
};
use crate::text::{chars_of, join_lines, line_bounds, lines, str_equal, string_from_chars};
use crate::types::{entry_view, ExecutionResult, ResultView};

verus! {

/// The first line kept when the last `n` of `count` lines are kept.
pub open spec fn tail_start(count: nat, n: nat) -> nat {
    if n >= count {
        0
    } else {
        (count - n) as nat
    }
}

/// What the logs endpoint shows of an output for a `tail` of `n`: the whole output for 0,
/// else its last `n` lines (all of them when it has fewer) joined with `\n`.
pub open spec fn last_lines(s: Seq<char>, n: nat) -> Seq<char> {
    if n == 0 {
        s
    } else {
        let ls = lines(s);
        join_lines(ls.subrange(tail_start(ls.len(), n) as int, ls.len() as int))
    }
}

pub fn take_last_lines(s: &str, n: usize) -> (r: String)
    ensures
        r@ == last_lines(s@, n as nat),
{
    if n == 0 {
        return String::from_str(s);
    }
    let v = chars_of(s);
    let bounds = line_bounds(&v);
    let len = bounds.len();
    let start = if n >= len {
        0
    } else {
        len - n
    };
    let ghost parts = lines(v@);
    let ghost f = |r: (usize, usize)| v@.subrange(r.0 as int, r.1 as int);
    assert(parts.len() == len);
    let mut out = String::new();
    let mut k = start;
    while k < len
        invariant
            start <= k <= len == bounds@.len(),
            parts == bounds@.map_values(f),
            f == (|r: (usize, usize)| v@.subrange(r.0 as int, r.1 as int)),
            forall|j: int| #![trigger bounds@[j]] 0 <= j < bounds@.len() ==> bounds@[j].0
                <= bounds@[j].1 <= v@.len(),
            out@ == join_lines(parts.subrange(start as int, k as int)),
        decreases len - k,
    {
        let (a, b) = bounds[k];
        let piece = string_from_chars(&v, a, b);
        assert(parts[k as int] == piece@);
        let ghost before = out@;
        if k > start {
            out.append("\n");
            proof {
                reveal_strlit("\n");
            }
            assert(out@ == before + seq!['\n']);
        }
        out.append(piece.as_str());
        proof {
            let sub = parts.subrange(start as int, k + 1);
            assert(sub.drop_last() == parts.subrange(start as int, k as int));
            assert(sub.last() == piece@);
            if k == start {
                assert(sub.len() == 1);
                assert(out@ == piece@);
            } else {
                assert(out@ == join_lines(sub.drop_last()) + seq!['\n'] + sub.last());
            }
        }
        k = k + 1;
    }
    out
}

/// The jobs the service knows of: each job's result (`None` while it runs) and the time its
/// record was last written. Emptying the results keeps the times.
pub struct JobStore {
    results: ResultMap,
    created: CreatedMap,
}

/// What the status endpoint answers for a job id.
#[derive(Clone, Debug)]
pub enum JobStatus {
    NotFound,
    Running { created_at: Option<i64> },
    Finished(ExecutionResult),
}

/// One line of the job list.
#[derive(Clone, Debug)]
pub struct JobListing {
    pub id: String,
    pub status: String,
    pub created_at: Option<i64>,
}

/// The filter of the job list: only jobs whose status is `status`, when given.
#[derive(Clone, Debug)]
pub struct ListJobsQuery {
    pub status: Option<String>,
}

/// How many lines of output the logs endpoint shows; none or 0 shows all.
#[derive(Clone, Debug)]
pub struct LogsQuery {
    pub tail: Option<usize>,
}

/// What the logs endpoint answers for a job id.
#[derive(Clone, Debug)]
pub enum JobLogs {
    NotFound,
    Running,
    Output { stdout: String, stderr: String },
}

/// The counts that the public summary shows.
#[derive(Clone, Copy, Debug)]
pub struct JobsSummary {
    pub total_jobs: usize,
    pub running_jobs: usize,
    pub completed_jobs: usize,
    pub latest_job_at: Option<i64>,
}

/// The status word that the job list shows for a table entry.
pub open spec fn listed_status(v: Option<ResultView>) -> Seq<char> {
    match v {
        None => "running"@,
        Some(r) => r.status,
    }
}

/// Whether a status passes the list filter.
pub open spec fn passes_filter(filter: Option<String>, status: Seq<char>) -> bool {
    match filter {
        None => true,
        Some(f) => f@ == status,
    }
}

impl JobStore {
    /// Job id to its result, `None` while it runs.
    pub closed spec fn results(&self) -> Map<Seq<char>, Option<ResultView>> {
        result_table(self.results).map_values(|v: Option<ExecutionResult>| entry_view(v))
    }

    /// Job id to the time its record was last written.
    pub closed spec fn created(&self) -> Map<Seq<char>, i64> {
        created_table(self.created)
    }

    proof fn lemma_results_dom(&self)
        ensures
            self.results().dom() == result_table(self.results).dom(),
    {
        assert(self.results().dom() =~= result_table(self.results).dom());
    }

    /// Both tables are finite.
    pub open spec fn wf(&self) -> bool {
        &&& self.results().dom().finite()
        &&& self.created().dom().finite()
    }

    /// The recorded time of a job, if any.
    pub open spec fn created_of(&self, id: Seq<char>) -> Option<i64> {
        if self.created().contains_key(id) {
            Some(self.created()[id])
        } else {
            None
        }
    }

    /// Whether `r` is what the status endpoint answers for `id`: not found, running since the
    /// recorded time, or the finished job's record.
    pub open spec fn status_is(&self, id: Seq<char>, r: JobStatus) -> bool {
        if !self.results().contains_key(id) {
            r is NotFound
        } else {
            match self.results()[id] {
                None => r == JobStatus::Running { created_at: self.created_of(id) },
                Some(v) => r matches JobStatus::Finished(res) && res@ == v,
            }
        }
    }

    /// The time that the job list shows for a known job: its result's, else the recorded one.
    pub open spec fn listed_created(&self, id: Seq<char>) -> Option<i64> {
        match self.results()[id] {
            Some(r) => r.created_at,
            None => self.created_of(id),
        }
    }

    /// An empty store.
    pub fn new() -> (s: Self)
        ensures
            s.wf(),
            s.results().is_empty(),
            s.created().is_empty(),
    {
        let s = JobStore { results: result_table_new(), created: created_table_new() };
        proof {
            s.lemma_results_dom();
        }
        s
    }

    /// Records `result` under its id, without touching the recorded time.
    pub fn put_result(&mut self, result: ExecutionResult)
        requires
            old(self).wf(),
        ensures
            final(self).wf(),
            final(self).results() == old(self).results().insert(result.id@, Some(result@)),
            final(self).created() == old(self).created(),
    {
        proof {
            old(self).lemma_results_dom();
        }
        let id = result.id.clone();
        result_table_insert(&mut self.results, id, Some(result));
        proof {
            self.lemma_results_dom();
        }
    }

    /// Records `result` under its id and `now` as its time.
    pub fn put_result_at(&mut self, result: ExecutionResult, now: i64)
        requires
            old(self).wf(),
        ensures
            final(self).wf(),
            final(self).results() == old(self).results().insert(result.id@, Some(result@)),
            final(self).created() == old(self).created().insert(result.id@, now),
    {
        proof {
            old(self).lemma_results_dom();
        }
        let id = result.id.clone();
        created_table_insert(&mut self.created, result.id.clone(), now);
        result_table_insert(&mut self.results, id, Some(result));
        proof {
            self.lemma_results_dom();
        }
    }

    /// Marks `id` as running since `now`.
    pub fn mark_running(&mut self, id: &str, now: i64)
        requires
            old(self).wf(),
        ensures
            final(self).wf(),
            final(self).results() == old(self).results().insert(id@, None),
            final(self).created() == old(self).created().insert(id@, now),
    {
        proof {
            old(self).lemma_results_dom();
        }
        result_table_insert(&mut self.results, String::from_str(id), None);
        created_table_insert(&mut self.created, String::from_str(id), now);
        proof {
            self.lemma_results_dom();
        }
    }

    /// The recorded time of `id`.
    pub fn created_at(&self, id: &str) -> (r: Option<i64>)
        ensures
            r == self.created_of(id@),
    {
        created_table_get(&self.created, id)
    }

    /// The status endpoint's answer for `id`.
    pub fn status(&self, id: &str) -> (r: JobStatus)
        ensures
            self.status_is(id@, r),
    {
        match result_table_get(&self.results, id) {
            None => JobStatus::NotFound,
            Some(None) => JobStatus::Running { created_at: created_table_get(&self.created, id) },
            Some(Some(r)) => JobStatus::Finished(r),
        }
    }

    /// The logs endpoint's answer for `id`: the output of a finished job, cut to its last
    /// `tail` lines when `tail` is given and not 0.
    pub fn logs(&self, id: &str, q: &LogsQuery) -> (r: JobLogs)
        ensures
            !self.results().contains_key(id@) ==> r is NotFound,
            self.results().contains_key(id@) && self.results()[id@] is None ==> r is Running,
            self.results().contains_key(id@) && self.results()[id@] is Some ==> (r matches JobLogs::Output { stdout, stderr } && {
                let res = self.results()[id@]->0;
                let n: nat = match q.tail { Some(t) => t as nat, None => 0 };
                &&& stdout@ == last_lines(res.stdout, n)
                &&& stderr@ == last_lines(res.stderr, n)
            }),
    {
        match result_table_get(&self.results, id) {
            None => JobLogs::NotFound,
            Some(None) => JobLogs::Running,
            Some(Some(res)) => {
                let tail: usize = match q.tail {
                    Some(t) => t,
                    None => 0,
                };
                JobLogs::Output {
                    stdout: take_last_lines(res.stdout.as_str(), tail),
                    stderr: take_last_lines(res.stderr.as_str(), tail),
                }
            },
        }
    }

    /// The job list: every known job whose status passes the filter, once, with its status
    /// and time, in an order that the table's hashing decides.
    pub fn list(&self, q: &ListJobsQuery) -> (out: Vec<JobListing>)
        ensures
            forall|i: int| #![trigger out@[i]] 0 <= i < out@.len() ==> {
                let id = out@[i].id@;
                &&& self.results().contains_key(id)
                &&& out@[i].status@ == listed_status(self.results()[id])
                &&& out@[i].created_at == self.listed_created(id)
                &&& passes_filter(q.status, out@[i].status@)
            },
            forall|i: int, j: int| #![trigger out@[i], out@[j]] 0 <= i < j < out@.len() ==> out@[i].id@ != out@[j].id@,
            forall|k: Seq<char>| #[trigger] self.results().contains_key(k) && passes_filter(q.status, listed_status(self.results()[k])) ==> exists|i: int| 0 <= i < out@.len() && #[trigger] out@[i].id@ == k,
    {
        let entries = result_table_entries(&self.results);
        let mut out: Vec<JobListing> = Vec::new();
        let ghost mut src: Seq<int> = Seq::empty();
        let mut idx: usize = 0;
        while idx < entries.len()
            invariant
                idx <= entries@.len(),
                forall|i: int| #![trigger entries@[i]] 0 <= i < entries@.len() ==> self.results().contains_key(entries@[i].0@)
                    && self.results()[entries@[i].0@] == entry_view(entries@[i].1),
                forall|i: int, j: int| #![trigger entries@[i], entries@[j]] 0 <= i < j < entries@.len() ==> entries@[i].0@ != entries@[j].0@,
                src.len() == out@.len(),
                forall|t: int| #![trigger src[t]] 0 <= t < src.len() ==> 0 <= src[t] < idx && out@[t].id@ == entries@[src[t]].0@,
                forall|t: int, u: int| #![trigger src[t], src[u]] 0 <= t < u < src.len() ==> src[t] < src[u],
                forall|i: int| #![trigger out@[i]] 0 <= i < out@.len() ==> {
                    let id = out@[i].id@;
                    &&& self.results().contains_key(id)
                    &&& out@[i].status@ == listed_status(self.results()[id])
                    &&& out@[i].created_at == self.listed_created(id)
                    &&& passes_filter(q.status, out@[i].status@)
                },
                forall|j: int| #![trigger entries@[j]] 0 <= j < idx && passes_filter(q.status, listed_status(entry_view(entries@[j].1))) ==> exists|t: int| 0 <= t < out@.len() && #[trigger] out@[t].id@ == entries@[j].0@,
            decreases entries@.len() - idx,
        {
            let (id, value) = (&entries[idx].0, &entries[idx].1);
            let status: String = match value {
                None => String::from_str("running"),
                Some(res) => res.status.clone(),
            };
            let keep = match &q.status {
                None => true,
                Some(f) => str_equal(f.as_str(), status.as_str()),
            };
            if keep {
                let created_at = match value {
                    Some(res) => res.created_at,
                    None => created_table_get(&self.created, id.as_str()),
                };
                let ghost old_out = out@;
                out.push(JobListing { id: id.clone(), status, created_at });
                proof {
                    src = src.push(idx as int);
                    assert(out@[out@.len() - 1].id@ == entries@[idx as int].0@);
                    assert forall|j: int| #![trigger entries@[j]] 0 <= j < idx + 1 && passes_filter(q.status, listed_status(entry_view(entries@[j].1))) implies exists|t: int| 0 <= t < out@.len() && #[trigger] out@[t].id@ == entries@[j].0@ by {
                        if j < idx {
                            let t = choose|t: int| 0 <= t < old_out.len() && #[trigger] old_out[t].id@ == entries@[j].0@;
                            assert(out@[t] == old_out[t]);
                        } else {
                            assert(out@[out@.len() - 1].id@ == entries@[j].0@);
                        }
                    }
                }
            } else {
                proof {
                    assert forall|j: int| #![trigger entries@[j]] 0 <= j < idx + 1 && passes_filter(q.status, listed_status(entry_view(entries@[j].1))) implies exists|t: int| 0 <= t < out@.len() && #[trigger] out@[t].id@ == entries@[j].0@ by {
                        if j == idx {
                            assert(!passes_filter(q.status, listed_status(entry_view(entries@[j].1))));
                        }
                    }
                }
            }
            idx = idx + 1;
        }
        proof {
            assert forall|i: int, j: int| #![trigger out@[i], out@[j]] 0 <= i < j < out@.len() implies out@[i].id@ != out@[j].id@ by {
                assert(src[i] < src[j]);
                assert(entries@[src[i]].0@ != entries@[src[j]].0@);
            }
            assert forall|k: Seq<char>| #[trigger] self.results().contains_key(k) && passes_filter(q.status, listed_status(self.results()[k])) implies exists|i: int| 0 <= i < out@.len() && #[trigger] out@[i].id@ == k by {
                let j = choose|j: int| 0 <= j < entries@.len() && #[trigger] entries@[j].0@ == k;
                assert(self.results()[entries@[j].0@] == entry_view(entries@[j].1));
            }
        }
        out
    }

    /// The ids of the jobs still running.
    pub open spec fn running_ids(&self) -> Set<Seq<char>> {
        self.results().dom().filter(|k: Seq<char>| self.results()[k] is None)
    }

    /// The ids of the jobs with a result.
    pub open spec fn finished_ids(&self) -> Set<Seq<char>> {
        self.results().dom().filter(|k: Seq<char>| self.results()[k] is Some)
    }

    /// The public summary: how many jobs are known, running and finished, and the latest
    /// recorded time.
    pub fn summary(&self) -> (r: JobsSummary)
        requires
            self.wf(),
        ensures
            r.total_jobs == self.results().len(),
            r.running_jobs == self.running_ids().len(),
            r.completed_jobs == self.finished_ids().len(),
            r.latest_job_at is None <==> self.created().is_empty(),
            r.latest_job_at matches Some(v) ==> (exists|k: Seq<char>| #[trigger] self.created().contains_key(k) && self.created()[k] == v),
            r.latest_job_at matches Some(v) ==> (forall|k: Seq<char>| #[trigger] self.created().contains_key(k) ==> self.created()[k] <= v),
    {
        proof {
            self.lemma_results_dom();
        }
        let total = result_table_len(&self.results);
        let entries = result_table_entries(&self.results);
        let mut running: usize = 0;
        let mut completed: usize = 0;
        let ghost mut rs: Set<Seq<char>> = Set::empty();
        let ghost mut cs: Set<Seq<char>> = Set::empty();
        let mut idx: usize = 0;
        while idx < entries.len()
            invariant
                idx <= entries@.len(),
                forall|i: int| #![trigger entries@[i]] 0 <= i < entries@.len() ==> self.results().contains_key(entries@[i].0@)
                    && self.results()[entries@[i].0@] == entry_view(entries@[i].1),
                forall|i: int, j: int| #![trigger entries@[i], entries@[j]] 0 <= i < j < entries@.len() ==> entries@[i].0@ != entries@[j].0@,
                rs.finite(),
                cs.finite(),
                rs.len() == running,
                cs.len() == completed,
                running + completed == idx,
                forall|j: int| #![trigger entries@[j]] 0 <= j < idx ==> (rs.contains(entries@[j].0@) <==> entries@[j].1 is None),
                forall|j: int| #![trigger entries@[j]] 0 <= j < idx ==> (cs.contains(entries@[j].0@) <==> entries@[j].1 is Some),
                forall|k: Seq<char>| #[trigger] rs.contains(k) ==> exists|j: int| 0 <= j < idx && #[trigger] entries@[j].0@ == k && entries@[j].1 is None,
                forall|k: Seq<char>| #[trigger] cs.contains(k) ==> exists|j: int| 0 <= j < idx && #[trigger] entries@[j].0@ == k && entries@[j].1 is Some,
            decreases entries@.len() - idx,
        {
            let ghost key = entries@[idx as int].0@;
            proof {
                if rs.contains(key) {
                    let j = choose|j: int| 0 <= j < idx && #[trigger] entries@[j].0@ == key && entries@[j].1 is None;
                    assert(entries@[j].0@ != entries@[idx as int].0@);
                }
                if cs.contains(key) {
                    let j = choose|j: int| 0 <= j < idx && #[trigger] entries@[j].0@ == key && entries@[j].1 is Some;
                    assert(entries@[j].0@ != entries@[idx as int].0@);
                }
            }
            if entries[idx].1.is_none() {
                running = running + 1;
                proof {
                    rs = rs.insert(key);
                }
            } else {
                completed = completed + 1;
                proof {
                    cs = cs.insert(key);
                }
            }
            proof {
                assert forall|j: int| #![trigger entries@[j]] 0 <= j < idx + 1 implies (rs.contains(entries@[j].0@) <==> entries@[j].1 is None) by {
                    if j < idx {
                        assert(entries@[j].0@ != key);
                    }
                }
                assert forall|j: int| #![trigger entries@[j]] 0 <= j < idx + 1 implies (cs.contains(entries@[j].0@) <==> entries@[j].1 is Some) by {
                    if j < idx {
                        assert(entries@[j].0@ != key);
                    }
                }
            }
            idx = idx + 1;
        }
        proof {
            assert(rs =~= self.running_ids()) by {
                assert forall|k: Seq<char>| self.running_ids().contains(k) implies rs.contains(k) by {
                    let j = choose|j: int| 0 <= j < entries@.len() && #[trigger] entries@[j].0@ == k;
                    assert(self.results()[entries@[j].0@] == entry_view(entries@[j].1));
                }
            }
            assert(cs =~= self.finished_ids()) by {
                assert forall|k: Seq<char>| self.finished_ids().contains(k) implies cs.contains(k) by {
                    let j = choose|j: int| 0 <= j < entries@.len() && #[trigger] entries@[j].0@ == k;
                    assert(self.results()[entries@[j].0@] == entry_view(entries@[j].1));
                }
            }
        }
        let values = created_table_values(&self.created);
        let mut latest: Option<i64> = None;
        let mut i: usize = 0;
        while i < values.len()
            invariant
                i <= values@.len(),
                latest is None <==> i == 0,
                latest matches Some(v) ==> (exists|j: int| 0 <= j < i && #[trigger] values@[j] == v),
                latest matches Some(v) ==> (forall|j: int| 0 <= j < i ==> #[trigger] values@[j] <= v),
            decreases values@.len() - i,
        {
            let v = values[i];
            latest = match latest {
                None => Some(v),
                Some(cur) => Some(if cur >= v { cur } else { v }),
            };
            i = i + 1;
        }
        proof {
            if latest is None {
                assert forall|k: Seq<char>| !self.created().contains_key(k) by {
                    if self.created().contains_key(k) {
                        let j = choose|j: int| 0 <= j < values@.len() && #[trigger] values@[j] == self.created()[k];
                    }
                }
                assert(self.created().dom() =~= Set::empty());
            } else {
                let v = latest->0;
                let j = choose|j: int| 0 <= j < values@.len() && #[trigger] values@[j] == v;
                let k = choose|k: Seq<char>| #[trigger] self.created().contains_key(k) && self.created()[k] == values@[j];
                assert(self.created().contains_key(k));
                assert forall|k: Seq<char>| #[trigger] self.created().contains_key(k) implies self.created()[k] <= v by {
                    let j = choose|j: int| 0 <= j < values@.len() && #[trigger] values@[j] == self.created()[k];
                }
            }
        }
        JobsSummary { total_jobs: total, running_jobs: running, completed_jobs: completed, latest_job_at: latest }
    }

    /// Forgets every job's result; the recorded times stay.
    pub fn purge(&mut self)
        requires
            old(self).wf(),
        ensures
            final(self).wf(),
            final(self).results().is_empty(),
            final(self).created() == old(self).created(),
    {
        result_table_clear(&mut self.results);
        proof {
            self.lemma_results_dom();
        }
    }
}

/// Every known job is either running or finished: the two counts of the summary add up to
/// its total.
pub proof fn summary_counts_add_up(store: JobStore)
    requires
        store.wf(),
    ensures
        store.running_ids().len() + store.finished_ids().len() == store.results().len(),
{
    let d = store.results().dom();
    d.lemma_len_filter(|k: Seq<char>| store.results()[k] is None);
    d.lemma_len_filter(|k: Seq<char>| store.results()[k] is Some);
    assert(store.running_ids() + store.finished_ids() =~= d);
    assert(store.running_ids().disjoint(store.finished_ids()));
    vstd::set_lib::lemma_set_disjoint_lens(store.running_ids(), store.finished_ids());
}

/// A job whose record was just written reads back as finished with that record.
pub proof fn status_reads_back_record(before: JobStore, after: JobStore, record: ResultView, reply: JobStatus)
    requires
        after.results() == before.results().insert(record.id, Some(record)),
        after.status_is(record.id, reply),
    ensures
        reply matches JobStatus::Finished(res) && res@ == record,
{
}

/// A job just marked running reads back as running since the time it was marked.
pub proof fn status_reads_back_running(before: JobStore, after: JobStore, id: Seq<char>, now: i64, reply: JobStatus)
    requires
        after.results() == before.results().insert(id, None),
        after.created() == before.created().insert(id, now),
        after.status_is(id, reply),
    ensures
        reply == (JobStatus::Running { created_at: Some(now) }),
{
}

/// Once the results are emptied no job is found, and the latest recorded time is kept.
pub proof fn purged_store_knows_no_job(before: JobStore, after: JobStore, id: Seq<char>, reply: JobStatus)
    requires
        after.results().is_empty(),
        after.created() == before.created(),
        after.status_is(id, reply),
    ensures
        reply is NotFound,
        after.created_of(id) == before.created_of(id),
{
}

} // verus!
