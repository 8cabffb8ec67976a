//! The per-job lifecycle: compile, execute in batches, complete. Each worker
//! report moves one job's state; a completed job takes no further change.

use vstd::prelude::*;
use crate::model::{TestCase, TestCaseResult};

verus! {

/// Where a job stands.
#[derive(Debug, Clone, Copy, PartialEq, Eq, Structural)]
pub enum JobState {
    /// Waiting for its compile result.
    Compiling,
    /// Waiting for `pending_batches` batch results.
    Executing { pending_batches: usize },
    /// Done; terminal.
    Completed,
}

/// A job as the master keeps it. The one-shot signal to the submitter lives
/// beside it; `completion_signalled` records that it has fired.
pub struct JobContext {
    pub id: String,
    pub language: String,
    pub source_code: String,
    pub total_test_cases: usize,
    /// Results gathered so far, from all batches.
    pub results: Vec<TestCaseResult>,
    pub state: JobState,
    /// The compile artifact, once compiled.
    pub binary: Option<Vec<u8>>,
    pub compiler_output: Option<String>,
    /// The last system error a batch reported.
    pub system_error: Option<String>,
    pub completion_signalled: bool,
    pub test_cases: Vec<TestCase>,
    pub compiler_flags: Vec<String>,
    pub time_limit_ms: u32,
    pub memory_limit_mb: u32,
}

/// The part of a job that its lifecycle laws speak of.
pub struct JobModel {
    pub state: JobState,
    pub results: Seq<TestCaseResult>,
    pub total: nat,
    pub signalled: bool,
}

/// A worker report about a job.
pub enum JobEvent {
    CompileDone { success: bool },
    BatchDone { results: Seq<TestCaseResult> },
}

/// `have` extended by the front of `more`, up to `total` items in all.
pub open spec fn capped_append(have: Seq<TestCaseResult>, more: Seq<TestCaseResult>, total: nat) -> Seq<TestCaseResult> {
    if have.len() >= total {
        have
    } else if more.len() <= total - have.len() {
        have + more
    } else {
        have + more.take(total - have.len())
    }
}

/// The job after `e`, and whether the completion signal fires on it.
pub open spec fn step(m: JobModel, e: JobEvent) -> (JobModel, bool) {
    match e {
        JobEvent::CompileDone { success } => {
            if m.state == JobState::Compiling {
                if success {
                    (JobModel { state: JobState::Executing { pending_batches: 1 }, ..m }, false)
                } else {
                    (JobModel { state: JobState::Completed, signalled: true, ..m }, true)
                }
            } else {
                (m, false)
            }
        },
        JobEvent::BatchDone { results } => {
            if m.state == JobState::Completed {
                (m, false)
            } else {
                let gathered = capped_append(m.results, results, m.total);
                match m.state {
                    JobState::Executing { pending_batches } => {
                        if pending_batches <= 1 {
                            (JobModel { state: JobState::Completed, results: gathered, signalled: true, ..m }, true)
                        } else {
                            (JobModel {
                                state: JobState::Executing { pending_batches: (pending_batches - 1) as usize },
                                results: gathered,
                                ..m
                            }, false)
                        }
                    },
                    _ => (JobModel { results: gathered, ..m }, false),
                }
            }
        },
    }
}

/// The job after each of `es` in turn, and how often the signal fired.
pub open spec fn run(m: JobModel, es: Seq<JobEvent>) -> (JobModel, nat)
    decreases es.len(),
{
    if es.len() == 0 {
        (m, 0)
    } else {
        let (next, fired) = step(m, es[0]);
        let (last, n) = run(next, es.drop_first());
        (last, n + if fired { 1nat } else { 0nat })
    }
}

/// The state invariant of a job's model.
pub open spec fn model_ok(m: JobModel) -> bool {
    &&& m.results.len() <= m.total
    &&& m.signalled <==> m.state == JobState::Completed
}

/// What a compile result asks of the master next.
#[derive(Debug, Clone, Copy, PartialEq, Eq, Structural)]
pub enum CompileFollowUp {
    /// The job was not waiting for it.
    Ignored,
    /// Compiled: send the execute task.
    DispatchExecution,
    /// Not compiled: the job is complete; signal the submitter.
    Failed,
}

impl JobContext {
    pub open spec fn model(&self) -> JobModel {
        JobModel {
            state: self.state,
            results: self.results@,
            total: self.total_test_cases as nat,
            signalled: self.completion_signalled,
        }
    }

    pub open spec fn wf(&self) -> bool {
        &&& model_ok(self.model())
        &&& self.total_test_cases == self.test_cases@.len()
    }

    /// A new job: interpreted languages start with one batch pending, the
    /// others start compiling.
    pub fn new(
        id: String,
        language: String,
        source_code: String,
        test_cases: Vec<TestCase>,
        compiler_flags: Vec<String>,
        time_limit_ms: u32,
        memory_limit_mb: u32,
        interpreted: bool,
    ) -> (r: JobContext)
        ensures
            r.wf(),
            r.id == id,
            r.language == language,
            r.source_code == source_code,
            r.test_cases == test_cases,
            r.compiler_flags == compiler_flags,
            r.time_limit_ms == time_limit_ms,
            r.memory_limit_mb == memory_limit_mb,
            r.results@.len() == 0,
            r.state == (if interpreted { JobState::Executing { pending_batches: 1 } } else { JobState::Compiling }),
            r.binary is None,
            r.compiler_output is None,
            r.system_error is None,
            !r.completion_signalled,
    {
        let total = test_cases.len();
        JobContext {
            id,
            language,
            source_code,
            total_test_cases: total,
            results: Vec::new(),
            state: if interpreted { JobState::Executing { pending_batches: 1 } } else { JobState::Compiling },
            binary: None,
            compiler_output: None,
            system_error: None,
            completion_signalled: false,
            test_cases,
            compiler_flags,
            time_limit_ms,
            memory_limit_mb,
        }
    }

    /// Whether the job satisfies its state invariant.
    pub fn is_well_formed(&self) -> (r: bool)
        ensures
            r == self.wf(),
    {
        self.results.len() <= self.total_test_cases
            && self.completion_signalled == (self.state == JobState::Completed)
            && self.total_test_cases == self.test_cases.len()
    }

    pub fn is_completed(&self) -> (r: bool)
        ensures
            r == (self.state == JobState::Completed),
    {
        self.state == JobState::Completed
    }

    /// Takes a compile result. A job that is not compiling ignores it. A
    /// compiling one records the compiler output; on success it keeps the
    /// artifact and waits for one batch, on failure it completes.
    pub fn on_compile_result(&mut self, success: bool, compiler_output: String, binary: Vec<u8>) -> (r: CompileFollowUp)
        requires
            old(self).wf(),
        ensures
            final(self).wf(),
            final(self).model() == step(old(self).model(), JobEvent::CompileDone { success }).0,
            (r == CompileFollowUp::Failed) == step(old(self).model(), JobEvent::CompileDone { success }).1,
            old(self).state != JobState::Compiling ==> r == CompileFollowUp::Ignored && *final(self) == *old(self),
            old(self).state == JobState::Compiling ==> {
                &&& final(self).compiler_output == Some(compiler_output)
                &&& final(self).system_error == old(self).system_error
                &&& success ==> r == CompileFollowUp::DispatchExecution && final(self).binary == Some(binary)
                &&& !success ==> r == CompileFollowUp::Failed && final(self).binary == old(self).binary
            },
            final(self).id == old(self).id,
            final(self).language == old(self).language,
            final(self).source_code == old(self).source_code,
            final(self).test_cases == old(self).test_cases,
            final(self).compiler_flags == old(self).compiler_flags,
            final(self).time_limit_ms == old(self).time_limit_ms,
            final(self).memory_limit_mb == old(self).memory_limit_mb,
            final(self).results == old(self).results,
            final(self).system_error == old(self).system_error,
    {
        if self.state != JobState::Compiling {
            return CompileFollowUp::Ignored;
        }
        self.compiler_output = Some(compiler_output);
        if success {
            self.binary = Some(binary);
            self.state = JobState::Executing { pending_batches: 1 };
            CompileFollowUp::DispatchExecution
        } else {
            self.state = JobState::Completed;
            self.completion_signalled = true;
            CompileFollowUp::Failed
        }
    }

    /// Takes a batch result; returns whether the job completed on it, which
    /// is when the submitter is signalled. A completed job ignores it.
    /// Otherwise the results are kept, never past the job's test count, a
    /// non-empty system error is recorded, and an executing job counts the
    /// batch off, completing at zero.
    pub fn on_batch_result(&mut self, results: Vec<TestCaseResult>, system_error: String) -> (fired: bool)
        requires
            old(self).wf(),
        ensures
            final(self).wf(),
            final(self).model() == step(old(self).model(), JobEvent::BatchDone { results: results@ }).0,
            fired == step(old(self).model(), JobEvent::BatchDone { results: results@ }).1,
            old(self).state == JobState::Completed ==> *final(self) == *old(self),
            old(self).state != JobState::Completed ==> final(self).system_error == (if system_error@.len() > 0 {
                Some(system_error)
            } else {
                old(self).system_error
            }),
            final(self).id == old(self).id,
            final(self).language == old(self).language,
            final(self).source_code == old(self).source_code,
            final(self).test_cases == old(self).test_cases,
            final(self).compiler_flags == old(self).compiler_flags,
            final(self).compiler_output == old(self).compiler_output,
            final(self).binary == old(self).binary,
            final(self).time_limit_ms == old(self).time_limit_ms,
            final(self).memory_limit_mb == old(self).memory_limit_mb,
    {
        if self.state == JobState::Completed {
            return false;
        }
        let ghost have = self.results@;
        let ghost more = results@;
        let total = self.total_test_cases;
        let mut incoming = results;
        if self.results.len() < total {
            let room = total - self.results.len();
            incoming.truncate(room);
            self.results.append(&mut incoming);
            proof {
                if more.len() > room {
                    assert(more.subrange(0, room as int) =~= more.take(room as int));
                }
            }
        }
        assert(self.results@ =~= capped_append(have, more, total as nat));
        if !system_error.as_str().is_empty() {
            self.system_error = Some(system_error);
        }
        match self.state {
            JobState::Executing { pending_batches } => {
                if pending_batches <= 1 {
                    self.state = JobState::Completed;
                    self.completion_signalled = true;
                    true
                } else {
                    self.state = JobState::Executing { pending_batches: pending_batches - 1 };
                    false
                }
            },
            _ => false,
        }
    }
}

/// Every report keeps a job's results within its test count.
pub proof fn lemma_results_within_total(m: JobModel, e: JobEvent)
    requires
        model_ok(m),
    ensures
        model_ok(step(m, e).0),
        step(m, e).0.results.len() <= step(m, e).0.total,
        step(m, e).0.total == m.total,
{
}

/// Whatever reports arrive, a job's results stay within its test count.
pub proof fn lemma_run_within_total(m: JobModel, es: Seq<JobEvent>)
    requires
        model_ok(m),
    ensures
        model_ok(run(m, es).0),
        run(m, es).0.results.len() <= m.total,
    decreases es.len(),
{
    if es.len() > 0 {
        lemma_results_within_total(m, es[0]);
        lemma_run_within_total(step(m, es[0]).0, es.drop_first());
    }
}

/// A completed job is left as it is by any report, and signals nothing.
pub proof fn lemma_completed_is_terminal(m: JobModel, e: JobEvent)
    requires
        m.state == JobState::Completed,
    ensures
        step(m, e) == (m, false),
{
}

/// After completion no run of reports changes a job's results.
pub proof fn lemma_completed_run_is_terminal(m: JobModel, es: Seq<JobEvent>)
    requires
        m.state == JobState::Completed,
    ensures
        run(m, es) == (m, 0nat),
    decreases es.len(),
{
    if es.len() > 0 {
        lemma_completed_is_terminal(m, es[0]);
        lemma_completed_run_is_terminal(m, es.drop_first());
    }
}

/// Over any run of reports a job completes, and signals, at most once; a
/// job that is already complete signals no more.
pub proof fn lemma_completes_at_most_once(m: JobModel, es: Seq<JobEvent>)
    ensures
        run(m, es).1 <= 1,
        m.state == JobState::Completed ==> run(m, es).1 == 0,
        step_fires_only_into_completed(m, es),
    decreases es.len(),
{
    if es.len() > 0 {
        let (next, fired) = step(m, es[0]);
        if m.state == JobState::Completed {
            lemma_completed_run_is_terminal(m, es);
        } else if fired {
            lemma_completed_run_is_terminal(next, es.drop_first());
        } else {
            lemma_completes_at_most_once(next, es.drop_first());
        }
    }
}

/// The signal fires only on a step into `Completed` from another state.
pub open spec fn step_fires_only_into_completed(m: JobModel, es: Seq<JobEvent>) -> bool {
    es.len() > 0 && step(m, es[0]).1 ==> m.state != JobState::Completed && step(m, es[0]).0.state == JobState::Completed
}

} // verus!
