//! The worker's side of a task: what a compile run reports, how the payload
//! of an execute task is staged, and how a batch's results are gathered.

use vstd::prelude::*;
use vstd::string::*;
use crate::language::{LanguageClass, unsupported_message, unsupported_compile_message};
use crate::model::{BatchExecutionResult, CompileResult, ResourceMetrics, TestCase, TestCaseResult};
use crate::sandbox::{compile_outcome, compile_outcome_of, ExecOutcome};
use crate::verdict::{judge_test, judged, RunOutcome};

verus! {

/// The report for a language that has no compile step.
pub fn unsupported_compile(job_id: &str, language: &str) -> (r: CompileResult)
    ensures
        r.job_id@ == job_id@,
        !r.success,
        r.compiler_output@ == unsupported_message(language@),
        r.binary_payload@.len() == 0,
        r.duration_ms == 0,
{
    CompileResult {
        job_id: String::from_str(job_id),
        success: false,
        compiler_output: unsupported_compile_message(language),
        binary_payload: Vec::new(),
        duration_ms: 0,
    }
}

/// The report for a compile that stopped before its command ran (container
/// create, start or upload failed); `message` names the cause.
pub fn compile_setup_failed(job_id: &str, message: String, duration_ms: i32) -> (r: CompileResult)
    ensures
        r.job_id@ == job_id@,
        !r.success,
        r.compiler_output == message,
        r.binary_payload@.len() == 0,
        r.duration_ms == duration_ms,
{
    CompileResult {
        job_id: String::from_str(job_id),
        success: false,
        compiler_output: message,
        binary_payload: Vec::new(),
        duration_ms,
    }
}

/// Whether the artifact is fetched after a compile run that ended with `o`.
pub fn should_download_artifact(o: &ExecOutcome) -> (r: bool)
    ensures
        r == compile_outcome_of(*o).0,
{
    match o {
        ExecOutcome::Exited { exit_code, .. } => *exit_code == 0,
        ExecOutcome::Failed { .. } => false,
    }
}

pub open spec fn download_failure_message() -> Seq<char> {
    "Failed to download artifact"@
}

/// The report for a compile run that ended with `o`, with the artifact if
/// it could be fetched. The compile succeeds only when the command exited
/// with 0 and the artifact came back; a missing artifact fails it.
pub fn compile_finished(job_id: &str, o: ExecOutcome, artifact: Option<Vec<u8>>, duration_ms: i32) -> (r: CompileResult)
    ensures
        r.job_id@ == job_id@,
        r.success == (compile_outcome_of(o).0 && artifact is Some),
        r.success ==> r.binary_payload == artifact->Some_0 && r.compiler_output@ == compile_outcome_of(o).1,
        !compile_outcome_of(o).0 ==> r.compiler_output@ == compile_outcome_of(o).1,
        compile_outcome_of(o).0 && artifact is None ==> r.compiler_output@ == download_failure_message(),
        !r.success ==> r.binary_payload@.len() == 0,
        r.duration_ms == duration_ms,
{
    let (exited_ok, output) = compile_outcome(o);
    if !exited_ok {
        return CompileResult {
            job_id: String::from_str(job_id),
            success: false,
            compiler_output: output,
            binary_payload: Vec::new(),
            duration_ms,
        };
    }
    match artifact {
        Some(a) => CompileResult {
            job_id: String::from_str(job_id),
            success: true,
            compiler_output: output,
            binary_payload: a,
            duration_ms,
        },
        None => CompileResult {
            job_id: String::from_str(job_id),
            success: false,
            compiler_output: String::from_str("Failed to download artifact"),
            binary_payload: Vec::new(),
            duration_ms,
        },
    }
}

/// How the program of an execute task gets into its container.
#[derive(Debug, Clone, Copy, PartialEq, Eq, Structural)]
pub enum Staging {
    /// Upload the source under the language's file name.
    Source,
    /// Upload the artifact as the tar bundle it is, then unpack it.
    Bundle,
    /// Upload the artifact as an executable.
    Binary,
    /// Nothing fits: run without staging.
    Nothing,
}

/// The staging for a lower-cased class and the payload on hand.
pub open spec fn staging_of(class: LanguageClass, has_source: bool, has_binary: bool) -> Staging {
    if class == LanguageClass::Interpreted {
        if has_source { Staging::Source } else { Staging::Nothing }
    } else if has_binary {
        if class == LanguageClass::JvmBundled { Staging::Bundle } else { Staging::Binary }
    } else {
        Staging::Nothing
    }
}

/// How to stage an execute task's payload for `class`.
pub fn staging(class: LanguageClass, has_source: bool, has_binary: bool) -> (r: Staging)
    ensures
        r == staging_of(class, has_source, has_binary),
{
    if class == LanguageClass::Interpreted {
        if has_source { Staging::Source } else { Staging::Nothing }
    } else if has_binary {
        if class == LanguageClass::JvmBundled { Staging::Bundle } else { Staging::Binary }
    } else {
        Staging::Nothing
    }
}

/// Where uploads land in a container.
pub fn upload_dir() -> (r: &'static str)
    ensures
        r@ == "/tmp"@,
{
    "/tmp"
}

/// Where a bundle's class files are unpacked; the run command's class path.
pub fn bundle_dir() -> (r: &'static str)
    ensures
        r@ == "/tmp/classes"@,
{
    "/tmp/classes"
}

/// The shell line that readies the bundle directory before the upload.
pub fn bundle_prepare_command() -> (r: &'static str)
    ensures
        r@ == "mkdir -p /tmp/classes"@,
{
    "mkdir -p /tmp/classes"
}

/// The shell line that puts an unpacked bundle's launcher in place.
pub fn bundle_finish_command() -> (r: &'static str)
    ensures
        r@ == "mv /tmp/classes/main /tmp/main && chmod +x /tmp/main"@,
{
    "mv /tmp/classes/main /tmp/main && chmod +x /tmp/main"
}

/// The shell line that marks an uploaded binary executable.
pub fn binary_finish_command() -> (r: &'static str)
    ensures
        r@ == "chmod +x /tmp/main"@,
{
    "chmod +x /tmp/main"
}

/// The cause of a failed staging command, or `None` when it exited with 0.
pub fn staging_command_failure(o: ExecOutcome) -> (r: Option<String>)
    ensures
        r is None <==> compile_outcome_of(o).0,
        r is Some ==> r->Some_0@ == compile_outcome_of(o).1,
{
    let (ok, output) = compile_outcome(o);
    if ok {
        None
    } else {
        Some(output)
    }
}

/// The report owed when a staging step (an upload, or a command that
/// prepares the payload) failed with `failure`: the batch is aborted and
/// the cause is its system error. `None` when the step succeeded.
pub fn staging_failed_batch(job_id: &str, batch_id: &str, worker_id: &str, failure: Option<String>) -> (r: Option<BatchExecutionResult>)
    ensures
        r is None <==> failure is None,
        r is Some ==> ({
            let b = r->Some_0;
            &&& b.job_id@ == job_id@
            &&& b.batch_id@ == batch_id@
            &&& b.worker_id@ == worker_id@
            &&& b.results@.len() == 0
            &&& b.system_error == failure->Some_0
        }),
{
    match failure {
        Some(e) => Some(aborted_batch(job_id, batch_id, worker_id, e)),
        None => None,
    }
}

/// The report of a batch that was aborted before any test ran.
pub fn aborted_batch(job_id: &str, batch_id: &str, worker_id: &str, system_error: String) -> (r: BatchExecutionResult)
    ensures
        r.job_id@ == job_id@,
        r.batch_id@ == batch_id@,
        r.worker_id@ == worker_id@,
        r.results@.len() == 0,
        r.metrics.peak_ram_bytes == 0 && r.metrics.total_cpu_time_ms == 0,
        r.system_error == system_error,
{
    BatchExecutionResult {
        job_id: String::from_str(job_id),
        batch_id: String::from_str(batch_id),
        worker_id: String::from_str(worker_id),
        results: Vec::new(),
        metrics: ResourceMetrics { peak_ram_bytes: 0, total_cpu_time_ms: 0 },
        system_error,
    }
}

/// The results of a batch so far, one per test run, in input order.
pub struct BatchTally {
    /// How many test cases the batch holds; no more results are taken.
    pub planned: usize,
    pub results: Vec<TestCaseResult>,
    /// Sum of the tests' elapsed times, saturating.
    pub total_cpu_time_ms: u64,
}

impl BatchTally {
    pub fn new(planned: usize) -> (r: BatchTally)
        ensures
            r.planned == planned,
            r.results@.len() == 0,
            r.total_cpu_time_ms == 0,
    {
        BatchTally { planned, results: Vec::new(), total_cpu_time_ms: 0 }
    }

    /// Whether every planned test has its result.
    pub fn is_full(&self) -> (r: bool)
        ensures
            r == (self.results@.len() >= self.planned),
    {
        self.results.len() >= self.planned
    }

    /// Records the run of `tc`, which ended with `outcome` after `elapsed_ms`.
    pub fn record(&mut self, tc: &TestCase, outcome: RunOutcome, elapsed_ms: i32)
        requires
            old(self).results@.len() < old(self).planned,
        ensures
            final(self).planned == old(self).planned,
            final(self).results@.len() == old(self).results@.len() + 1,
            final(self).results@.drop_last() == old(self).results@,
            judged(*tc, outcome, elapsed_ms, final(self).results@.last()),
            final(self).total_cpu_time_ms == (if elapsed_ms < 0 {
                old(self).total_cpu_time_ms as int
            } else if old(self).total_cpu_time_ms + elapsed_ms > u64::MAX {
                u64::MAX as int
            } else {
                old(self).total_cpu_time_ms + elapsed_ms
            }),
    {
        let r = judge_test(tc, outcome, elapsed_ms);
        self.results.push(r);
        if elapsed_ms >= 0 {
            self.total_cpu_time_ms = self.total_cpu_time_ms.saturating_add(elapsed_ms as u64);
        }
        assert(self.results@.drop_last() =~= old(self).results@);
    }

    /// The batch's report, with every test run: at most one result per
    /// planned test.
    pub fn finish(self, job_id: &str, batch_id: &str, worker_id: &str) -> (r: BatchExecutionResult)
        requires
            self.results@.len() <= self.planned,
        ensures
            r.results@.len() <= self.planned,
            r.job_id@ == job_id@,
            r.batch_id@ == batch_id@,
            r.worker_id@ == worker_id@,
            r.results == self.results,
            r.metrics.peak_ram_bytes == 0,
            r.metrics.total_cpu_time_ms == self.total_cpu_time_ms,
            r.system_error@.len() == 0,
    {
        BatchExecutionResult {
            job_id: String::from_str(job_id),
            batch_id: String::from_str(batch_id),
            worker_id: String::from_str(worker_id),
            results: self.results,
            metrics: ResourceMetrics { peak_ram_bytes: 0, total_cpu_time_ms: self.total_cpu_time_ms },
            system_error: String::new(),
        }
    }
}

} // verus!
