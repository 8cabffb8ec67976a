//! The master's decisions around a job: accepting a submission, building the
//! commands sent to workers, reacting to their reports, and answering
//! status queries.

use vstd::prelude::*;
use vstd::string::*;
use crate::job::{step, CompileFollowUp, JobContext, JobEvent, JobState};
use crate::language::{class_of, is_interpreted, lower_of, LanguageClass};
use crate::model::{
    clone_bytes, clone_cases, clone_opt_string, clone_results, BatchExecutionResult, CompileResult,
    CompileTask, ExecuteBatchTask, MasterCommand, Payload, StatusResponse, SubmitRequest,
    SubmitResponse, TestCase, TestCaseInput, TestCaseResult, TestResultOutput,
};
use crate::registry::WorkerRegistry;
use crate::scheduler::{least_loaded_among, least_loaded_worker};
use crate::text::clone_strings;

verus! {

/// What the submitter receives once a job completes.
pub struct FinalResponse {
    pub job_id: String,
    pub success: bool,
    pub results: Vec<TestCaseResult>,
    pub compiler_output: Option<String>,
    pub error: Option<String>,
}

pub open spec fn worker_missing_message(id: Seq<char>) -> Seq<char> {
    "Worker "@ + id + " not found"@
}

fn worker_missing(id: &String) -> (r: String)
    ensures
        r@ == worker_missing_message(id@),
{
    let mut m = String::from_str("Worker ");
    m.append(id.as_str());
    m.append(" not found");
    m
}

/// The compile command for a job, addressed to a worker that must still be
/// registered.
pub fn dispatch_compile_task(
    registry: &WorkerRegistry,
    worker_id: &String,
    job_id: &String,
    language: &String,
    source_code: &String,
    flags: Vec<String>,
) -> (r: Result<MasterCommand, String>)
    ensures
        r is Err <==> !registry@.contains_key(worker_id@),
        r is Err ==> r->Err_0@ == worker_missing_message(worker_id@),
        r is Ok ==> r->Ok_0 == MasterCommand::Compile(CompileTask {
            job_id: *job_id,
            language: *language,
            source_code: *source_code,
            flags,
        }),
{
    match registry.get(worker_id) {
        None => Err(worker_missing(worker_id)),
        Some(_) => Ok(
            MasterCommand::Compile(
                CompileTask {
                    job_id: job_id.clone(),
                    language: language.clone(),
                    source_code: source_code.clone(),
                    flags,
                },
            ),
        ),
    }
}

pub open spec fn no_payload_message() -> Seq<char> {
    "Neither binary nor source code provided"@
}

/// The execute command for one batch, addressed to a worker that must still
/// be registered. The artifact wins over the source when both are given.
pub fn dispatch_execute_task(
    registry: &WorkerRegistry,
    worker_id: &String,
    job_id: &String,
    batch_id: &String,
    language: &String,
    binary: Option<Vec<u8>>,
    source_code: Option<String>,
    test_cases: Vec<TestCase>,
    time_limit_ms: u32,
    memory_limit_mb: u32,
) -> (r: Result<MasterCommand, String>)
    ensures
        !registry@.contains_key(worker_id@) ==> r is Err && r->Err_0@ == worker_missing_message(worker_id@),
        registry@.contains_key(worker_id@) && binary is None && source_code is None ==> r is Err
            && r->Err_0@ == no_payload_message(),
        registry@.contains_key(worker_id@) && (binary is Some || source_code is Some) ==> r == Ok::<MasterCommand, String>(
            MasterCommand::Execute(ExecuteBatchTask {
                job_id: *job_id,
                batch_id: *batch_id,
                language: *language,
                payload: if binary is Some {
                    Payload::BinaryArtifact(binary->Some_0)
                } else {
                    Payload::SourceCode(source_code->Some_0)
                },
                inputs: test_cases,
                time_limit_ms,
                memory_limit_mb,
            }),
        ),
{
    if registry.get(worker_id).is_none() {
        return Err(worker_missing(worker_id));
    }
    let payload = match binary {
        Some(bin) => Payload::BinaryArtifact(bin),
        None => match source_code {
            Some(src) => Payload::SourceCode(src),
            None => {
                return Err(String::from_str("Neither binary nor source code provided"));
            },
        },
    };
    Ok(
        MasterCommand::Execute(
            ExecuteBatchTask {
                job_id: job_id.clone(),
                batch_id: batch_id.clone(),
                language: language.clone(),
                payload,
                inputs: test_cases,
                time_limit_ms,
                memory_limit_mb,
            },
        ),
    )
}

/// Why a submission was refused.
#[derive(Debug, Clone, Copy, PartialEq, Eq, Structural)]
pub enum SubmitError {
    EmptyLanguage,
    NoTestCases,
    /// No worker is registered.
    NoWorkers,
}

/// An accepted submission: the job to keep, and its first command with the
/// worker it goes to.
pub struct Submission {
    pub job: JobContext,
    pub worker_id: String,
    pub command: MasterCommand,
}

pub open spec fn first_batch_id() -> Seq<char> {
    "batch_1"@
}

pub open spec fn cases_of(inputs: Seq<TestCaseInput>) -> Seq<TestCase> {
    inputs.map_values(|t: TestCaseInput| TestCase { id: t.id, input: t.input, expected_output: t.expected_output })
}

fn to_cases(inputs: Vec<TestCaseInput>) -> (r: Vec<TestCase>)
    ensures
        r@ == cases_of(inputs@),
{
    let ghost all = inputs@;
    let mut rest = inputs;
    let mut rev: Vec<TestCase> = Vec::new();
    while rest.len() > 0
        invariant
            rest@.len() + rev@.len() == all.len(),
            rest@ == all.subrange(0, rest@.len() as int),
            forall|k: int| 0 <= k < rev@.len() ==> #[trigger] rev@[k] == cases_of(all)[all.len() - 1 - k],
        decreases rest@.len(),
    {
        let t = rest.pop().unwrap();
        rev.push(TestCase { id: t.id, input: t.input, expected_output: t.expected_output });
    }
    let mut out: Vec<TestCase> = Vec::new();
    while rev.len() > 0
        invariant
            rev@.len() + out@.len() == all.len(),
            forall|k: int| 0 <= k < rev@.len() ==> #[trigger] rev@[k] == cases_of(all)[all.len() - 1 - k],
            out@ == cases_of(all).subrange(0, out@.len() as int),
        decreases rev@.len(),
    {
        let c = rev.pop().unwrap();
        out.push(c);
        assert(out@ =~= cases_of(all).subrange(0, out@.len() as int));
    }
    assert(out@ =~= cases_of(all));
    out
}

/// Accepts a submission: refuses an empty language or test list, then an
/// empty registry; otherwise picks the least-loaded worker and starts the
/// job. Interpreted languages go straight to one batch of all test cases;
/// the others are sent to compile first.
pub fn submit_job(registry: &WorkerRegistry, job_id: String, req: SubmitRequest) -> (r: Result<Submission, SubmitError>)
    ensures
        req.language@.len() == 0 ==> r == Err::<Submission, SubmitError>(SubmitError::EmptyLanguage),
        req.language@.len() > 0 && req.test_cases@.len() == 0 ==> r == Err::<Submission, SubmitError>(SubmitError::NoTestCases),
        req.language@.len() > 0 && req.test_cases@.len() > 0 && registry@.dom() == Set::<Seq<char>>::empty()
            ==> r == Err::<Submission, SubmitError>(SubmitError::NoWorkers),
        req.language@.len() > 0 && req.test_cases@.len() > 0 && registry@.dom() != Set::<Seq<char>>::empty() ==> r is Ok,
        r is Ok ==> ({
            let s = r->Ok_0;
            let interpreted = class_of(lower_of(req.language@)) == LanguageClass::Interpreted;
            &&& least_loaded_among(registry@, s.worker_id@, false)
            &&& s.job.wf()
            &&& s.job.id == job_id
            &&& s.job.language == req.language
            &&& s.job.source_code == req.source_code
            &&& s.job.test_cases@ == cases_of(req.test_cases@)
            &&& s.job.compiler_flags == req.compiler_flags
            &&& s.job.time_limit_ms == req.time_limit_ms
            &&& s.job.memory_limit_mb == req.memory_limit_mb
            &&& s.job.results@.len() == 0
            &&& !s.job.completion_signalled
            &&& s.job.state == (if interpreted { JobState::Executing { pending_batches: 1 } } else { JobState::Compiling })
            &&& interpreted ==> s.command == MasterCommand::Execute(ExecuteBatchTask {
                    job_id: job_id,
                    batch_id: s.command->Execute_0.batch_id,
                    language: req.language,
                    payload: Payload::SourceCode(req.source_code),
                    inputs: s.command->Execute_0.inputs,
                    time_limit_ms: req.time_limit_ms,
                    memory_limit_mb: req.memory_limit_mb,
                }) && s.command->Execute_0.batch_id@ == first_batch_id()
                && s.command->Execute_0.inputs@ == cases_of(req.test_cases@)
            &&& !interpreted ==> s.command == MasterCommand::Compile(CompileTask {
                    job_id: job_id,
                    language: req.language,
                    source_code: req.source_code,
                    flags: s.command->Compile_0.flags,
                }) && s.command->Compile_0.flags@ == req.compiler_flags@
        }),
{
    if req.language.as_str().is_empty() {
        return Err(SubmitError::EmptyLanguage);
    }
    if req.test_cases.len() == 0 {
        return Err(SubmitError::NoTestCases);
    }
    let worker_id = match least_loaded_worker(registry) {
        Some(w) => w,
        None => {
            return Err(SubmitError::NoWorkers);
        },
    };
    let interpreted = is_interpreted(req.language.as_str());
    let SubmitRequest { language, source_code, test_cases, compiler_flags, time_limit_ms, memory_limit_mb } = req;
    let cases = to_cases(test_cases);
    let command = if interpreted {
        MasterCommand::Execute(
            ExecuteBatchTask {
                job_id: job_id.clone(),
                batch_id: String::from_str("batch_1"),
                language: language.clone(),
                payload: Payload::SourceCode(source_code.clone()),
                inputs: clone_cases(&cases),
                time_limit_ms,
                memory_limit_mb,
            },
        )
    } else {
        MasterCommand::Compile(
            CompileTask {
                job_id: job_id.clone(),
                language: language.clone(),
                source_code: source_code.clone(),
                flags: clone_strings(&compiler_flags),
            },
        )
    };
    let job = JobContext::new(
        job_id,
        language,
        source_code,
        cases,
        compiler_flags,
        time_limit_ms,
        memory_limit_mb,
        interpreted,
    );
    Ok(Submission { job, worker_id, command })
}

/// The answer to a submission: its job id and a message.
pub fn submit_response(job_id: String, outcome: Option<SubmitError>) -> (r: SubmitResponse)
    ensures
        r.job_id == job_id,
        outcome is None ==> r.message@ == "Job accepted and dispatched for execution"@,
        outcome == Some(SubmitError::NoWorkers) ==> r.message@ == "No workers available"@,
        outcome == Some(SubmitError::EmptyLanguage) ==> r.message@ == "Language must not be empty"@,
        outcome == Some(SubmitError::NoTestCases) ==> r.message@ == "At least one test case is required"@,
{
    let message = match outcome {
        None => "Job accepted and dispatched for execution",
        Some(SubmitError::NoWorkers) => "No workers available",
        Some(SubmitError::EmptyLanguage) => "Language must not be empty",
        Some(SubmitError::NoTestCases) => "At least one test case is required",
    };
    SubmitResponse { job_id, message: String::from_str(message) }
}

/// What the master does after a compile result.
pub enum CompileReaction {
    /// The job was unknown or not compiling.
    Ignored,
    /// Send `command` to `worker_id`.
    Dispatch { worker_id: String, command: MasterCommand },
    /// Compiled, but no worker is registered to run it.
    NoWorker,
    /// The job failed to compile and is complete.
    Completed(FinalResponse),
}

/// Feeds a compile result to its job. On success the execute phase goes,
/// as one batch of all test cases with the artifact, to the least-loaded
/// worker; on failure the job completes and the submitter is answered.
pub fn handle_compile_result(job: &mut JobContext, registry: &WorkerRegistry, result: CompileResult) -> (r: CompileReaction)
    requires
        old(job).wf(),
    ensures
        final(job).wf(),
        final(job).model() == step(old(job).model(), JobEvent::CompileDone { success: result.success }).0,
        final(job).results == old(job).results,
        final(job).id == old(job).id,
        final(job).language == old(job).language,
        final(job).source_code == old(job).source_code,
        final(job).test_cases == old(job).test_cases,
        final(job).compiler_flags == old(job).compiler_flags,
        final(job).time_limit_ms == old(job).time_limit_ms,
        final(job).memory_limit_mb == old(job).memory_limit_mb,
        final(job).system_error == old(job).system_error,
        old(job).state != JobState::Compiling ==> r is Ignored && *final(job) == *old(job),
        old(job).state == JobState::Compiling ==> final(job).compiler_output == Some(result.compiler_output),
        old(job).state == JobState::Compiling && result.success ==> {
            &&& final(job).state == (JobState::Executing { pending_batches: 1 })
            &&& final(job).binary == Some(result.binary_payload)
            &&& (r is NoWorker <==> registry@.dom() == Set::<Seq<char>>::empty())
            &&& r is Dispatch ==> least_loaded_among(registry@, r->Dispatch_worker_id@, false)
            &&& r is Dispatch ==> r->Dispatch_command is Execute
            &&& r is Dispatch ==> ({
                let t = r->Dispatch_command->Execute_0;
                &&& t.job_id == old(job).id
                &&& t.batch_id@ == first_batch_id()
                &&& t.language == old(job).language
                &&& t.payload is BinaryArtifact
                &&& t.payload->BinaryArtifact_0@ == result.binary_payload@
                &&& t.inputs@ == old(job).test_cases@
                &&& t.time_limit_ms == old(job).time_limit_ms
                &&& t.memory_limit_mb == old(job).memory_limit_mb
            })
            &&& !(r is Ignored) && !(r is Completed)
        },
        old(job).state == JobState::Compiling && !result.success ==> {
            &&& final(job).state == JobState::Completed
            &&& final(job).completion_signalled
            &&& r is Completed
            &&& !r->Completed_0.success
            &&& r->Completed_0.job_id == old(job).id
            &&& r->Completed_0.results@ == old(job).results@
            &&& r->Completed_0.compiler_output == Some(result.compiler_output)
            &&& r->Completed_0.error == old(job).system_error
        },
{
    let CompileResult { job_id: _, success, compiler_output, binary_payload, duration_ms: _ } = result;
    let artifact = clone_bytes(&binary_payload);
    let follow = job.on_compile_result(success, compiler_output, binary_payload);
    match follow {
        CompileFollowUp::Ignored => CompileReaction::Ignored,
        CompileFollowUp::Failed => CompileReaction::Completed(final_response(job, false)),
        CompileFollowUp::DispatchExecution => {
            match least_loaded_worker(registry) {
                None => CompileReaction::NoWorker,
                Some(worker_id) => {
                    let task = ExecuteBatchTask {
                        job_id: job.id.clone(),
                        batch_id: String::from_str("batch_1"),
                        language: job.language.clone(),
                        payload: Payload::BinaryArtifact(artifact),
                        inputs: clone_cases(&job.test_cases),
                        time_limit_ms: job.time_limit_ms,
                        memory_limit_mb: job.memory_limit_mb,
                    };
                    CompileReaction::Dispatch { worker_id, command: MasterCommand::Execute(task) }
                },
            }
        },
    }
}

/// Feeds a batch result to its job; the submitter's answer when the job
/// completes on it.
pub fn handle_batch_result(job: &mut JobContext, result: BatchExecutionResult) -> (r: Option<FinalResponse>)
    requires
        old(job).wf(),
    ensures
        final(job).wf(),
        final(job).model() == step(old(job).model(), JobEvent::BatchDone { results: result.results@ }).0,
        (r is Some) == step(old(job).model(), JobEvent::BatchDone { results: result.results@ }).1,
        old(job).state == JobState::Completed ==> r is None && *final(job) == *old(job),
        old(job).state != JobState::Completed ==> final(job).system_error == (if result.system_error@.len() > 0 {
            Some(result.system_error)
        } else {
            old(job).system_error
        }),
        final(job).id == old(job).id,
        final(job).language == old(job).language,
        final(job).source_code == old(job).source_code,
        final(job).test_cases == old(job).test_cases,
        final(job).compiler_flags == old(job).compiler_flags,
        final(job).compiler_output == old(job).compiler_output,
        final(job).binary == old(job).binary,
        final(job).time_limit_ms == old(job).time_limit_ms,
        final(job).memory_limit_mb == old(job).memory_limit_mb,
        r is Some <==> old(job).state != JobState::Completed && final(job).state == JobState::Completed,
        r is Some ==> r->Some_0.success && r->Some_0.job_id == final(job).id
            && r->Some_0.results@ == final(job).results@
            && r->Some_0.compiler_output == final(job).compiler_output
            && r->Some_0.error == final(job).system_error,
{
    let BatchExecutionResult { job_id: _, batch_id: _, worker_id: _, results, metrics: _, system_error } = result;
    let fired = job.on_batch_result(results, system_error);
    if fired {
        Some(final_response(job, true))
    } else {
        None
    }
}

/// The submitter's answer for a job.
pub fn final_response(job: &JobContext, success: bool) -> (r: FinalResponse)
    ensures
        r.job_id == job.id,
        r.success == success,
        r.results@ == job.results@,
        r.compiler_output == job.compiler_output,
        r.error == job.system_error,
{
    FinalResponse {
        job_id: job.id.clone(),
        success,
        results: clone_results(&job.results),
        compiler_output: clone_opt_string(&job.compiler_output),
        error: clone_opt_string(&job.system_error),
    }
}

/// The state name a status query reports.
pub open spec fn state_name(s: JobState) -> Seq<char> {
    match s {
        JobState::Compiling => "compiling"@,
        JobState::Executing { pending_batches } => if pending_batches > 0 {
            "executing"@
        } else {
            "completed"@
        },
        JobState::Completed => "completed"@,
    }
}

pub fn state_label(s: &JobState) -> (r: &'static str)
    ensures
        r@ == state_name(*s),
{
    match s {
        JobState::Compiling => "compiling",
        JobState::Executing { pending_batches } => if *pending_batches > 0 {
            "executing"
        } else {
            "completed"
        },
        JobState::Completed => "completed",
    }
}

pub open spec fn output_of(r: TestCaseResult) -> TestResultOutput {
    TestResultOutput {
        test_id: r.test_id,
        status: r.status,
        time_ms: r.time_ms,
        memory_bytes: r.memory_bytes,
        stdout: r.stdout,
        stderr: r.stderr,
    }
}

fn outputs(results: &Vec<TestCaseResult>) -> (r: Vec<TestResultOutput>)
    ensures
        r@ == results@.map_values(|t: TestCaseResult| output_of(t)),
{
    let mut out: Vec<TestResultOutput> = Vec::new();
    let mut i: usize = 0;
    while i < results.len()
        invariant
            i <= results@.len(),
            out@ == results@.subrange(0, i as int).map_values(|t: TestCaseResult| output_of(t)),
        decreases results@.len() - i,
    {
        out.push(TestResultOutput::from(results[i].clone()));
        i = i + 1;
        assert(out@ =~= results@.subrange(0, i as int).map_values(|t: TestCaseResult| output_of(t)));
    }
    assert(results@.subrange(0, results@.len() as int) =~= results@);
    out
}

/// The answer to a status query for `job_id`, given the job if it is known.
pub fn status_response(job_id: String, job: Option<&JobContext>) -> (r: StatusResponse)
    ensures
        r.job_id == job_id,
        job is None ==> r.state@ == "not_found"@ && r.results@.len() == 0 && r.compiler_output is None
            && r.error is Some && r.error->Some_0@ == "Job not found"@,
        job is Some ==> ({
            let j = job->Some_0;
            &&& r.state@ == state_name(j.state)
            &&& r.results@ == j.results@.map_values(|t: TestCaseResult| output_of(t))
            &&& r.compiler_output == j.compiler_output
            &&& r.error == j.system_error
        }),
{
    match job {
        Some(j) => StatusResponse {
            job_id,
            state: String::from_str(state_label(&j.state)),
            results: outputs(&j.results),
            compiler_output: clone_opt_string(&j.compiler_output),
            error: clone_opt_string(&j.system_error),
        },
        None => StatusResponse {
            job_id,
            state: String::from_str("not_found"),
            results: Vec::new(),
            compiler_output: None,
            error: Some(String::from_str("Job not found")),
        },
    }
}

} // verus!
