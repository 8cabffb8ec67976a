//! The values that travel between client, master and workers.

use vstd::prelude::*;

verus! {

/// One test case: its id, the program's stdin, and the expected stdout.
pub struct TestCase {
    pub id: String,
    pub input: String,
    pub expected_output: String,
}

impl Clone for TestCase {
    fn clone(&self) -> (r: TestCase)
        ensures
            r == *self,
    {
        TestCase {
            id: self.id.clone(),
            input: self.input.clone(),
            expected_output: self.expected_output.clone(),
        }
    }
}

/// The outcome of one test case.
pub struct TestCaseResult {
    pub test_id: String,
    /// One of `PASSED`, `FAILED`, `RE`, `TLE`, `MLE`.
    pub status: String,
    pub stdout: String,
    pub stderr: String,
    pub time_ms: i32,
    pub memory_bytes: i32,
}

impl Clone for TestCaseResult {
    fn clone(&self) -> (r: TestCaseResult)
        ensures
            r == *self,
    {
        TestCaseResult {
            test_id: self.test_id.clone(),
            status: self.status.clone(),
            stdout: self.stdout.clone(),
            stderr: self.stderr.clone(),
            time_ms: self.time_ms,
            memory_bytes: self.memory_bytes,
        }
    }
}

/// A copy of a list of test cases.
pub fn clone_cases(v: &Vec<TestCase>) -> (r: Vec<TestCase>)
    ensures
        r@ == v@,
{
    let mut out: Vec<TestCase> = Vec::new();
    let mut i: usize = 0;
    while i < v.len()
        invariant
            i <= v@.len(),
            out@ == v@.subrange(0, i as int),
        decreases v@.len() - i,
    {
        out.push(v[i].clone());
        i = i + 1;
        assert(out@ =~= v@.subrange(0, i as int));
    }
    assert(v@.subrange(0, v@.len() as int) =~= v@);
    out
}

/// A copy of a list of results.
pub fn clone_results(v: &Vec<TestCaseResult>) -> (r: Vec<TestCaseResult>)
    ensures
        r@ == v@,
{
    let mut out: Vec<TestCaseResult> = Vec::new();
    let mut i: usize = 0;
    while i < v.len()
        invariant
            i <= v@.len(),
            out@ == v@.subrange(0, i as int),
        decreases v@.len() - i,
    {
        out.push(v[i].clone());
        i = i + 1;
        assert(out@ =~= v@.subrange(0, i as int));
    }
    assert(v@.subrange(0, v@.len() as int) =~= v@);
    out
}

/// A copy of a byte string.
pub fn clone_bytes(v: &Vec<u8>) -> (r: Vec<u8>)
    ensures
        r@ == v@,
{
    let mut out: Vec<u8> = Vec::new();
    let mut i: usize = 0;
    while i < v.len()
        invariant
            i <= v@.len(),
            out@ == v@.subrange(0, i as int),
        decreases v@.len() - i,
    {
        out.push(v[i]);
        i = i + 1;
        assert(out@ =~= v@.subrange(0, i as int));
    }
    assert(v@.subrange(0, v@.len() as int) =~= v@);
    out
}

/// A copy of an optional string.
pub fn clone_opt_string(v: &Option<String>) -> (r: Option<String>)
    ensures
        r == *v,
{
    match v {
        Some(s) => Some(s.clone()),
        None => None,
    }
}

/// What the master sends a worker to compile a job.
pub struct CompileTask {
    pub job_id: String,
    pub language: String,
    pub source_code: String,
    pub flags: Vec<String>,
}

/// The program an execute task runs: source for interpreted languages, the
/// compile artifact for the others.
pub enum Payload {
    SourceCode(String),
    BinaryArtifact(Vec<u8>),
}

/// What the master sends a worker to run one batch of a job.
pub struct ExecuteBatchTask {
    pub job_id: String,
    pub batch_id: String,
    pub language: String,
    pub payload: Payload,
    pub inputs: Vec<TestCase>,
    pub time_limit_ms: u32,
    pub memory_limit_mb: u32,
}

/// A command on a worker's inbound queue.
pub enum MasterCommand {
    Compile(CompileTask),
    Execute(ExecuteBatchTask),
}

/// What a worker reports after a compile task.
pub struct CompileResult {
    pub job_id: String,
    pub success: bool,
    pub compiler_output: String,
    pub binary_payload: Vec<u8>,
    pub duration_ms: i32,
}

/// Resource use of one batch.
pub struct ResourceMetrics {
    pub peak_ram_bytes: u64,
    pub total_cpu_time_ms: u64,
}

/// What a worker reports after an execute task. A non-empty `system_error`
/// means the batch stopped before all its tests ran.
pub struct BatchExecutionResult {
    pub job_id: String,
    pub batch_id: String,
    pub worker_id: String,
    pub results: Vec<TestCaseResult>,
    pub metrics: ResourceMetrics,
    pub system_error: String,
}

/// A client's submission.
pub struct SubmitRequest {
    pub language: String,
    pub source_code: String,
    pub test_cases: Vec<TestCaseInput>,
    pub compiler_flags: Vec<String>,
    pub time_limit_ms: u32,
    pub memory_limit_mb: u32,
}

/// A test case as a client writes it.
pub struct TestCaseInput {
    pub id: String,
    pub input: String,
    pub expected_output: String,
}

/// The answer to a submission.
pub struct SubmitResponse {
    pub job_id: String,
    pub message: String,
}

/// The answer to a status query.
pub struct StatusResponse {
    pub job_id: String,
    /// One of `compiling`, `executing`, `completed`, `not_found`.
    pub state: String,
    pub results: Vec<TestResultOutput>,
    pub compiler_output: Option<String>,
    pub error: Option<String>,
}

/// One test result as a client reads it.
pub struct TestResultOutput {
    pub test_id: String,
    pub status: String,
    pub time_ms: i32,
    pub memory_bytes: i32,
    pub stdout: String,
    pub stderr: String,
}

pub const DEFAULT_TIME_LIMIT_MS: u32 = 2000;

pub const DEFAULT_MEMORY_LIMIT_MB: u32 = 128;

/// The per-test time limit when a submission names none.
pub fn default_time_limit() -> (r: u32)
    ensures
        r == DEFAULT_TIME_LIMIT_MS,
{
    DEFAULT_TIME_LIMIT_MS
}

/// The per-test memory limit when a submission names none.
pub fn default_memory_limit() -> (r: u32)
    ensures
        r == DEFAULT_MEMORY_LIMIT_MB,
{
    DEFAULT_MEMORY_LIMIT_MB
}

impl From<TestCaseResult> for TestResultOutput {
    fn from(r: TestCaseResult) -> (o: TestResultOutput) {
        TestResultOutput {
            test_id: r.test_id,
            status: r.status,
            time_ms: r.time_ms,
            memory_bytes: r.memory_bytes,
            stdout: r.stdout,
            stderr: r.stderr,
        }
    }
}

impl vstd::std_specs::convert::FromSpecImpl<TestCaseResult> for TestResultOutput {
    open spec fn obeys_from_spec() -> bool {
        true
    }

    open spec fn from_spec(r: TestCaseResult) -> TestResultOutput {
        TestResultOutput {
            test_id: r.test_id,
            status: r.status,
            time_ms: r.time_ms,
            memory_bytes: r.memory_bytes,
            stdout: r.stdout,
            stderr: r.stderr,
        }
    }
}

impl From<TestCaseInput> for TestCase {
    fn from(t: TestCaseInput) -> (o: TestCase) {
        TestCase { id: t.id, input: t.input, expected_output: t.expected_output }
    }
}

impl vstd::std_specs::convert::FromSpecImpl<TestCaseInput> for TestCase {
    open spec fn obeys_from_spec() -> bool {
        true
    }

    open spec fn from_spec(t: TestCaseInput) -> TestCase {
        TestCase { id: t.id, input: t.input, expected_output: t.expected_output }
    }
}

} // verus!
