//! The verdict rule: how one finished, timed-out or failed run of a test
//! case becomes a result.

use vstd::prelude::*;
use crate::model::{TestCase, TestCaseResult};
use crate::text::{contains, trim, text_contains, trimmed_eq};

verus! {

/// The per-test outcome tag.
#[derive(Debug, Clone, Copy, PartialEq, Eq, Structural)]
pub enum Verdict {
    Passed,
    Failed,
    RuntimeError,
    TimeLimitExceeded,
    MemoryLimitExceeded,
}

/// The tag as it travels on the wire.
pub open spec fn label_of(v: Verdict) -> Seq<char> {
    match v {
        Verdict::Passed => "PASSED"@,
        Verdict::Failed => "FAILED"@,
        Verdict::RuntimeError => "RE"@,
        Verdict::TimeLimitExceeded => "TLE"@,
        Verdict::MemoryLimitExceeded => "MLE"@,
    }
}

impl Verdict {
    pub fn label(&self) -> (r: &'static str)
        ensures
            r@ == label_of(*self),
    {
        match self {
            Verdict::Passed => "PASSED",
            Verdict::Failed => "FAILED",
            Verdict::RuntimeError => "RE",
            Verdict::TimeLimitExceeded => "TLE",
            Verdict::MemoryLimitExceeded => "MLE",
        }
    }
}

/// The exit code of a process that the kernel killed with `SIGKILL`.
pub const KILLED_EXIT_CODE: i64 = 137;

/// The run shows the marks of the memory limit: killed, or out of memory.
pub open spec fn memory_marks(exit_code: i64, stdout: Seq<char>, stderr: Seq<char>) -> bool {
    exit_code == KILLED_EXIT_CODE || contains(stdout, "Killed"@) || contains(stderr, "Killed"@)
        || contains(stderr, "Out of memory"@)
}

/// The verdict of a run that finished within its time limit.
pub open spec fn finished_verdict(exit_code: i64, stdout: Seq<char>, stderr: Seq<char>, expected: Seq<char>) -> Verdict {
    if memory_marks(exit_code, stdout, stderr) {
        Verdict::MemoryLimitExceeded
    } else if exit_code != 0 {
        Verdict::RuntimeError
    } else if trim(stdout) == trim(expected) {
        Verdict::Passed
    } else {
        Verdict::Failed
    }
}

/// The verdict of a run that finished within its time limit: memory marks
/// first, then a non-zero exit, then the trimmed output against the expected one.
pub fn classify_finished(exit_code: i64, stdout: &str, stderr: &str, expected: &str) -> (r: Verdict)
    ensures
        r == finished_verdict(exit_code, stdout@, stderr@, expected@),
{
    if exit_code == KILLED_EXIT_CODE || text_contains(stdout, "Killed") || text_contains(stderr, "Killed")
        || text_contains(stderr, "Out of memory") {
        Verdict::MemoryLimitExceeded
    } else if exit_code != 0 {
        Verdict::RuntimeError
    } else if trimmed_eq(stdout, expected) {
        Verdict::Passed
    } else {
        Verdict::Failed
    }
}

/// How one run of a test case ended.
pub enum RunOutcome {
    /// The process exited within the time limit.
    Finished { exit_code: i64, stdout: String, stderr: String },
    /// The wall-clock limit fired first.
    TimedOut,
    /// The run could not be started or followed.
    ExecFailed { message: String },
}

pub open spec fn timeout_message() -> Seq<char> {
    "Execution timeout"@
}

/// The verdict of a run outcome against the expected output.
pub open spec fn outcome_verdict(o: RunOutcome, expected: Seq<char>) -> Verdict {
    match o {
        RunOutcome::Finished { exit_code, stdout, stderr } => finished_verdict(exit_code, stdout@, stderr@, expected),
        RunOutcome::TimedOut => Verdict::TimeLimitExceeded,
        RunOutcome::ExecFailed { .. } => Verdict::RuntimeError,
    }
}

/// The result recorded for test `tc` whose run ended with `o` after `elapsed_ms`.
pub open spec fn judged(tc: TestCase, o: RunOutcome, elapsed_ms: i32, r: TestCaseResult) -> bool {
    &&& r.test_id@ == tc.id@
    &&& r.status@ == label_of(outcome_verdict(o, tc.expected_output@))
    &&& r.time_ms == elapsed_ms
    &&& r.memory_bytes == 0
    &&& match o {
        RunOutcome::Finished { stdout, stderr, .. } => r.stdout@ == stdout@ && r.stderr@ == stderr@,
        RunOutcome::TimedOut => r.stdout@ == Seq::<char>::empty() && r.stderr@ == timeout_message(),
        RunOutcome::ExecFailed { message } => r.stdout@ == Seq::<char>::empty() && r.stderr@ == message@,
    }
}

/// The result of one test case from the way its run ended.
pub fn judge_test(tc: &TestCase, outcome: RunOutcome, elapsed_ms: i32) -> (r: TestCaseResult)
    ensures
        judged(*tc, outcome, elapsed_ms, r),
{
    let ghost o = outcome;
    let (verdict, stdout, stderr) = match outcome {
        RunOutcome::Finished { exit_code, stdout, stderr } => {
            let v = classify_finished(exit_code, stdout.as_str(), stderr.as_str(), tc.expected_output.as_str());
            (v, stdout, stderr)
        },
        RunOutcome::TimedOut => (Verdict::TimeLimitExceeded, String::new(), String::from_str("Execution timeout")),
        RunOutcome::ExecFailed { message } => (Verdict::RuntimeError, String::new(), message),
    };
    TestCaseResult {
        test_id: tc.id.clone(),
        status: String::from_str(verdict.label()),
        stdout,
        stderr,
        time_ms: elapsed_ms,
        memory_bytes: 0,
    }
}

/// Two outputs that differ only in surrounding whitespace, and show no memory
/// marks, are judged alike.
pub proof fn lemma_whitespace_does_not_decide(
    exit_code: i64,
    out1: Seq<char>,
    out2: Seq<char>,
    stderr: Seq<char>,
    expected: Seq<char>,
)
    requires
        trim(out1) == trim(out2),
        !memory_marks(exit_code, out1, stderr),
        !memory_marks(exit_code, out2, stderr),
    ensures
        finished_verdict(exit_code, out1, stderr, expected) == finished_verdict(exit_code, out2, stderr, expected),
{
}

/// A clean exit whose output equals the expected output up to leading and
/// trailing whitespace passes.
pub proof fn lemma_trim_equal_passes(stdout: Seq<char>, stderr: Seq<char>, expected: Seq<char>)
    requires
        trim(stdout) == trim(expected),
        !memory_marks(0, stdout, stderr),
    ensures
        finished_verdict(0, stdout, stderr, expected) == Verdict::Passed,
{
}

} // verus!
