use code_judge::controller::{
    dispatch_compile_task, dispatch_execute_task, handle_batch_result, handle_compile_result, status_response, submit_job, submit_response,
    CompileReaction, SubmitError,
};
use code_judge::executor::BatchTally;
use code_judge::job::JobState;
use code_judge::model::{
    BatchExecutionResult, CompileResult, MasterCommand, Payload, ResourceMetrics, SubmitRequest,
    TestCase, TestCaseInput,
};
use code_judge::registry::{Metrics, WorkerRegistry};
use code_judge::verdict::RunOutcome;

fn one_worker() -> WorkerRegistry {
    let mut reg = WorkerRegistry::new();
    reg.register("w1".to_string(), 1, 4, 8192, vec!["can_compile".to_string()]);
    reg
}

fn request(language: &str, source: &str, cases: Vec<(&str, &str, &str)>, time_limit_ms: u32, memory_limit_mb: u32) -> SubmitRequest {
    SubmitRequest {
        language: language.to_string(),
        source_code: source.to_string(),
        test_cases: cases
            .into_iter()
            .map(|(id, input, expected)| TestCaseInput {
                id: id.to_string(),
                input: input.to_string(),
                expected_output: expected.to_string(),
            })
            .collect(),
        compiler_flags: vec![],
        time_limit_ms,
        memory_limit_mb,
    }
}

fn batch(job_id: &str, results: Vec<code_judge::model::TestCaseResult>, system_error: &str) -> BatchExecutionResult {
    BatchExecutionResult {
        job_id: job_id.to_string(),
        batch_id: "batch_1".to_string(),
        worker_id: "w1".to_string(),
        results,
        metrics: ResourceMetrics { peak_ram_bytes: 0, total_cpu_time_ms: 0 },
        system_error: system_error.to_string(),
    }
}

fn case(id: &str, input: &str, expected: &str) -> TestCase {
    TestCase { id: id.to_string(), input: input.to_string(), expected_output: expected.to_string() }
}

#[test]
fn python_success() {
    let reg = one_worker();
    let req = request("python", "print(int(input())*2)", vec![("t1", "21", "42")], 2000, 128);
    let sub = submit_job(&reg, "job-1".to_string(), req).ok().unwrap();
    assert_eq!(sub.worker_id, "w1");
    let mut job = sub.job;
    assert_eq!(job.state, JobState::Executing { pending_batches: 1 });
    match &sub.command {
        MasterCommand::Execute(t) => {
            assert_eq!(t.batch_id, "batch_1");
            assert_eq!(t.inputs.len(), 1);
            assert!(matches!(&t.payload, Payload::SourceCode(s) if s == "print(int(input())*2)"));
        }
        _ => panic!("expected an execute task"),
    }
    let mut tally = BatchTally::new(10);
    let tc = case("t1", "21", "42");
    tally.record(&tc, RunOutcome::Finished { exit_code: 0, stdout: "42\n".to_string(), stderr: String::new() }, 30);
    let report = tally.finish("job-1", "batch_1", "w1");
    let done = handle_batch_result(&mut job, report).unwrap();
    assert!(done.success);
    assert_eq!(job.state, JobState::Completed);
    assert_eq!(done.results.len(), 1);
    assert_eq!(done.results[0].status, "PASSED");
    assert_eq!(done.results[0].stdout.trim(), "42");
}

#[test]
fn cpp_compile_failure() {
    let reg = one_worker();
    let req = request("cpp", "int main(){ return x; }", vec![("t1", "", "")], 2000, 128);
    let sub = submit_job(&reg, "job-2".to_string(), req).ok().unwrap();
    assert!(matches!(sub.command, MasterCommand::Compile(_)));
    let mut job = sub.job;
    assert_eq!(job.state, JobState::Compiling);
    let result = CompileResult {
        job_id: "job-2".to_string(),
        success: false,
        compiler_output: "error: 'x' was not declared in this scope".to_string(),
        binary_payload: vec![],
        duration_ms: 120,
    };
    match handle_compile_result(&mut job, &reg, result) {
        CompileReaction::Completed(f) => {
            assert!(!f.success);
            assert!(f.results.is_empty());
            assert!(!f.compiler_output.unwrap().is_empty());
        }
        _ => panic!("expected completion"),
    }
    assert_eq!(job.state, JobState::Completed);
    let status = status_response("job-2".to_string(), Some(&job));
    assert_eq!(status.state, "completed");
    assert!(status.results.is_empty());
    assert!(status.compiler_output.is_some());
}

#[test]
fn compile_success_dispatches_one_batch() {
    let reg = one_worker();
    let req = request("C++", "int main(){}", vec![("t1", "", ""), ("t2", "", "")], 1000, 64);
    let mut job = submit_job(&reg, "job-3".to_string(), req).ok().unwrap().job;
    let result = CompileResult {
        job_id: "job-3".to_string(),
        success: true,
        compiler_output: String::new(),
        binary_payload: vec![1, 2, 3],
        duration_ms: 5,
    };
    match handle_compile_result(&mut job, &reg, result) {
        CompileReaction::Dispatch { worker_id, command: MasterCommand::Execute(t) } => {
            assert_eq!(worker_id, "w1");
            assert_eq!(t.inputs.len(), 2);
            assert!(matches!(&t.payload, Payload::BinaryArtifact(b) if b == &vec![1u8, 2, 3]));
            assert_eq!(t.time_limit_ms, 1000);
        }
        _ => panic!("expected dispatch"),
    }
    assert_eq!(job.state, JobState::Executing { pending_batches: 1 });
}

#[test]
fn time_limit_exceeded() {
    let mut tally = BatchTally::new(10);
    let tc = case("t1", "", "");
    tally.record(&tc, RunOutcome::TimedOut, 503);
    assert_eq!(tally.results[0].status, "TLE");
    assert!(tally.results[0].time_ms >= 500);
    assert_eq!(tally.total_cpu_time_ms, 503);
}

#[test]
fn memory_limit_exceeded() {
    let mut tally = BatchTally::new(10);
    let tc = case("t1", "", "");
    tally.record(&tc, RunOutcome::Finished { exit_code: 137, stdout: String::new(), stderr: String::new() }, 80);
    tally.record(&tc, RunOutcome::Finished { exit_code: 1, stdout: "Killed\n".to_string(), stderr: String::new() }, 80);
    tally.record(&tc, RunOutcome::Finished { exit_code: 1, stdout: String::new(), stderr: "MemoryError: Out of memory".to_string() }, 80);
    for r in &tally.results {
        assert_eq!(r.status, "MLE");
    }
}

#[test]
fn wrong_answer() {
    let mut tally = BatchTally::new(10);
    let tc = case("t1", "", "yes");
    tally.record(&tc, RunOutcome::Finished { exit_code: 0, stdout: "no\n".to_string(), stderr: String::new() }, 10);
    assert_eq!(tally.results[0].status, "FAILED");
}

#[test]
fn runtime_error() {
    let mut tally = BatchTally::new(10);
    let tc = case("t1", "", "yes");
    tally.record(&tc, RunOutcome::Finished { exit_code: 1, stdout: "yes".to_string(), stderr: String::new() }, 10);
    tally.record(&tc, RunOutcome::ExecFailed { message: "Exec failed: gone".to_string() }, 10);
    assert_eq!(tally.results[0].status, "RE");
    assert_eq!(tally.results[1].status, "RE");
    assert_eq!(tally.results[1].stderr, "Exec failed: gone");
}

#[test]
fn no_workers() {
    let reg = WorkerRegistry::new();
    let req = request("python", "print(1)", vec![("t1", "", "1")], 2000, 128);
    assert!(matches!(submit_job(&reg, "job-4".to_string(), req), Err(SubmitError::NoWorkers)));
    let resp = submit_response("job-4".to_string(), Some(SubmitError::NoWorkers));
    assert_eq!(resp.message, "No workers available");
}

#[test]
fn malformed_submissions() {
    let reg = one_worker();
    let req = request("", "x", vec![("t1", "", "")], 2000, 128);
    assert!(matches!(submit_job(&reg, "j".to_string(), req), Err(SubmitError::EmptyLanguage)));
    let req = request("python", "x", vec![], 2000, 128);
    assert!(matches!(submit_job(&reg, "j".to_string(), req), Err(SubmitError::NoTestCases)));
}

#[test]
fn trim_equal_output_passes() {
    let mut tally = BatchTally::new(10);
    let tc = case("t1", "", "  42 ");
    tally.record(&tc, RunOutcome::Finished { exit_code: 0, stdout: "\n42\n\t".to_string(), stderr: String::new() }, 1);
    tally.record(&tc, RunOutcome::Finished { exit_code: 0, stdout: "4 2".to_string(), stderr: String::new() }, 1);
    assert_eq!(tally.results[0].status, "PASSED");
    assert_eq!(tally.results[1].status, "FAILED");
}

#[test]
fn completed_job_ignores_later_batches() {
    let reg = one_worker();
    let req = request("ruby", "puts 1", vec![("t1", "", "1")], 2000, 128);
    let mut job = submit_job(&reg, "job-5".to_string(), req).ok().unwrap().job;
    let mut tally = BatchTally::new(10);
    let tc = case("t1", "", "1");
    tally.record(&tc, RunOutcome::Finished { exit_code: 0, stdout: "1".to_string(), stderr: String::new() }, 1);
    assert!(handle_batch_result(&mut job, tally.finish("job-5", "batch_1", "w1")).is_some());
    let mut again = BatchTally::new(10);
    again.record(&tc, RunOutcome::TimedOut, 9);
    assert!(handle_batch_result(&mut job, again.finish("job-5", "batch_1", "w1")).is_none());
    assert_eq!(job.results.len(), 1);
    assert_eq!(job.results[0].status, "PASSED");
    let late = CompileResult {
        job_id: "job-5".to_string(),
        success: true,
        compiler_output: "late".to_string(),
        binary_payload: vec![],
        duration_ms: 1,
    };
    assert!(matches!(handle_compile_result(&mut job, &reg, late), CompileReaction::Ignored));
    assert!(job.compiler_output.is_none());
}

#[test]
fn results_never_exceed_test_count() {
    let reg = one_worker();
    let req = request("python", "x", vec![("t1", "", "1")], 2000, 128);
    let mut job = submit_job(&reg, "job-6".to_string(), req).ok().unwrap().job;
    let mut tally = BatchTally::new(10);
    let tc = case("t1", "", "1");
    for _ in 0..3 {
        tally.record(&tc, RunOutcome::TimedOut, 1);
    }
    assert!(handle_batch_result(&mut job, tally.finish("job-6", "batch_1", "w1")).is_some());
    assert_eq!(job.results.len(), 1);
}

#[test]
fn system_error_surfaces_in_status() {
    let reg = one_worker();
    let req = request("python", "x", vec![("t1", "", "1")], 2000, 128);
    let mut job = submit_job(&reg, "job-7".to_string(), req).ok().unwrap().job;
    let done = handle_batch_result(&mut job, batch("job-7", vec![], "Failed to create container: boom")).unwrap();
    assert_eq!(done.error.as_deref(), Some("Failed to create container: boom"));
    let status = status_response("job-7".to_string(), Some(&job));
    assert_eq!(status.error.as_deref(), Some("Failed to create container: boom"));
    let missing = status_response("nope".to_string(), None);
    assert_eq!(missing.state, "not_found");
    assert_eq!(missing.error.as_deref(), Some("Job not found"));
}

#[test]
fn heartbeat_is_idempotent() {
    let mut reg = one_worker();
    let m = Metrics { cpu_load_hundredths: 4250, ram_usage_mb: 512, active_tasks: 2 };
    reg.heartbeat(&"w1".to_string(), m);
    let once = reg.get(&"w1".to_string()).unwrap();
    reg.heartbeat(&"w1".to_string(), m);
    let twice = reg.get(&"w1".to_string()).unwrap();
    assert_eq!(once.metrics, twice.metrics);
    assert_eq!(twice.metrics, m);
    assert_eq!(twice.cpu_cores, 4);
    reg.heartbeat(&"ghost".to_string(), m);
    assert!(reg.get(&"ghost".to_string()).is_none());
    assert_eq!(reg.snapshot().len(), 1);
}

#[test]
fn dispatch_needs_a_registered_worker_and_a_payload() {
    let reg = one_worker();
    let s = |x: &str| x.to_string();
    let err = dispatch_compile_task(&reg, &s("w2"), &s("j"), &s("c"), &s("int main(){}"), vec![]).err().unwrap();
    assert_eq!(err, "Worker w2 not found");
    match dispatch_compile_task(&reg, &s("w1"), &s("j"), &s("c"), &s("int main(){}"), vec![s("-O2")]).ok().unwrap() {
        MasterCommand::Compile(t) => {
            assert_eq!(t.job_id, "j");
            assert_eq!(t.flags, vec![s("-O2")]);
        }
        _ => panic!("expected a compile task"),
    }
    let err = dispatch_execute_task(&reg, &s("w1"), &s("j"), &s("b"), &s("c"), None, None, vec![], 1, 1).err().unwrap();
    assert_eq!(err, "Neither binary nor source code provided");
    let err = dispatch_execute_task(&reg, &s("zz"), &s("j"), &s("b"), &s("c"), None, Some(s("x")), vec![], 1, 1).err().unwrap();
    assert_eq!(err, "Worker zz not found");
    match dispatch_execute_task(&reg, &s("w1"), &s("j"), &s("b"), &s("c"), Some(vec![9]), Some(s("x")), vec![case("t", "", "")], 5, 6).ok().unwrap() {
        MasterCommand::Execute(t) => {
            assert!(matches!(t.payload, Payload::BinaryArtifact(ref b) if b == &vec![9u8]));
            assert_eq!(t.inputs.len(), 1);
            assert_eq!((t.time_limit_ms, t.memory_limit_mb), (5, 6));
        }
        _ => panic!("expected an execute task"),
    }
}

#[test]
fn batch_with_pending_batches_left_counts_down() {
    let reg = one_worker();
    let req = request("python", "x", vec![("t1", "", "1"), ("t2", "", "2")], 2000, 128);
    let mut job = submit_job(&reg, "job-8".to_string(), req).ok().unwrap().job;
    job.state = JobState::Executing { pending_batches: 2 };
    let mut tally = BatchTally::new(1);
    tally.record(&case("t1", "", "1"), RunOutcome::Finished { exit_code: 0, stdout: "1".to_string(), stderr: String::new() }, 1);
    assert!(tally.is_full());
    assert!(handle_batch_result(&mut job, tally.finish("job-8", "b1", "w1")).is_none());
    assert_eq!(job.state, JobState::Executing { pending_batches: 1 });
    assert_eq!(job.results.len(), 1);
    let mut tally = BatchTally::new(1);
    tally.record(&case("t2", "", "2"), RunOutcome::Finished { exit_code: 0, stdout: "3".to_string(), stderr: String::new() }, 1);
    let done = handle_batch_result(&mut job, tally.finish("job-8", "b2", "w1")).unwrap();
    assert_eq!(job.state, JobState::Completed);
    assert_eq!(done.results.len(), 2);
    assert_eq!(done.results[1].status, "FAILED");
}
