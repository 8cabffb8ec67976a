use code_judge::language::{
    classify_language, compile_recipe, join_flags, run_profile, unsupported_compile_message,
    LanguageClass,
};
use code_judge::model::{default_memory_limit, default_time_limit, TestCase};
use code_judge::registry::{Metrics, WorkerRegistry};
use code_judge::sandbox::{
    compile_container_name, compile_outcome, run_container_name, run_memory_bytes, stdin_command,
    ExecOutcome,
};
use code_judge::scheduler::{create_batches, least_loaded_worker, select_compile_worker, select_execution_workers};
use code_judge::stream::{on_stream_end, on_worker_message, JobReport, StreamSession, WorkerMessage};
use code_judge::tarball::{create_tar_archive, create_tar_archive_executable, extract_from_tar, is_plain_file_name};
use code_judge::text::{text_contains, trimmed_eq};
use code_judge::executor::{compile_finished, staging, staging_command_failure, staging_failed_batch, Staging};

fn load(reg: &mut WorkerRegistry, id: &str, hundredths: u32) {
    reg.heartbeat(&id.to_string(), Metrics { cpu_load_hundredths: hundredths, ram_usage_mb: 0, active_tasks: 0 });
}

fn cases(n: usize) -> Vec<TestCase> {
    (0..n)
        .map(|i| TestCase { id: format!("t{}", i), input: String::new(), expected_output: String::new() })
        .collect()
}

#[test]
fn language_classes_ignore_case() {
    assert_eq!(classify_language("PYTHON"), LanguageClass::Interpreted);
    assert_eq!(classify_language("Python3"), LanguageClass::Interpreted);
    assert_eq!(classify_language("node"), LanguageClass::Interpreted);
    assert_eq!(classify_language("Java"), LanguageClass::JvmBundled);
    assert_eq!(classify_language("GoLang"), LanguageClass::Native);
    assert_eq!(classify_language("c++"), LanguageClass::Native);
    assert_eq!(classify_language("cobol"), LanguageClass::Unsupported);
}

#[test]
fn compile_recipes_follow_the_table() {
    let flags = vec!["-O2".to_string(), "-Wall".to_string()];
    let r = compile_recipe("CPP", &flags).unwrap();
    assert_eq!(r.image, "gcc:latest");
    assert_eq!(r.source_file, "main.cpp");
    assert_eq!(r.command, "g++ -static -O2 -Wall -o /tmp/main /tmp/main.cpp");
    assert_eq!(r.artifact_path, "/tmp/main");
    let r = compile_recipe("c", &vec![]).unwrap();
    assert_eq!(r.command, "gcc -static  -o /tmp/main /tmp/main.c");
    let r = compile_recipe("rust", &flags).unwrap();
    assert_eq!(r.command, "rustc -O2 -Wall -o /tmp/main /tmp/main.rs");
    let r = compile_recipe("go", &flags).unwrap();
    assert_eq!(r.command, "go build -o /tmp/main /tmp/main.go");
    let r = compile_recipe("java", &flags).unwrap();
    assert_eq!(r.image, "eclipse-temurin:25");
    assert_eq!(r.artifact_path, "/tmp/java_bundle.tar");
    assert!(compile_recipe("python", &flags).is_none());
    assert_eq!(join_flags(&flags), "-O2 -Wall");
    assert_eq!(
        unsupported_compile_message("python"),
        "Unsupported compiled language: python. Interpreted languages (python, javascript, ruby) don't need compilation."
    );
}

#[test]
fn run_profiles_follow_the_table() {
    let p = run_profile("Python");
    assert_eq!(p.image, "python:3-slim");
    assert_eq!(p.source_file, "main.py");
    assert_eq!(p.run_command, "python /tmp/main.py");
    let p = run_profile("js");
    assert_eq!(p.image, "node:slim");
    assert_eq!(p.run_command, "node /tmp/main.js");
    let p = run_profile("ruby");
    assert_eq!(p.run_command, "ruby /tmp/main.rb");
    let p = run_profile("java");
    assert_eq!(p.image, "eclipse-temurin:25");
    assert_eq!(p.run_command, "java -cp /tmp/classes Main");
    let p = run_profile("cpp");
    assert_eq!(p.image, "debian:bookworm-slim");
    assert_eq!(p.run_command, "/tmp/main");
}

#[test]
fn stdin_line_quotes_input() {
    assert_eq!(stdin_command("21", "python /tmp/main.py"), "echo '21' | python /tmp/main.py");
    assert_eq!(stdin_command("it's", "/tmp/main"), "echo 'it'\\''s' | /tmp/main");
    assert_eq!(stdin_command("", "/tmp/main"), "echo '' | /tmp/main");
}

#[test]
fn container_names_and_limits() {
    assert_eq!(compile_container_name("a-b-c"), "compile_a_b_c");
    assert_eq!(run_container_name("a-b", "batch_1"), "run_a_b_batch_1");
    assert_eq!(run_memory_bytes(128), 134217728);
    assert_eq!(run_memory_bytes(32), 33554432);
    assert_eq!(default_time_limit(), 2000);
    assert_eq!(default_memory_limit(), 128);
}

#[test]
fn compile_outcomes() {
    let (ok, out) = compile_outcome(ExecOutcome::Exited { exit_code: 0, output: "fine".to_string() });
    assert!(ok);
    assert_eq!(out, "fine");
    let (ok, out) = compile_outcome(ExecOutcome::Exited { exit_code: 1, output: "error".to_string() });
    assert!(!ok);
    assert_eq!(out, "error");
    let (ok, out) = compile_outcome(ExecOutcome::Failed { message: "Execution timeout".to_string() });
    assert!(!ok);
    assert_eq!(out, "Execution timeout");
    let r = compile_finished("j", ExecOutcome::Exited { exit_code: 0, output: String::new() }, Some(vec![7, 7]), 3);
    assert!(r.success);
    assert_eq!(r.binary_payload, vec![7, 7]);
    let r = compile_finished("j", ExecOutcome::Exited { exit_code: 2, output: String::new() }, Some(vec![7]), 3);
    assert!(!r.success);
    assert!(r.binary_payload.is_empty());
    let r = compile_finished("j", ExecOutcome::Exited { exit_code: 0, output: "ok".to_string() }, None, 3);
    assert!(!r.success);
    assert_eq!(r.compiler_output, "Failed to download artifact");
    assert!(r.binary_payload.is_empty());
}

#[test]
fn staging_by_class() {
    assert_eq!(staging(LanguageClass::Interpreted, true, false), Staging::Source);
    assert_eq!(staging(LanguageClass::JvmBundled, false, true), Staging::Bundle);
    assert_eq!(staging(LanguageClass::Native, false, true), Staging::Binary);
    assert_eq!(staging(LanguageClass::Native, true, false), Staging::Nothing);
}

#[test]
fn batches_partition_in_order() {
    let b = create_batches(cases(45));
    assert_eq!(b.iter().map(|c| c.len()).collect::<Vec<_>>(), vec![20, 20, 5]);
    let flat: Vec<String> = b.into_iter().flatten().map(|c| c.id).collect();
    assert_eq!(flat, (0..45).map(|i| format!("t{}", i)).collect::<Vec<_>>());
    assert!(create_batches(vec![]).is_empty());
    let b = create_batches(cases(20));
    assert_eq!(b.len(), 1);
    assert_eq!(b[0].len(), 20);
}

#[test]
fn worker_selection() {
    let mut reg = WorkerRegistry::new();
    assert!(select_compile_worker(&reg).is_none());
    assert!(least_loaded_worker(&reg).is_none());
    reg.register("a".to_string(), 1, 2, 1024, vec!["can_compile".to_string()]);
    reg.register("b".to_string(), 1, 2, 1024, vec![]);
    reg.register("c".to_string(), 1, 2, 1024, vec!["high_memory".to_string(), "can_compile".to_string()]);
    reg.register("d".to_string(), 1, 2, 1024, vec![]);
    load(&mut reg, "a", 4000);
    load(&mut reg, "b", 1000);
    load(&mut reg, "c", 3000);
    load(&mut reg, "d", 9000);
    assert_eq!(select_compile_worker(&reg).unwrap(), "c");
    assert_eq!(least_loaded_worker(&reg).unwrap(), "b");
    assert_eq!(select_execution_workers(&reg, 2), vec!["b".to_string(), "c".to_string()]);
    assert_eq!(select_execution_workers(&reg, 10), vec!["b".to_string(), "c".to_string(), "a".to_string()]);
    assert!(select_execution_workers(&reg, 0).is_empty());
    load(&mut reg, "c", 5000);
    assert_eq!(select_compile_worker(&reg).unwrap(), "a");
    load(&mut reg, "a", 5000);
    assert!(select_compile_worker(&reg).is_none());
}

#[test]
fn stream_lifecycle() {
    let mut reg = WorkerRegistry::new();
    let mut session = StreamSession::new(1);
    let msg = WorkerMessage::Register {
        worker_id: "w9".to_string(),
        cpu_cores: 8,
        total_ram_mb: 16384,
        tags: vec!["can_compile".to_string()],
    };
    assert!(on_worker_message(&mut reg, &mut session, msg).is_none());
    assert_eq!(session.worker_id.as_deref(), Some("w9"));
    let w = reg.get(&"w9".to_string()).unwrap();
    assert_eq!(w.metrics, Metrics { cpu_load_hundredths: 0, ram_usage_mb: 0, active_tasks: 0 });
    assert_eq!(w.tags, vec!["can_compile".to_string()]);
    let hb = WorkerMessage::Heartbeat {
        worker_id: "w9".to_string(),
        metrics: Metrics { cpu_load_hundredths: 100, ram_usage_mb: 1, active_tasks: 1 },
    };
    assert!(on_worker_message(&mut reg, &mut session, hb).is_none());
    assert_eq!(reg.get(&"w9".to_string()).unwrap().metrics.active_tasks, 1);
    let report = WorkerMessage::CompileResult(code_judge::model::CompileResult {
        job_id: "j".to_string(),
        success: true,
        compiler_output: String::new(),
        binary_payload: vec![],
        duration_ms: 0,
    });
    assert!(matches!(on_worker_message(&mut reg, &mut session, report), Some(JobReport::Compile(_))));
    on_stream_end(&mut reg, session);
    assert!(reg.is_empty());
}

#[test]
fn tar_round_trip() {
    assert!(is_plain_file_name("main.py"));
    assert!(!is_plain_file_name("../x"));
    assert!(!is_plain_file_name(""));
    let a = create_tar_archive("main.py", b"print(1)\n");
    assert!(a.len() >= 1024);
    assert_eq!(extract_from_tar(&a).unwrap(), b"print(1)\n".to_vec());
    let b = create_tar_archive_executable("main", &[0x7f, b'E', b'L', b'F']);
    assert_eq!(extract_from_tar(&b).unwrap(), vec![0x7f, b'E', b'L', b'F']);
    assert_ne!(a, b);
    assert!(extract_from_tar(&[]).is_none());
}

#[test]
fn text_helpers() {
    assert!(trimmed_eq(" \t42\r\n", "42"));
    assert!(!trimmed_eq("4 2", "42"));
    assert!(trimmed_eq("", "  \n"));
    assert!(text_contains("process Killed", "Killed"));
    assert!(!text_contains("kill", "Killed"));
    assert!(text_contains("x", ""));
}

fn register_msg(id: &str) -> WorkerMessage {
    WorkerMessage::Register { worker_id: id.to_string(), cpu_cores: 1, total_ram_mb: 1, tags: vec![] }
}

#[test]
fn closing_an_old_stream_spares_a_reregistered_worker() {
    let mut reg = WorkerRegistry::new();
    let mut a = StreamSession::new(1);
    let mut b = StreamSession::new(2);
    on_worker_message(&mut reg, &mut a, register_msg("w"));
    on_worker_message(&mut reg, &mut b, register_msg("w"));
    on_stream_end(&mut reg, a);
    let w = reg.get(&"w".to_string()).unwrap();
    assert_eq!(w.stream_token, 2);
    on_stream_end(&mut reg, b);
    assert!(reg.get(&"w".to_string()).is_none());
}

#[test]
fn failed_staging_aborts_the_batch() {
    assert!(staging_command_failure(ExecOutcome::Exited { exit_code: 0, output: String::new() }).is_none());
    let cause = staging_command_failure(ExecOutcome::Exited { exit_code: 1, output: "chmod: denied".to_string() });
    assert_eq!(cause.as_deref(), Some("chmod: denied"));
    let r = staging_failed_batch("j", "b", "w", Some("Failed to upload source: gone".to_string())).unwrap();
    assert!(r.results.is_empty());
    assert_eq!(r.system_error, "Failed to upload source: gone");
    assert!(staging_failed_batch("j", "b", "w", None).is_none());
}
