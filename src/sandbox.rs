//! The sandbox's own decisions: container names and limits, the shell line
//! that feeds a test its input, and what a compile run amounts to.

use vstd::prelude::*;
use vstd::string::*;
use crate::text::char_vec;

verus! {

/// `s` with every `from` replaced by `to`.
pub open spec fn replace_char(s: Seq<char>, from: char, to: Seq<char>) -> Seq<char>
    decreases s.len(),
{
    if s.len() == 0 {
        Seq::empty()
    } else {
        replace_char(s.drop_last(), from, to) + if s.last() == from {
            to
        } else {
            seq![s.last()]
        }
    }
}

proof fn lemma_replace_plain_run(s: Seq<char>, from: char, to: Seq<char>, start: int, i: int)
    requires
        0 <= start <= i <= s.len(),
        forall|k: int| start <= k < i ==> s[k] != from,
    ensures
        replace_char(s.subrange(0, i), from, to) == replace_char(s.subrange(0, start), from, to)
            + s.subrange(start, i),
    decreases i - start,
{
    if i > start {
        lemma_replace_plain_run(s, from, to, start, i - 1);
        assert(s.subrange(0, i).drop_last() =~= s.subrange(0, i - 1));
        assert(s.subrange(start, i) =~= s.subrange(start, i - 1).push(s[i - 1]));
    } else {
        assert(s.subrange(start, i) =~= Seq::<char>::empty());
    }
}

/// `s` with every `from` replaced by `to`.
pub fn replace_char_with(s: &str, from: char, to: &str) -> (r: String)
    ensures
        r@ == replace_char(s@, from, to@),
{
    let v = char_vec(s);
    let n = v.len();
    let mut out = String::new();
    let mut start: usize = 0;
    let mut i: usize = 0;
    assert(s@.subrange(0, 0) =~= Seq::<char>::empty());
    while i < n
        invariant
            n == v@.len() == s@.len(),
            v@ == s@,
            start <= i <= n,
            out@ == replace_char(s@.subrange(0, start as int), from, to@),
            forall|k: int| start <= k < i ==> s@[k] != from,
        decreases n - i,
    {
        if v[i] == from {
            proof {
                lemma_replace_plain_run(s@, from, to@, start as int, i as int);
                assert(s@.subrange(0, i + 1).drop_last() =~= s@.subrange(0, i as int));
            }
            out.append(s.substring_char(start, i));
            out.append(to);
            start = i + 1;
        }
        i = i + 1;
    }
    proof {
        lemma_replace_plain_run(s@, from, to@, start as int, n as int);
        assert(s@.subrange(0, n as int) =~= s@);
    }
    out.append(s.substring_char(start, n));
    out
}

/// The shell line that pipes `input`, single-quoted, into `command`.
pub open spec fn stdin_line(input: Seq<char>, command: Seq<char>) -> Seq<char> {
    "echo '"@ + replace_char(input, '\'', "'\\''"@) + "' | "@ + command
}

/// The shell line that runs `command` with `input` on its stdin.
pub fn stdin_command(input: &str, command: &str) -> (r: String)
    ensures
        r@ == stdin_line(input@, command@),
{
    let escaped = replace_char_with(input, '\'', "'\\''");
    let mut line = String::from_str("echo '");
    line.append(escaped.as_str());
    line.append("' | ");
    line.append(command);
    line
}

/// A job id made safe for a container name.
pub open spec fn name_part(id: Seq<char>) -> Seq<char> {
    replace_char(id, '-', "_"@)
}

/// The name of the container that compiles a job.
pub fn compile_container_name(job_id: &str) -> (r: String)
    ensures
        r@ == "compile_"@ + name_part(job_id@),
{
    let part = replace_char_with(job_id, '-', "_");
    let mut name = String::from_str("compile_");
    name.append(part.as_str());
    name
}

/// The name of the container that runs one batch of a job.
pub fn run_container_name(job_id: &str, batch_id: &str) -> (r: String)
    ensures
        r@ == "run_"@ + name_part(job_id@) + "_"@ + batch_id@,
{
    let part = replace_char_with(job_id, '-', "_");
    let mut name = String::from_str("run_");
    name.append(part.as_str());
    name.append("_");
    name.append(batch_id);
    name
}

pub const MIB: i64 = 1048576;

/// Memory cap of a compile container: 512 MiB.
pub const COMPILE_MEMORY_BYTES: i64 = 536870912;

/// CPU share of a compile container: two CPUs.
pub const COMPILE_NANO_CPUS: i64 = 2000000000;

/// CPU share of an execute container: one CPU.
pub const RUN_NANO_CPUS: i64 = 1000000000;

/// Process cap of an execute container.
pub const RUN_PIDS_LIMIT: i64 = 50;

/// Wall-clock limit of a compile command.
pub const COMPILE_TIMEOUT_SECS: u64 = 60;

/// Memory cap of an execute container, in bytes.
pub fn run_memory_bytes(memory_limit_mb: u32) -> (r: i64)
    ensures
        r == memory_limit_mb as int * MIB,
{
    memory_limit_mb as i64 * MIB
}

/// How a command run inside a container ended.
pub enum ExecOutcome {
    /// It exited; `output` is its stdout and stderr together.
    Exited { exit_code: i64, output: String },
    /// It could not be run or followed, or it overran its time limit.
    Failed { message: String },
}

/// Whether a compile run succeeded, and the compiler output to surface.
pub open spec fn compile_outcome_of(o: ExecOutcome) -> (bool, Seq<char>) {
    match o {
        ExecOutcome::Exited { exit_code, output } => (exit_code == 0, output@),
        ExecOutcome::Failed { message } => (false, message@),
    }
}

/// Whether a compile run succeeded, and the compiler output to surface.
pub fn compile_outcome(o: ExecOutcome) -> (r: (bool, String))
    ensures
        r.0 == compile_outcome_of(o).0,
        r.1@ == compile_outcome_of(o).1,
{
    match o {
        ExecOutcome::Exited { exit_code, output } => (exit_code == 0, output),
        ExecOutcome::Failed { message } => (false, message),
    }
}

} // verus!
