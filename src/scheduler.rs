//! Worker selection and test batching. Selection reads one snapshot of the
//! registry; a chosen worker may leave before it is used.

use vstd::prelude::*;
use crate::model::TestCase;
use crate::registry::{WorkerRegistry, WorkerInfo, WorkerInfoView, WorkerMap};
use crate::text::text_eq;

verus! {

/// Test cases per batch.
pub const BATCH_SIZE: usize = 20;

/// A compile worker must report a CPU load under 50 %.
pub const COMPILE_LOAD_CEILING: u32 = 5000;

/// An execution worker must report a CPU load under 80 %.
pub const EXECUTION_LOAD_CEILING: u32 = 8000;

pub open spec fn has_tag(tags: Seq<Seq<char>>, tag: Seq<char>) -> bool {
    exists|i: int| 0 <= i < tags.len() && tags[i] == tag
}

pub open spec fn load_of(w: WorkerInfoView) -> u32 {
    w.metrics.cpu_load_hundredths
}

/// A worker that may take a compile task.
pub open spec fn compile_eligible(w: WorkerInfoView) -> bool {
    has_tag(w.tags, "can_compile"@) && load_of(w) < COMPILE_LOAD_CEILING
}

/// A worker that may take an execute task.
pub open spec fn execution_eligible(w: WorkerInfoView) -> bool {
    load_of(w) < EXECUTION_LOAD_CEILING
}

/// `id` names an eligible worker of `m` whose load no other eligible worker undercuts.
pub open spec fn least_loaded_among(m: WorkerMap, id: Seq<char>, compile_only: bool) -> bool {
    &&& m.contains_key(id)
    &&& (compile_only ==> compile_eligible(m[id]))
    &&& forall|k: Seq<char>| #[trigger] m.contains_key(k) && (compile_only ==> compile_eligible(m[k]))
            ==> load_of(m[id]) <= load_of(m[k])
}

fn worker_has_tag(w: &WorkerInfo, tag: &str) -> (r: bool)
    ensures
        r == has_tag(w@.tags, tag@),
{
    let mut i: usize = 0;
    while i < w.tags.len()
        invariant
            i <= w.tags@.len(),
            forall|t: int| 0 <= t < i ==> w@.tags[t] != tag@,
        decreases w.tags@.len() - i,
    {
        if text_eq(w.tags[i].as_str(), tag) {
            assert(w@.tags[i as int] == tag@);
            return true;
        }
        i = i + 1;
    }
    false
}

/// The least-loaded worker, among those fit to compile when `compile_only`.
fn least_loaded(registry: &WorkerRegistry, compile_only: bool) -> (r: Option<String>)
    ensures
        r is None <==> forall|k: Seq<char>| #[trigger] registry@.contains_key(k)
            ==> (compile_only && !compile_eligible(registry@[k])),
        r is Some ==> least_loaded_among(registry@, r->Some_0@, compile_only),
{
    let all = registry.snapshot();
    let mut best: Option<usize> = None;
    let mut i: usize = 0;
    while i < all.len()
        invariant
            i <= all@.len(),
            forall|j: int| 0 <= j < all@.len() ==> #[trigger] registry@.contains_key(all@[j].0@)
                && registry@[all@[j].0@] == all@[j].1@,
            best is Some ==> best->Some_0 < i && (compile_only ==> compile_eligible(all@[best->Some_0 as int].1@)),
            best is None ==> forall|j: int| 0 <= j < i ==> compile_only && !compile_eligible(#[trigger] all@[j].1@),
            best is Some ==> forall|j: int| 0 <= j < i && (compile_only ==> compile_eligible(#[trigger] all@[j].1@))
                ==> load_of(all@[best->Some_0 as int].1@) <= load_of(all@[j].1@),
        decreases all@.len() - i,
    {
        let ok = !compile_only || (worker_has_tag(&all[i].1, "can_compile")
            && all[i].1.metrics.cpu_load_hundredths < COMPILE_LOAD_CEILING);
        if ok {
            match best {
                Some(b) => {
                    if all[i].1.metrics.cpu_load_hundredths < all[b].1.metrics.cpu_load_hundredths {
                        best = Some(i);
                    }
                },
                None => {
                    best = Some(i);
                },
            }
        }
        i = i + 1;
    }
    match best {
        Some(b) => {
            assert(registry@.contains_key(all@[b as int].0@));
            assert forall|k: Seq<char>| #[trigger] registry@.contains_key(k) && (compile_only ==> compile_eligible(registry@[k]))
                implies load_of(registry@[all@[b as int].0@]) <= load_of(registry@[k]) by {
                let j = choose|j: int| 0 <= j < all@.len() && all@[j].0@ == k;
                assert(registry@.contains_key(all@[j].0@));
            }
            Some(all[b].0.clone())
        },
        None => {
            assert forall|k: Seq<char>| #[trigger] registry@.contains_key(k)
                implies (compile_only && !compile_eligible(registry@[k])) by {
                let j = choose|j: int| 0 <= j < all@.len() && all@[j].0@ == k;
                assert(registry@.contains_key(all@[j].0@));
            }
            None
        },
    }
}

/// A worker for a compile task: tagged `can_compile`, under 50 % load, and
/// least loaded among such; `None` when there is none.
pub fn select_compile_worker(registry: &WorkerRegistry) -> (r: Option<String>)
    ensures
        r is None <==> forall|k: Seq<char>| #[trigger] registry@.contains_key(k) ==> !compile_eligible(registry@[k]),
        r is Some ==> least_loaded_among(registry@, r->Some_0@, true),
{
    least_loaded(registry, true)
}

/// The least-loaded connected worker; `None` when none is connected.
pub fn least_loaded_worker(registry: &WorkerRegistry) -> (r: Option<String>)
    ensures
        r is None <==> registry@.dom() == Set::<Seq<char>>::empty(),
        r is Some ==> least_loaded_among(registry@, r->Some_0@, false),
{
    let r = least_loaded(registry, false);
    if r.is_none() {
        assert(registry@.dom() =~= Set::<Seq<char>>::empty());
    } else {
        assert(registry@.dom().contains(r->Some_0@));
    }
    r
}

/// The ids that `select_execution_workers` may return for `count` over `m`:
/// distinct eligible workers in ascending load, none undercut by an eligible
/// worker left out, and all of them when fewer than `count` are eligible.
pub open spec fn execution_choice(m: WorkerMap, count: nat, r: Seq<Seq<char>>) -> bool {
    &&& r.len() <= count
    &&& forall|i: int| 0 <= i < r.len() ==> #[trigger] m.contains_key(r[i]) && execution_eligible(m[r[i]])
    &&& forall|i: int, j: int| 0 <= i < j < r.len() ==> r[i] != r[j]
    &&& forall|i: int, j: int| 0 <= i < j < r.len() ==> load_of(m[r[i]]) <= load_of(m[r[j]])
    &&& forall|k: Seq<char>| #[trigger] m.contains_key(k) && execution_eligible(m[k]) && !r.contains(k)
            ==> forall|i: int| 0 <= i < r.len() ==> load_of(m[r[i]]) <= load_of(m[k])
    &&& r.len() < count ==> forall|k: Seq<char>| #[trigger] m.contains_key(k) && execution_eligible(m[k]) ==> r.contains(k)
}

/// Up to `count` workers under 80 % load, least loaded first.
pub fn select_execution_workers(registry: &WorkerRegistry, count: usize) -> (r: Vec<String>)
    ensures
        execution_choice(registry@, count as nat, r@.map_values(|s: String| s@)),
{
    let all = registry.snapshot();
    let ghost m = registry@;
    assert forall|j: int| 0 <= j < all@.len() implies #[trigger] m.contains_key(all@[j].0@) && m[all@[j].0@] == all@[j].1@ by {
        assert(registry@.contains_key(all@[j].0@));
    }
    let mut cand: Vec<(String, u32)> = Vec::new();
    let ghost mut src: Seq<int> = Seq::empty();
    let mut i: usize = 0;
    while i < all.len()
        invariant
            i <= all@.len(),
            src.len() == cand@.len(),
            forall|j: int| 0 <= j < cand@.len() ==> 0 <= #[trigger] src[j] < i && all@[src[j]].0@ == cand@[j].0@
                && cand@[j].1 == load_of(all@[src[j]].1@) && execution_eligible(all@[src[j]].1@),
            forall|a: int, b: int| 0 <= a < b < cand@.len() ==> src[a] < src[b],
            forall|t: int| 0 <= t < i && execution_eligible(#[trigger] all@[t].1@)
                ==> exists|j: int| 0 <= j < cand@.len() && src[j] == t,
        decreases all@.len() - i,
    {
        let load = all[i].1.metrics.cpu_load_hundredths;
        if load < EXECUTION_LOAD_CEILING {
            let ghost old_src = src;
            cand.push((all[i].0.clone(), load));
            proof {
                src = src.push(i as int);
                assert forall|t: int| 0 <= t < i + 1 && execution_eligible(#[trigger] all@[t].1@)
                    implies exists|j: int| 0 <= j < cand@.len() && src[j] == t by {
                    if t == i {
                        assert(src[old_src.len() as int] == t);
                    } else {
                        let j = choose|j: int| 0 <= j < old_src.len() && old_src[j] == t;
                        assert(src[j] == t);
                    }
                }
            }
        }
        i = i + 1;
    }
    proof {
        assert forall|j: int| 0 <= j < cand@.len() implies #[trigger] m.contains_key(cand@[j].0@)
            && execution_eligible(m[cand@[j].0@]) && cand@[j].1 == load_of(m[cand@[j].0@]) by {
            assert(m.contains_key(all@[src[j]].0@));
        }
        assert forall|a: int, b: int| 0 <= a < b < cand@.len() implies cand@[a].0@ != cand@[b].0@ by {
            assert(src[a] < src[b]);
        }
        // every eligible worker is a candidate
        assert forall|k: Seq<char>| #[trigger] m.contains_key(k) && execution_eligible(m[k])
            implies exists|j: int| 0 <= j < cand@.len() && cand@[j].0@ == k by {
            let t = choose|t: int| 0 <= t < all@.len() && all@[t].0@ == k;
            assert(m.contains_key(all@[t].0@));
            let j = choose|j: int| 0 <= j < cand@.len() && src[j] == t;
            assert(cand@[j].0@ == k);
        }
    }
    let n = cand.len();
    let mut taken: Vec<bool> = Vec::new();
    let mut z: usize = 0;
    while z < n
        invariant
            z <= n,
            taken@.len() == z,
            forall|j: int| 0 <= j < z ==> !taken@[j],
        decreases n - z,
    {
        taken.push(false);
        z = z + 1;
    }
    let mut out: Vec<String> = Vec::new();
    let ghost mut picked: Seq<int> = Seq::empty();
    loop
        invariant
            n == cand@.len() == taken@.len(),
            out@.len() == picked.len() <= count,
            forall|j: int| 0 <= j < n ==> #[trigger] m.contains_key(cand@[j].0@)
                && execution_eligible(m[cand@[j].0@]) && cand@[j].1 == load_of(m[cand@[j].0@]),
            forall|a: int, b: int| 0 <= a < b < n ==> cand@[a].0@ != cand@[b].0@,
            forall|k: Seq<char>| #[trigger] m.contains_key(k) && execution_eligible(m[k])
                ==> exists|j: int| 0 <= j < n && cand@[j].0@ == k,
            forall|i: int| 0 <= i < picked.len() ==> 0 <= #[trigger] picked[i] < n && taken@[picked[i]]
                && out@[i]@ == cand@[picked[i]].0@,
            forall|j: int| 0 <= j < n && #[trigger] taken@[j] ==> exists|i: int| 0 <= i < picked.len() && picked[i] == j,
            forall|a: int, b: int| 0 <= a < b < picked.len() ==> picked[a] != picked[b],
            forall|a: int, b: int| 0 <= a < b < picked.len() ==> cand@[picked[a]].1 <= cand@[picked[b]].1,
            forall|i: int, j: int| 0 <= i < picked.len() && 0 <= j < n && !taken@[j]
                ==> #[trigger] cand@[picked[i]].1 <= #[trigger] cand@[j].1,
        ensures
            out@.len() < count ==> forall|t: int| 0 <= t < n ==> #[trigger] taken@[t],
        decreases n - picked.len(),
    {
        if out.len() >= count {
            break;
        }
        let mut best: Option<usize> = None;
        let mut j: usize = 0;
        while j < n
            invariant
                n == cand@.len() == taken@.len(),
                j <= n,
                best is Some ==> best->Some_0 < j && !taken@[best->Some_0 as int],
                best is Some ==> forall|t: int| 0 <= t < j && !taken@[t] ==> cand@[best->Some_0 as int].1 <= #[trigger] cand@[t].1,
                best is None ==> forall|t: int| 0 <= t < j ==> #[trigger] taken@[t],
            decreases n - j,
        {
            if !taken[j] {
                match best {
                    Some(b) => {
                        if cand[j].1 < cand[b].1 {
                            best = Some(j);
                        }
                    },
                    None => {
                        best = Some(j);
                    },
                }
            }
            j = j + 1;
        }
        match best {
            None => {
                break;
            },
            Some(b) => {
                proof {
                    // all taken entries are picked, so fewer than n are picked before
                    assert(picked.len() < n) by {
                        let untaken = b as int;
                        assert(!taken@[untaken]);
                        lemma_picked_short(picked, taken@, n as int, untaken);
                    }
                }
                let ghost old_taken = taken@;
                let ghost old_picked = picked;
                taken.set(b, true);
                out.push(cand[b].0.clone());
                proof {
                    picked = picked.push(b as int);
                    assert forall|jj: int| 0 <= jj < n && #[trigger] taken@[jj]
                        implies exists|i: int| 0 <= i < picked.len() && picked[i] == jj by {
                        if jj != b {
                            assert(old_taken[jj]);
                            let i = choose|i: int| 0 <= i < old_picked.len() && old_picked[i] == jj;
                            assert(picked[i] == jj);
                        } else {
                            assert(picked[picked.len() - 1] == jj);
                        }
                    }
                }
            },
        }
    }
    proof {
        let rv = out@.map_values(|s: String| s@);
        assert forall|i: int| 0 <= i < rv.len() implies rv[i] == cand@[picked[i]].0@ by {}
        assert forall|i: int| 0 <= i < rv.len() implies #[trigger] m.contains_key(rv[i]) && execution_eligible(m[rv[i]]) by {
            assert(m.contains_key(cand@[picked[i]].0@));
        }
        assert forall|k: Seq<char>| #[trigger] m.contains_key(k) && execution_eligible(m[k]) && !rv.contains(k)
            implies forall|i: int| 0 <= i < rv.len() ==> load_of(m[rv[i]]) <= load_of(m[k]) by {
            let j = choose|j: int| 0 <= j < n && cand@[j].0@ == k;
            if taken@[j] {
                let i = choose|i: int| 0 <= i < picked.len() && picked[i] == j;
                assert(rv[i] == k);
            }
            assert forall|i: int| 0 <= i < rv.len() implies load_of(m[rv[i]]) <= load_of(m[k]) by {
                assert(m.contains_key(cand@[picked[i]].0@));
                assert(m.contains_key(cand@[j].0@));
            }
        }
        assert forall|a: int, b: int| 0 <= a < b < rv.len() implies load_of(m[rv[a]]) <= load_of(m[rv[b]]) by {
            assert(m.contains_key(cand@[picked[a]].0@));
            assert(m.contains_key(cand@[picked[b]].0@));
        }
        if rv.len() < count {
            assert forall|k: Seq<char>| #[trigger] m.contains_key(k) && execution_eligible(m[k]) implies rv.contains(k) by {
                let j = choose|j: int| 0 <= j < n && cand@[j].0@ == k;
                // the loop ended with nothing left untaken
                assert(taken@[j]);
                let i = choose|i: int| 0 <= i < picked.len() && picked[i] == j;
                assert(rv[i] == k);
            }
        }
    }
    out
}

/// The batches laid end to end.
pub open spec fn concat_batches(b: Seq<Seq<TestCase>>) -> Seq<TestCase>
    decreases b.len(),
{
    if b.len() == 0 {
        Seq::empty()
    } else {
        concat_batches(b.drop_last()) + b.last()
    }
}

pub open spec fn batch_views(b: Seq<Vec<TestCase>>) -> Seq<Seq<TestCase>> {
    b.map_values(|c: Vec<TestCase>| c@)
}

/// `b` splits `cases` into runs of `BATCH_SIZE` in order, the last possibly
/// shorter, none empty.
pub open spec fn is_batching(cases: Seq<TestCase>, b: Seq<Seq<TestCase>>) -> bool {
    &&& concat_batches(b) == cases
    &&& forall|i: int| 0 <= i < b.len() ==> 0 < #[trigger] b[i].len() <= BATCH_SIZE
    &&& forall|i: int| 0 <= i < b.len() - 1 ==> #[trigger] b[i].len() == BATCH_SIZE
}

/// Splits the test cases into batches of `BATCH_SIZE`, keeping their order.
pub fn create_batches(test_cases: Vec<TestCase>) -> (r: Vec<Vec<TestCase>>)
    ensures
        is_batching(test_cases@, batch_views(r@)),
{
    let ghost all = test_cases@;
    let mut rest = test_cases;
    let mut out: Vec<Vec<TestCase>> = Vec::new();
    assert(concat_batches(batch_views(out@)) + rest@ =~= all);
    while rest.len() > 0
        invariant_except_break
            concat_batches(batch_views(out@)) + rest@ == all,
            forall|i: int| 0 <= i < out@.len() ==> #[trigger] out@[i]@.len() == BATCH_SIZE,
        ensures
            is_batching(all, batch_views(out@)),
        decreases rest@.len(),
    {
        let ghost before = out@;
        if rest.len() <= BATCH_SIZE {
            out.push(rest);
            rest = Vec::new();
            assert(batch_views(out@).drop_last() =~= batch_views(before));
            assert(concat_batches(batch_views(out@)) =~= all);
            assert(is_batching(all, batch_views(out@)));
            break;
        } else {
            let tail = rest.split_off(BATCH_SIZE);
            out.push(rest);
            rest = tail;
            assert(batch_views(out@).drop_last() =~= batch_views(before));
            assert(concat_batches(batch_views(out@)) + rest@ =~= all);
        }
    }
    out
}

/// Fewer indices are picked than there are candidates while one stays untaken.
proof fn lemma_picked_short(picked: Seq<int>, taken: Seq<bool>, n: int, untaken: int)
    requires
        taken.len() == n,
        0 <= untaken < n,
        !taken[untaken],
        forall|i: int| 0 <= i < picked.len() ==> 0 <= #[trigger] picked[i] < n && taken[picked[i]],
        forall|a: int, b: int| 0 <= a < b < picked.len() ==> picked[a] != picked[b],
    ensures
        picked.len() < n,
{
    let s = picked.to_set();
    let full = vstd::set_lib::set_int_range(0, n);
    vstd::set_lib::lemma_int_range(0, n);
    picked.unique_seq_to_set();
    assert(s.subset_of(full.remove(untaken)));
    vstd::set_lib::lemma_len_subset(s, full.remove(untaken));
}

} // verus!
