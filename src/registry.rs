//! The master's worker registry: one entry per connected worker, keyed by
//! the id the worker chose, with its declared capacity and last-seen load.

use vstd::prelude::*;
use dashmap::DashMap;
use crate::text::clone_strings;

verus! {

/// Load as a worker last reported it. CPU load is counted in hundredths of
/// a percent (`4999` is 49.99 %).
#[derive(Debug, Clone, Copy, PartialEq, Eq, Structural)]
pub struct Metrics {
    pub cpu_load_hundredths: u32,
    pub ram_usage_mb: u64,
    pub active_tasks: u32,
}

/// What the registry keeps of one worker, beside its command sink.
pub struct WorkerInfo {
    /// The stream that registered this entry.
    pub stream_token: u64,
    pub cpu_cores: u32,
    pub total_ram_mb: u64,
    /// Capability tags, such as `can_compile`.
    pub tags: Vec<String>,
    pub metrics: Metrics,
}

pub struct WorkerInfoView {
    pub stream_token: u64,
    pub cpu_cores: u32,
    pub total_ram_mb: u64,
    pub tags: Seq<Seq<char>>,
    pub metrics: Metrics,
}

impl View for WorkerInfo {
    type V = WorkerInfoView;

    open spec fn view(&self) -> WorkerInfoView {
        WorkerInfoView {
            stream_token: self.stream_token,
            cpu_cores: self.cpu_cores,
            total_ram_mb: self.total_ram_mb,
            tags: self.tags@.map_values(|t: String| t@),
            metrics: self.metrics,
        }
    }
}

impl Clone for WorkerInfo {
    fn clone(&self) -> (r: WorkerInfo)
        ensures
            r@ == self@,
    {
        let tags = clone_strings(&self.tags);
        assert(tags@.map_values(|t: String| t@) =~= self.tags@.map_values(|t: String| t@));
        WorkerInfo {
            stream_token: self.stream_token,
            cpu_cores: self.cpu_cores,
            total_ram_mb: self.total_ram_mb,
            tags,
            metrics: self.metrics,
        }
    }
}

/// Worker ids with their statuses.
pub type WorkerMap = Map<Seq<char>, WorkerInfoView>;

pub open spec fn zero_metrics() -> Metrics {
    Metrics { cpu_load_hundredths: 0, ram_usage_mb: 0, active_tasks: 0 }
}

#[verifier::external_type_specification]
#[verifier::external_body]
#[verifier::reject_recursive_types(K)]
#[verifier::reject_recursive_types(V)]
#[verifier::reject_recursive_types(S)]
pub struct ExDashMap<K, V, S>(DashMap<K, V, S>);

/// What a worker map holds: each worker id with its status.
pub uninterp spec fn worker_entries(m: DashMap<String, WorkerInfo>) -> Map<Seq<char>, WorkerInfoView>;

/// Relies on `DashMap::new`: a new map is empty.
#[verifier::external_body]
fn new_worker_map() -> (r: DashMap<String, WorkerInfo>)
    ensures
        worker_entries(r) == WorkerMap::empty(),
{
    DashMap::new()
}

/// Relies on `DashMap::insert`: the key now maps to the value, replacing any
/// earlier entry, and no other entry changes.
#[verifier::external_body]
fn worker_map_insert(m: &mut DashMap<String, WorkerInfo>, id: String, w: WorkerInfo)
    ensures
        worker_entries(*final(m)) == worker_entries(*old(m)).insert(id@, w@),
{
    m.insert(id, w);
}

/// Relies on `DashMap::remove`: the key's entry, if any, is gone, and no other
/// entry changes.
#[verifier::external_body]
fn worker_map_remove(m: &mut DashMap<String, WorkerInfo>, id: &String)
    ensures
        worker_entries(*final(m)) == worker_entries(*old(m)).remove(id@),
{
    m.remove(id);
}

/// Relies on `DashMap::get`: a copy of the key's entry, if there is one.
#[verifier::external_body]
fn worker_map_get(m: &DashMap<String, WorkerInfo>, id: &String) -> (r: Option<WorkerInfo>)
    ensures
        r is Some <==> worker_entries(*m).contains_key(id@),
        r is Some ==> r->Some_0@ == worker_entries(*m)[id@],
{
    m.get(id).map(|e| e.value().clone())
}

/// Relies on `DashMap::iter`: every entry once, in an order the map chooses.
#[verifier::external_body]
fn worker_map_entries(m: &DashMap<String, WorkerInfo>) -> (r: Vec<(String, WorkerInfo)>)
    ensures
        forall|i: int| 0 <= i < r@.len() ==> #[trigger] worker_entries(*m).contains_key(r@[i].0@)
            && worker_entries(*m)[r@[i].0@] == r@[i].1@,
        forall|i: int, j: int| 0 <= i < j < r@.len() ==> r@[i].0@ != r@[j].0@,
        forall|k: Seq<char>| #[trigger] worker_entries(*m).contains_key(k) ==> exists|i: int| 0 <= i < r@.len() && r@[i].0@ == k,
{
    m.iter().map(|e| (e.key().clone(), e.value().clone())).collect()
}

/// The map after a heartbeat: a known worker takes the new metrics, and
/// nothing else changes.
pub open spec fn after_heartbeat(m: Map<Seq<char>, WorkerInfoView>, id: Seq<char>, metrics: Metrics) -> Map<Seq<char>, WorkerInfoView> {
    if m.contains_key(id) {
        m.insert(id, WorkerInfoView { metrics, ..m[id] })
    } else {
        m
    }
}

/// The status of a freshly registered worker.
pub open spec fn registered_status(stream_token: u64, cpu_cores: u32, total_ram_mb: u64, tags: Seq<Seq<char>>) -> WorkerInfoView {
    WorkerInfoView { stream_token, cpu_cores, total_ram_mb, tags, metrics: zero_metrics() }
}

/// `m` without `id` where the stream `token` owns its entry, else `m`.
pub open spec fn owned_removed(m: WorkerMap, id: Seq<char>, token: u64) -> WorkerMap {
    if m.contains_key(id) && m[id].stream_token == token {
        m.remove(id)
    } else {
        m
    }
}

/// The connected workers.
pub struct WorkerRegistry {
    workers: DashMap<String, WorkerInfo>,
}

impl View for WorkerRegistry {
    type V = Map<Seq<char>, WorkerInfoView>;

    closed spec fn view(&self) -> Map<Seq<char>, WorkerInfoView> {
        worker_entries(self.workers)
    }
}

impl WorkerRegistry {
    pub fn new() -> (r: WorkerRegistry)
        ensures
            r@ == WorkerMap::empty(),
    {
        WorkerRegistry { workers: new_worker_map() }
    }

    /// Records a worker with zero load, owned by the stream `stream_token`;
    /// an entry under the same id is replaced.
    pub fn register(&mut self, worker_id: String, stream_token: u64, cpu_cores: u32, total_ram_mb: u64, tags: Vec<String>)
        ensures
            final(self)@ == old(self)@.insert(
                worker_id@,
                registered_status(stream_token, cpu_cores, total_ram_mb, tags@.map_values(|t: String| t@)),
            ),
    {
        let status = WorkerInfo {
            stream_token,
            cpu_cores,
            total_ram_mb,
            tags,
            metrics: Metrics { cpu_load_hundredths: 0, ram_usage_mb: 0, active_tasks: 0 },
        };
        worker_map_insert(&mut self.workers, worker_id, status);
    }

    /// Refreshes a known worker's load; a heartbeat for an unknown id does nothing.
    pub fn heartbeat(&mut self, worker_id: &String, metrics: Metrics)
        ensures
            final(self)@ == after_heartbeat(old(self)@, worker_id@, metrics),
    {
        match worker_map_get(&self.workers, worker_id) {
            Some(w) => {
                let updated = WorkerInfo { metrics, ..w };
                assert(updated@ == WorkerInfoView { metrics, ..old(self)@[worker_id@] });
                worker_map_insert(&mut self.workers, worker_id.clone(), updated);
            },
            None => {},
        }
    }

    /// Forgets a worker whose stream has ended.
    pub fn remove(&mut self, worker_id: &String)
        ensures
            final(self)@ == old(self)@.remove(worker_id@),
    {
        worker_map_remove(&mut self.workers, worker_id);
    }

    /// Forgets a worker whose stream has ended, if the entry is still that
    /// stream's; an entry a later stream re-registered stays.
    pub fn remove_owned(&mut self, worker_id: &String, stream_token: u64)
        ensures
            final(self)@ == owned_removed(old(self)@, worker_id@, stream_token),
    {
        match worker_map_get(&self.workers, worker_id) {
            Some(w) => {
                if w.stream_token == stream_token {
                    worker_map_remove(&mut self.workers, worker_id);
                }
            },
            None => {},
        }
    }

    /// A worker's status, if it is connected.
    pub fn get(&self, worker_id: &String) -> (r: Option<WorkerInfo>)
        ensures
            r is Some <==> self@.contains_key(worker_id@),
            r is Some ==> r->Some_0@ == self@[worker_id@],
    {
        worker_map_get(&self.workers, worker_id)
    }

    /// Every connected worker once, each with its status.
    pub fn snapshot(&self) -> (r: Vec<(String, WorkerInfo)>)
        ensures
            forall|i: int| 0 <= i < r@.len() ==> #[trigger] self@.contains_key(r@[i].0@)
                && self@[r@[i].0@] == r@[i].1@,
            forall|i: int, j: int| 0 <= i < j < r@.len() ==> r@[i].0@ != r@[j].0@,
            forall|k: Seq<char>| #[trigger] self@.contains_key(k) ==> exists|i: int| 0 <= i < r@.len() && r@[i].0@ == k,
    {
        worker_map_entries(&self.workers)
    }

    /// Whether no worker is connected.
    pub fn is_empty(&self) -> (r: bool)
        ensures
            r <==> self@.dom() == Set::<Seq<char>>::empty(),
    {
        let all = self.snapshot();
        if all.len() == 0 {
            assert forall|k: Seq<char>| !self@.dom().contains(k) by {
                if self@.contains_key(k) {
                    let i = choose|i: int| 0 <= i < all@.len() && all@[i].0@ == k;
                }
            }
            assert(self@.dom() =~= Set::<Seq<char>>::empty());
            true
        } else {
            assert(self@.contains_key(all@[0].0@));
            assert(!Set::<Seq<char>>::empty().contains(all@[0].0@));
            false
        }
    }
}

/// Two identical heartbeats leave the registry as one does.
pub proof fn lemma_heartbeat_idempotent(m: Map<Seq<char>, WorkerInfoView>, id: Seq<char>, metrics: Metrics)
    ensures
        after_heartbeat(after_heartbeat(m, id, metrics), id, metrics) == after_heartbeat(m, id, metrics),
{
    if m.contains_key(id) {
        let once = after_heartbeat(m, id, metrics);
        assert(once.insert(id, WorkerInfoView { metrics, ..once[id] }) =~= once);
    }
}

/// A heartbeat for a worker that is not registered changes nothing.
pub proof fn lemma_heartbeat_unknown_noop(m: Map<Seq<char>, WorkerInfoView>, id: Seq<char>, metrics: Metrics)
    requires
        !m.contains_key(id),
    ensures
        after_heartbeat(m, id, metrics) == m,
{
}

} // verus!
