//! One worker's inbound stream as the master sees it: registration,
//! heartbeats and reports come in order, and the stream's end removes the
//! worker it registered unless a later stream has registered that id since.

use vstd::prelude::*;
use crate::model::{BatchExecutionResult, CompileResult};
use crate::registry::{after_heartbeat, owned_removed, registered_status, Metrics, WorkerMap, WorkerRegistry};

verus! {

/// A message from a worker.
pub enum WorkerMessage {
    Register { worker_id: String, cpu_cores: u32, total_ram_mb: u64, tags: Vec<String> },
    Heartbeat { worker_id: String, metrics: Metrics },
    CompileResult(CompileResult),
    BatchResult(BatchExecutionResult),
}

/// One open stream: a token no other stream shares, and the worker id it
/// registered, if any.
pub struct StreamSession {
    pub token: u64,
    pub worker_id: Option<String>,
}

impl StreamSession {
    pub fn new(token: u64) -> (r: StreamSession)
        ensures
            r.token == token,
            r.worker_id is None,
    {
        StreamSession { token, worker_id: None }
    }
}

/// A report that the job table must take.
pub enum JobReport {
    Compile(CompileResult),
    Batch(BatchExecutionResult),
}

/// The registry after `msg` arrives on the stream `token`.
pub open spec fn registry_after(m: WorkerMap, token: u64, msg: WorkerMessage) -> WorkerMap {
    match msg {
        WorkerMessage::Register { worker_id, cpu_cores, total_ram_mb, tags } => m.insert(
            worker_id@,
            registered_status(token, cpu_cores, total_ram_mb, tags@.map_values(|t: String| t@)),
        ),
        WorkerMessage::Heartbeat { worker_id, metrics } => after_heartbeat(m, worker_id@, metrics),
        _ => m,
    }
}

/// Applies one inbound message of the stream `session`; a registration
/// records the id in it. Job reports are handed back.
pub fn on_worker_message(registry: &mut WorkerRegistry, session: &mut StreamSession, msg: WorkerMessage) -> (r: Option<JobReport>)
    ensures
        final(registry)@ == registry_after(old(registry)@, old(session).token, msg),
        final(session).token == old(session).token,
        msg is Register ==> final(session).worker_id == Some(msg->Register_worker_id),
        !(msg is Register) ==> final(session).worker_id == old(session).worker_id,
        msg is CompileResult ==> r == Some(JobReport::Compile(msg->CompileResult_0)),
        msg is BatchResult ==> r == Some(JobReport::Batch(msg->BatchResult_0)),
        (msg is Register || msg is Heartbeat) ==> r is None,
{
    match msg {
        WorkerMessage::Register { worker_id, cpu_cores, total_ram_mb, tags } => {
            session.worker_id = Some(worker_id.clone());
            registry.register(worker_id, session.token, cpu_cores, total_ram_mb, tags);
            None
        },
        WorkerMessage::Heartbeat { worker_id, metrics } => {
            registry.heartbeat(&worker_id, metrics);
            None
        },
        WorkerMessage::CompileResult(c) => Some(JobReport::Compile(c)),
        WorkerMessage::BatchResult(b) => Some(JobReport::Batch(b)),
    }
}

/// The registry after the stream `session` ends: the worker it registered
/// leaves, unless a later stream owns that entry now.
pub open spec fn registry_after_close(m: WorkerMap, session: StreamSession) -> WorkerMap {
    match session.worker_id {
        Some(id) => owned_removed(m, id@, session.token),
        None => m,
    }
}

/// The stream has ended: the worker it registered leaves the registry if
/// its entry is still this stream's.
pub fn on_stream_end(registry: &mut WorkerRegistry, session: StreamSession)
    ensures
        final(registry)@ == registry_after_close(old(registry)@, session),
{
    match session.worker_id {
        Some(id) => registry.remove_owned(&id, session.token),
        None => {},
    }
}

/// A worker registered on a stream is in the registry, owned by that
/// stream, and is gone once that stream ends.
pub proof fn lemma_entry_follows_stream(m: WorkerMap, token: u64, msg: WorkerMessage)
    requires
        msg is Register,
    ensures
        registry_after(m, token, msg).contains_key(msg->Register_worker_id@),
        registry_after(m, token, msg)[msg->Register_worker_id@].stream_token == token,
        !registry_after_close(
            registry_after(m, token, msg),
            StreamSession { token, worker_id: Some(msg->Register_worker_id) },
        ).contains_key(msg->Register_worker_id@),
{
}

/// The end of a stream leaves alone an entry that another stream owns, so
/// a worker that re-registered on a new stream stays while that stream is open.
pub proof fn lemma_close_spares_newer_stream(m: WorkerMap, session: StreamSession, id: Seq<char>)
    requires
        m.contains_key(id),
        m[id].stream_token != session.token,
    ensures
        registry_after_close(m, session).contains_key(id),
        registry_after_close(m, session)[id] == m[id],
{
}

/// Messages on one stream never take away an entry, nor change its owner,
/// except that a registration of the same id makes this stream its owner.
pub proof fn lemma_message_keeps_owners(m: WorkerMap, token: u64, msg: WorkerMessage, id: Seq<char>)
    requires
        m.contains_key(id),
        !(msg is Register && msg->Register_worker_id@ == id),
    ensures
        registry_after(m, token, msg).contains_key(id),
        registry_after(m, token, msg)[id].stream_token == m[id].stream_token,
{
}

/// Something that happens to the registry: a message on a stream, or the
/// end of a stream.
pub enum StreamEvent {
    Arrive { token: u64, msg: WorkerMessage },
    End { session: StreamSession },
}

/// The registry after each of `es` in turn.
pub open spec fn deliver(m: WorkerMap, es: Seq<StreamEvent>) -> WorkerMap
    decreases es.len(),
{
    if es.len() == 0 {
        m
    } else {
        let next = match es[0] {
            StreamEvent::Arrive { token, msg } => registry_after(m, token, msg),
            StreamEvent::End { session } => registry_after_close(m, session),
        };
        deliver(next, es.drop_first())
    }
}

/// `e` neither re-registers `id` nor ends the stream `owner`.
pub open spec fn spares(e: StreamEvent, id: Seq<char>, owner: u64) -> bool {
    match e {
        StreamEvent::Arrive { msg, .. } => !(msg is Register && msg->Register_worker_id@ == id),
        StreamEvent::End { session } => session.token != owner,
    }
}

/// An entry stays, owned by the same stream, as long as that stream is open
/// and no other stream registers the same id, whatever else happens.
pub proof fn lemma_entry_stays_while_stream_open(m: WorkerMap, id: Seq<char>, es: Seq<StreamEvent>)
    requires
        m.contains_key(id),
        forall|i: int| 0 <= i < es.len() ==> spares(#[trigger] es[i], id, m[id].stream_token),
    ensures
        deliver(m, es).contains_key(id),
        deliver(m, es)[id].stream_token == m[id].stream_token,
    decreases es.len(),
{
    if es.len() > 0 {
        let next = match es[0] {
            StreamEvent::Arrive { token, msg } => registry_after(m, token, msg),
            StreamEvent::End { session } => registry_after_close(m, session),
        };
        assert(spares(es[0], id, m[id].stream_token));
        match es[0] {
            StreamEvent::Arrive { token, msg } => lemma_message_keeps_owners(m, token, msg, id),
            StreamEvent::End { session } => lemma_close_spares_newer_stream(m, session, id),
        }
        assert forall|i: int| 0 <= i < es.drop_first().len() implies spares(#[trigger] es.drop_first()[i], id, next[id].stream_token) by {
            assert(spares(es[i + 1], id, m[id].stream_token));
        }
        lemma_entry_stays_while_stream_open(next, id, es.drop_first());
    }
}

/// Messages other than a registration neither add nor remove a worker.
pub proof fn lemma_only_register_adds(m: WorkerMap, token: u64, msg: WorkerMessage)
    requires
        !(msg is Register),
    ensures
        registry_after(m, token, msg).dom() == m.dom(),
{
    match msg {
        WorkerMessage::Heartbeat { worker_id, metrics } => {
            if m.contains_key(worker_id@) {
                assert(registry_after(m, token, msg).dom() =~= m.dom());
            }
        },
        _ => {},
    }
}

} // verus!
