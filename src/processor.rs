use vstd::prelude::*;
use crate::json::{is_json_document, json_text_at, text_or_empty};
use crate::llm_response::LLMResponse;
use crate::message::{UpstreamRequest, decode_delivery, request_of};
use crate::retry::CallFailure;
use crate::store::{RecordResult, StatusUpdate, completion_time};
use crate::task_status::{TaskStatus, is_terminal_status};
use crate::upstream::error_text;

verus! {

/// How a delivery is settled with the broker.
#[derive(Debug, Clone, Copy, PartialEq, Eq, Structural)]
pub enum Settlement {
    Ack,
    Reject { requeue: bool },
}

/// Where the processing of one delivery stands.
#[derive(Debug, Clone, Copy, PartialEq, Eq, Structural)]
pub enum Stage {
    MarkingProcessing,
    ProbingCache,
    WritingCached,
    CallingUpstream,
    WritingCompleted,
    WritingFailed,
    Done,
}

/// What the driver of a task is asked to do next.
pub enum Action {
    Write { update: StatusUpdate },
    ProbeCache { body_hash: String },
    CallUpstream { request: UpstreamRequest },
    Settle { settlement: Settlement },
    /// End the task without settling the delivery.
    Stop,
}

/// What came back from the last action.
pub enum Event {
    WriteDone { ok: bool },
    CacheAnswer { hit: Option<LLMResponse> },
    /// The cache probe failed in the store; it is treated as a miss.
    CacheFailed,
    UpstreamDone { result: Result<LLMResponse, CallFailure> },
}

/// The lifecycle of one decoded delivery: mark it `PROCESSING`, probe the
/// cache, call upstream on a miss, write the terminal state, settle.
pub struct MessageTask {
    stage: Stage,
    message_id: String,
    body_hash: String,
    request: Option<UpstreamRequest>,
    started_at_ms: i64,
    settlements: Ghost<nat>,
    settled_with: Ghost<Option<Settlement>>,
    stored: Ghost<Option<TaskStatus>>,
    writes_ok: Ghost<bool>,
}

/// `r` writes `status` onto the record of `task`, stamped at `now_ms`.
pub open spec fn writes_status(
    r: Action,
    task: MessageTask,
    status: TaskStatus,
    cached: bool,
    attempt: u32,
    now_ms: i64,
) -> bool {
    &&& r matches Action::Write { update }
    &&& r->update.message_id@ == task.message_id_view()
    &&& r->update.status == status
    &&& r->update.cached == cached
    &&& r->update.attempt == attempt
    &&& r->update.started_at_ms == task.started_at()
    &&& r->update.completed_at_ms == completion_time(task.started_at(), now_ms)
    &&& r->update.duration_ms == r->update.completed_at_ms - r->update.started_at_ms
}

/// Whether `event` answers the action that a task at `stage` issued.
pub open spec fn answers(stage: Stage, event: Event) -> bool {
    match stage {
        Stage::MarkingProcessing | Stage::WritingCached | Stage::WritingCompleted
        | Stage::WritingFailed => event is WriteDone,
        Stage::ProbingCache => event is CacheAnswer || event is CacheFailed,
        Stage::CallingUpstream => event is UpstreamDone,
        Stage::Done => false,
    }
}

/// A terminal write that succeeded settles with an ack; one that failed
/// asks the broker to redeliver.
pub open spec fn terminal_settlement(ok: bool) -> Settlement {
    if ok {
        Settlement::Ack
    } else {
        Settlement::Reject { requeue: true }
    }
}

/// The status that a confirmed write issued at `stage` leaves on the record.
pub open spec fn written_status(stage: Stage) -> TaskStatus {
    match stage {
        Stage::WritingCached | Stage::WritingCompleted => TaskStatus::Completed,
        Stage::WritingFailed => TaskStatus::Failed,
        _ => TaskStatus::Processing,
    }
}

impl MessageTask {
    pub closed spec fn stage_of(self) -> Stage {
        self.stage
    }

    pub closed spec fn message_id_view(self) -> Seq<char> {
        self.message_id@
    }

    pub closed spec fn body_hash_view(self) -> Seq<char> {
        self.body_hash@
    }

    pub closed spec fn started_at(self) -> i64 {
        self.started_at_ms
    }

    /// The request still to be sent upstream.
    pub closed spec fn pending_request(self) -> Option<UpstreamRequest> {
        self.request
    }

    /// How many settlements have been issued so far.
    pub closed spec fn settlement_count(self) -> nat {
        self.settlements@
    }

    pub closed spec fn settlement(self) -> Option<Settlement> {
        self.settled_with@
    }

    /// The status that the store last confirmed for this record.
    pub closed spec fn stored_status(self) -> Option<TaskStatus> {
        self.stored@
    }

    /// Whether every store write so far succeeded.
    pub closed spec fn writes_confirmed(self) -> bool {
        self.writes_ok@
    }

    pub closed spec fn wf(self) -> bool {
        &&& self.settlements@ <= 1
        &&& (self.settlements@ == 1 <==> self.settled_with@ is Some)
        &&& self.stage != Stage::Done ==> self.settlements@ == 0
        &&& self.stage == Stage::MarkingProcessing ==> self.stored@ is None && self.writes_ok@
        &&& (self.stage == Stage::ProbingCache || self.stage == Stage::CallingUpstream
            || self.stage == Stage::WritingCached || self.stage == Stage::WritingCompleted
            || self.stage == Stage::WritingFailed) ==> self.stored@ == Some(TaskStatus::Processing)
            && self.writes_ok@
        &&& (self.stage == Stage::MarkingProcessing || self.stage == Stage::ProbingCache)
            ==> self.request is Some
        &&& self.stage == Stage::Done && self.writes_ok@ ==> self.settled_with@ is Some
            && (self.stored@ matches Some(s) && is_terminal_status(s))
    }

    /// Decodes a delivery and opens its task. Malformed input is rejected
    /// without requeue and never reaches the store; otherwise the first
    /// action marks the record `PROCESSING`.
    pub fn start(data: &[u8], started_at_ms: i64) -> (r: (Option<MessageTask>, Action))
        ensures
            !is_json_document(data@) ==> r.0 is None && r.1 == (Action::Settle {
                settlement: Settlement::Reject { requeue: false },
            }),
            is_json_document(data@) ==> (r.0 matches Some(t) && {
                &&& t.wf()
                &&& t.stage_of() == Stage::MarkingProcessing
                &&& t.started_at() == started_at_ms
                &&& t.message_id_view() == text_or_empty(json_text_at(data@, "/message_id"@))
                &&& t.body_hash_view() == text_or_empty(json_text_at(data@, "/body_hash"@))
                &&& (t.pending_request() matches Some(req) && request_of(req, data@))
                &&& t.settlement_count() == 0
                &&& t.stored_status() is None
                &&& t.writes_confirmed()
                &&& writes_status(r.1, t, TaskStatus::Processing, false, 0, started_at_ms)
                &&& r.1->update.result == RecordResult::Empty
            }),
    {
        match decode_delivery(data) {
            None => (None, Action::Settle { settlement: Settlement::Reject { requeue: false } }),
            Some(m) => {
                let update = StatusUpdate::new(
                    m.message_id.clone(),
                    TaskStatus::Processing,
                    RecordResult::Empty,
                    false,
                    0,
                    started_at_ms,
                    started_at_ms,
                );
                let task = MessageTask {
                    stage: Stage::MarkingProcessing,
                    message_id: m.message_id,
                    body_hash: m.body_hash,
                    request: Some(m.request),
                    started_at_ms,
                    settlements: Ghost(0),
                    settled_with: Ghost(None),
                    stored: Ghost(None),
                    writes_ok: Ghost(true),
                };
                (Some(task), Action::Write { update })
            },
        }
    }

    pub fn stage(&self) -> (r: Stage)
        ensures
            r == self.stage_of(),
    {
        self.stage
    }

    fn finish(&mut self, settlement: Settlement) -> (r: Action)
        requires
            old(self).settlements@ == 0,
            old(self).stage != Stage::Done,
        ensures
            r == (Action::Settle { settlement }),
            final(self).stage == Stage::Done,
            final(self).settlements@ == 1,
            final(self).settled_with@ == Some(settlement),
            final(self).message_id == old(self).message_id,
            final(self).body_hash == old(self).body_hash,
            final(self).request == old(self).request,
            final(self).started_at_ms == old(self).started_at_ms,
            final(self).stored == old(self).stored,
            final(self).writes_ok == old(self).writes_ok,
    {
        self.stage = Stage::Done;
        self.settlements = Ghost(1);
        self.settled_with = Ghost(Some(settlement));
        Action::Settle { settlement }
    }

    fn write(&mut self, stage: Stage, status: TaskStatus, result: RecordResult, cached: bool, attempt: u32, now_ms: i64) -> (r: Action)
        ensures
            writes_status(r, *old(self), status, cached, attempt, now_ms),
            r->update.result == result,
            final(self).stage == stage,
            final(self).message_id == old(self).message_id,
            final(self).body_hash == old(self).body_hash,
            final(self).request == old(self).request,
            final(self).started_at_ms == old(self).started_at_ms,
            final(self).settlements == old(self).settlements,
            final(self).settled_with == old(self).settled_with,
            final(self).stored == old(self).stored,
            final(self).writes_ok == old(self).writes_ok,
    {
        self.stage = stage;
        let update = StatusUpdate::new(
            self.message_id.clone(),
            status,
            result,
            cached,
            attempt,
            self.started_at_ms,
            now_ms,
        );
        Action::Write { update }
    }

    fn call_upstream(&mut self) -> (r: Action)
        requires
            old(self).wf(),
            old(self).stage == Stage::ProbingCache,
        ensures
            final(self).wf(),
            r == (Action::CallUpstream { request: old(self).request.unwrap() }),
            final(self).stage == Stage::CallingUpstream,
            final(self).message_id == old(self).message_id,
            final(self).body_hash == old(self).body_hash,
            final(self).started_at_ms == old(self).started_at_ms,
            final(self).settlements == old(self).settlements,
            final(self).settled_with == old(self).settled_with,
            final(self).stored == old(self).stored,
            final(self).writes_ok == old(self).writes_ok,
    {
        let request = self.request.take();
        self.stage = Stage::CallingUpstream;
        match request {
            Some(request) => Action::CallUpstream { request },
            None => Action::Stop,
        }
    }

    /// Advances the task by the answer to its last action, `now_ms` being
    /// the current time. An event that does not answer that action leaves
    /// the task as it is and stops it.
    pub fn step(&mut self, event: Event, now_ms: i64) -> (r: Action)
        requires
            old(self).wf(),
        ensures
            final(self).wf(),
            r is Settle ==> old(self).settlement_count() == 0 && final(self).settlement_count() == 1
                && final(self).settlement() == Some(r->settlement) && final(self).stage_of()
                == Stage::Done,
            !(old(self).stage_of() == Stage::ProbingCache && answers(old(self).stage_of(), event))
                ==> final(self).pending_request() == old(self).pending_request(),
            !(r is Settle) ==> final(self).settlement_count() == old(self).settlement_count(),
            !answers(old(self).stage_of(), event) ==> r is Stop && *final(self) == *old(self),
            final(self).message_id_view() == old(self).message_id_view(),
            final(self).body_hash_view() == old(self).body_hash_view(),
            final(self).started_at() == old(self).started_at(),
            answers(old(self).stage_of(), event) ==> (event matches Event::WriteDone { ok } ==> if ok {
                final(self).writes_confirmed() == old(self).writes_confirmed()
                    && final(self).stored_status() == Some(written_status(old(self).stage_of()))
            } else {
                !final(self).writes_confirmed() && final(self).stored_status() == old(self).stored_status()
            }),
            !(event is WriteDone) ==> final(self).writes_confirmed() == old(self).writes_confirmed()
                && final(self).stored_status() == old(self).stored_status(),
            old(self).stage_of() == Stage::MarkingProcessing ==> (event matches Event::WriteDone { ok }
                ==> if ok {
                r matches Action::ProbeCache { body_hash } && body_hash@ == old(self).body_hash_view()
                    && final(self).stage_of() == Stage::ProbingCache
            } else {
                r is Stop && final(self).stage_of() == Stage::Done
            }),
            old(self).stage_of() == Stage::ProbingCache ==> (event matches Event::CacheAnswer { hit }
                ==> match hit {
                Some(h) => writes_status(r, *old(self), TaskStatus::Completed, true, 0, now_ms)
                    && r->update.result == (RecordResult::Completions { value: h.completions })
                    && final(self).stage_of() == Stage::WritingCached,
                None => r == (Action::CallUpstream { request: old(self).pending_request().unwrap() })
                    && final(self).stage_of() == Stage::CallingUpstream,
            }),
            old(self).stage_of() == Stage::ProbingCache ==> (event is CacheFailed ==> r == (
            Action::CallUpstream { request: old(self).pending_request().unwrap() })
                && final(self).stage_of() == Stage::CallingUpstream),
            old(self).stage_of() == Stage::CallingUpstream ==> (event matches Event::UpstreamDone {
                result,
            } ==> match result {
                Ok(resp) => writes_status(r, *old(self), TaskStatus::Completed, false, resp.attempt, now_ms)
                    && r->update.result == (RecordResult::Completions { value: resp.completions })
                    && final(self).stage_of() == Stage::WritingCompleted,
                Err(f) => writes_status(r, *old(self), TaskStatus::Failed, false, f.attempt, now_ms)
                    && (r->update.result matches RecordResult::Error { message }
                    && message@ == error_text(f.error))
                    && final(self).stage_of() == Stage::WritingFailed,
            }),
            (old(self).stage_of() == Stage::WritingCached || old(self).stage_of() == Stage::WritingCompleted)
                ==> (event matches Event::WriteDone { ok } ==> r == (Action::Settle {
                settlement: terminal_settlement(ok),
            })),
            old(self).stage_of() == Stage::WritingFailed ==> (event is WriteDone ==> r == (Action::Settle {
                settlement: Settlement::Ack,
            })),
    {
        match event {
            Event::WriteDone { ok } => {
                match self.stage {
                    Stage::MarkingProcessing => {
                        if ok {
                            self.stage = Stage::ProbingCache;
                            self.stored = Ghost(Some(TaskStatus::Processing));
                            Action::ProbeCache { body_hash: self.body_hash.clone() }
                        } else {
                            self.stage = Stage::Done;
                            self.writes_ok = Ghost(false);
                            Action::Stop
                        }
                    },
                    Stage::WritingCached | Stage::WritingCompleted => {
                        if ok {
                            self.stored = Ghost(Some(TaskStatus::Completed));
                        } else {
                            self.writes_ok = Ghost(false);
                        }
                        self.finish(if ok { Settlement::Ack } else { Settlement::Reject { requeue: true } })
                    },
                    Stage::WritingFailed => {
                        if ok {
                            self.stored = Ghost(Some(TaskStatus::Failed));
                        } else {
                            self.writes_ok = Ghost(false);
                        }
                        self.finish(Settlement::Ack)
                    },
                    _ => Action::Stop,
                }
            },
            Event::CacheFailed => {
                if self.stage != Stage::ProbingCache {
                    return Action::Stop;
                }
                self.call_upstream()
            },
            Event::CacheAnswer { hit } => {
                if self.stage != Stage::ProbingCache {
                    return Action::Stop;
                }
                match hit {
                    Some(h) => self.write(
                        Stage::WritingCached,
                        TaskStatus::Completed,
                        RecordResult::Completions { value: h.completions },
                        true,
                        0,
                        now_ms,
                    ),
                    None => self.call_upstream(),
                }
            },
            Event::UpstreamDone { result } => {
                if self.stage != Stage::CallingUpstream {
                    return Action::Stop;
                }
                match result {
                    Ok(resp) => self.write(
                        Stage::WritingCompleted,
                        TaskStatus::Completed,
                        RecordResult::Completions { value: resp.completions },
                        false,
                        resp.attempt,
                        now_ms,
                    ),
                    Err(f) => {
                        let message = f.error.describe();
                        self.write(
                            Stage::WritingFailed,
                            TaskStatus::Failed,
                            RecordResult::Error { message },
                            false,
                            f.attempt,
                            now_ms,
                        )
                    },
                }
            },
        }
    }
}

/// Every task issues at most one settlement, whatever events it is fed.
pub proof fn settles_at_most_once(task: MessageTask)
    requires
        task.wf(),
    ensures
        task.settlement_count() <= 1,
        task.stage_of() != Stage::Done ==> task.settlement_count() == 0,
{
}

/// A task that finished with every store write confirmed leaves its record
/// in `COMPLETED` or `FAILED`, never in `PROCESSING`.
pub proof fn successful_processing_ends_terminal(task: MessageTask)
    requires
        task.wf(),
        task.stage_of() == Stage::Done,
        task.writes_confirmed(),
    ensures
        task.settlement() is Some,
        task.stored_status() matches Some(s) && is_terminal_status(s),
        task.stored_status() != Some(TaskStatus::Processing),
{
}

} // verus!
