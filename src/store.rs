use vstd::prelude::*;
use crate::json::{is_json_document, json_present_at, json_value_at, parse_json};
use crate::llm_response::LLMResponse;
use crate::task_status::TaskStatus;

verus! {

/// What a record's `result` holds after an update.
pub enum RecordResult {
    Empty,
    Completions { value: serde_json::Value },
    Error { message: String },
}

/// The fields merged onto the record of `message_id` by one status update.
/// Timestamps are UTC milliseconds since the epoch.
pub struct StatusUpdate {
    pub message_id: String,
    pub status: TaskStatus,
    pub started_at_ms: i64,
    pub completed_at_ms: i64,
    pub duration_ms: u64,
    pub result: RecordResult,
    pub cached: bool,
    pub attempt: u32,
}

/// The completion time is the later of `now` and the start, so that it
/// never precedes the start.
pub open spec fn completion_time(started_at_ms: i64, now_ms: i64) -> i64 {
    if now_ms >= started_at_ms {
        now_ms
    } else {
        started_at_ms
    }
}

impl StatusUpdate {
    /// Builds an update stamped at `now_ms`: `completed_at ≥ started_at`
    /// and `duration_ms = completed_at − started_at`.
    pub fn new(
        message_id: String,
        status: TaskStatus,
        result: RecordResult,
        cached: bool,
        attempt: u32,
        started_at_ms: i64,
        now_ms: i64,
    ) -> (r: StatusUpdate)
        ensures
            r.message_id == message_id,
            r.status == status,
            r.result == result,
            r.cached == cached,
            r.attempt == attempt,
            r.started_at_ms == started_at_ms,
            r.completed_at_ms == completion_time(started_at_ms, now_ms),
            r.duration_ms == r.completed_at_ms - r.started_at_ms,
    {
        let completed_at_ms = if now_ms >= started_at_ms {
            now_ms
        } else {
            started_at_ms
        };
        let duration_ms = (completed_at_ms as i128 - started_at_ms as i128) as u64;
        StatusUpdate {
            message_id,
            status,
            started_at_ms,
            completed_at_ms,
            duration_ms,
            result,
            cached,
            attempt,
        }
    }
}

/// A record as the store keeps it.
pub struct StoredRecord {
    pub status: TaskStatus,
    pub body_hash: Seq<char>,
    pub result: RecordResult,
    pub cached: bool,
    pub attempt: u32,
    pub started_at_ms: i64,
    pub completed_at_ms: i64,
    pub duration_ms: u64,
}

/// The store's contents, by message id.
pub type StoreContents = Map<Seq<char>, StoredRecord>;

/// The store after merging `u` onto its record. The producer creates each
/// record, so an update of an unknown id is refused and changes nothing.
/// Merging is last-writer-wins: replaying an update yields the same record.
pub open spec fn apply_update(store: StoreContents, u: StatusUpdate) -> StoreContents {
    let id = u.message_id@;
    if store.contains_key(id) {
        store.insert(
            id,
            StoredRecord {
                status: u.status,
                body_hash: store[id].body_hash,
                result: u.result,
                cached: u.cached,
                attempt: u.attempt,
                started_at_ms: u.started_at_ms,
                completed_at_ms: u.completed_at_ms,
                duration_ms: u.duration_ms,
            },
        )
    } else {
        store
    }
}

/// Whether the record `id` answers the cache query for `body_hash`.
pub open spec fn is_cache_hit(store: StoreContents, id: Seq<char>, body_hash: Seq<char>) -> bool {
    &&& store.contains_key(id)
    &&& store[id].status == TaskStatus::Completed
    &&& store[id].body_hash == body_hash
    &&& store[id].result is Completions
}

/// The completion trees that a cache query for `body_hash` may return.
pub open spec fn cache_candidates(store: StoreContents, body_hash: Seq<char>) -> Set<serde_json::Value> {
    Set::new(
        |v: serde_json::Value|
            exists|id: Seq<char>|
                is_cache_hit(store, id, body_hash) && store[id].result == (RecordResult::Completions {
                    value: v,
                }),
    )
}

/// A completed write of a known record is found by a later cache query for
/// that record's `body_hash`.
pub proof fn completed_write_is_found(store: StoreContents, u: StatusUpdate, v: serde_json::Value)
    requires
        store.contains_key(u.message_id@),
        u.status == TaskStatus::Completed,
        u.result == (RecordResult::Completions { value: v }),
    ensures
        cache_candidates(apply_update(store, u), store[u.message_id@].body_hash).contains(v),
{
    let after = apply_update(store, u);
    assert(is_cache_hit(after, u.message_id@, store[u.message_id@].body_hash));
}

/// When no other completed record shares the `body_hash`, the tree read
/// back is exactly the one persisted.
pub proof fn cache_returns_the_persisted_tree(store: StoreContents, u: StatusUpdate, v: serde_json::Value)
    requires
        store.contains_key(u.message_id@),
        u.status == TaskStatus::Completed,
        u.result == (RecordResult::Completions { value: v }),
        forall|id: Seq<char>|
            id != u.message_id@ ==> !#[trigger] is_cache_hit(store, id, store[u.message_id@].body_hash),
    ensures
        cache_candidates(apply_update(store, u), store[u.message_id@].body_hash) == set![v],
{
    let h = store[u.message_id@].body_hash;
    let after = apply_update(store, u);
    assert(is_cache_hit(after, u.message_id@, h));
    assert forall|w: serde_json::Value| cache_candidates(after, h).contains(w) implies w == v by {
        let id = choose|id: Seq<char>|
            is_cache_hit(after, id, h) && after[id].result == (RecordResult::Completions { value: w });
        if id != u.message_id@ {
            assert(is_cache_hit(store, id, h));
        }
    }
    assert(cache_candidates(after, h) =~= set![v]);
}

/// The query for the empty `body_hash` is made like any other, and it only
/// finds records whose own `body_hash` is empty.
pub proof fn empty_body_hash_matches_only_empty(store: StoreContents, id: Seq<char>)
    requires
        is_cache_hit(store, id, Seq::<char>::empty()),
    ensures
        store[id].body_hash.len() == 0,
{
}

/// Replaying an update leaves the store as the first application left it.
pub proof fn update_is_idempotent(store: StoreContents, u: StatusUpdate)
    ensures
        apply_update(apply_update(store, u), u) == apply_update(store, u),
{
    let once = apply_update(store, u);
    assert(apply_update(once, u) =~= once);
}

/// The cache lookup: the first record in state `COMPLETED` whose
/// `body_hash` equals the given one, the empty string included.
pub struct CacheQuery {
    pub status: TaskStatus,
    pub body_hash: String,
    pub size: u32,
}

impl CacheQuery {
    pub fn for_body_hash(body_hash: String) -> (r: CacheQuery)
        ensures
            r.status == TaskStatus::Completed,
            r.body_hash == body_hash,
            r.size == 1,
    {
        CacheQuery { status: TaskStatus::Completed, body_hash, size: 1 }
    }
}

/// Where the answer to a [`CacheQuery`] keeps the first hit's completions.
pub open spec fn first_hit_completions() -> Seq<char> {
    "/hits/hits/0/_source/completions"@
}

/// A store answer that is not a JSON document: a store failure, not a miss.
#[derive(Debug, Clone, Copy, PartialEq, Eq, Structural)]
pub struct UnreadableAnswer;

/// Reads the answer to a [`CacheQuery`], as the store sent it: the
/// `completions` of the first hit's `_source`, served as a cached response.
/// An answer without hits is a miss; an answer that is not JSON is an error.
pub fn completion_from_search(answer: &[u8]) -> (r: Result<Option<LLMResponse>, UnreadableAnswer>)
    ensures
        r is Err <==> !is_json_document(answer@),
        r matches Ok(hit) ==> (hit is Some <==> json_present_at(answer@, first_hit_completions())),
        r matches Ok(Some(c)) ==> c.cached && c.attempt == 0,
{
    if parse_json(answer).is_none() {
        return Err(UnreadableAnswer);
    }
    match json_value_at(answer, "/hits/hits/0/_source/completions") {
        Some(c) => Ok(Some(LLMResponse::from_cache(c))),
        None => Ok(None),
    }
}

} // verus!
