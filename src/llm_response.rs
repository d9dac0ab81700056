use vstd::prelude::*;

verus! {

/// What the upstream caller hands to the processor: the completion tree to
/// persist verbatim, whether it was served from the cache, and the zero-based
/// index of the attempt that produced it.
pub struct LLMResponse {
    pub completions: serde_json::Value,
    pub cached: bool,
    pub attempt: u32,
}

impl LLMResponse {
    /// A completion read back from a prior completed record.
    pub fn from_cache(completions: serde_json::Value) -> (r: LLMResponse)
        ensures
            r.completions == completions,
            r.cached,
            r.attempt == 0,
    {
        LLMResponse { completions, cached: true, attempt: 0 }
    }
}

} // verus!
