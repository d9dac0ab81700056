use vstd::prelude::*;
use crate::backoff::{backoff_delay_ms, backoff_ms, max_int, valid_jitter};
use crate::llm_response::LLMResponse;
use crate::text::{parsed_unsigned, parsed_unsigned_is_natural};
use crate::upstream::{
    AttemptOutcome,
    EmbeddedError,
    UpstreamError,
    Wait,
    embedded_outcome,
    retry_after_wait,
    seconds_as_ms,
    status_outcome,
};

verus! {

/// The retry budget of one upstream call.
pub struct RetryPolicy {
    pub max_attempts: u32,
    pub base_delay_ms: u64,
    pub max_delay_s: u64,
}

/// The final failure of a call, with the index of the attempt that ended it.
pub struct CallFailure {
    pub attempt: u32,
    pub error: UpstreamError,
}

/// What the caller does next: send attempt `index` after sleeping
/// `delay_ms`, or stop with a result.
pub enum RetryStep {
    Attempt { index: u32, delay_ms: u64 },
    Finish { result: Result<LLMResponse, CallFailure> },
}

/// The sleep that `wait` asks for, given the backoff of the failed attempt.
pub open spec fn wait_ms(wait: Wait, backoff: int) -> int {
    match wait {
        Wait::Backoff => backoff,
        Wait::AtLeast { ms } => max_int(backoff, ms as int),
        Wait::Exactly { ms } => ms as int,
    }
}

impl RetryPolicy {
    pub open spec fn first_step_spec(self) -> RetryStep {
        if self.max_attempts == 0 {
            RetryStep::Finish {
                result: Err(CallFailure { attempt: 0, error: UpstreamError::NoAttemptAllowed }),
            }
        } else {
            RetryStep::Attempt { index: 0, delay_ms: 0 }
        }
    }

    /// The step after attempt `attempt` ended with `outcome`; `jitter_permille`
    /// is the jitter drawn for it.
    pub open spec fn step_after(
        self,
        attempt: u32,
        outcome: AttemptOutcome,
        jitter_permille: u64,
    ) -> RetryStep {
        match outcome {
            AttemptOutcome::Success { completions } => RetryStep::Finish {
                result: Ok(LLMResponse { completions, cached: false, attempt }),
            },
            AttemptOutcome::Permanent { error } => RetryStep::Finish {
                result: Err(CallFailure { attempt, error }),
            },
            AttemptOutcome::Transient { error, wait } => if attempt + 1 >= self.max_attempts {
                RetryStep::Finish { result: Err(CallFailure { attempt, error }) }
            } else {
                RetryStep::Attempt {
                    index: (attempt + 1) as u32,
                    delay_ms: wait_ms(
                        wait,
                        backoff_ms(self.base_delay_ms, attempt, jitter_permille, self.max_delay_s),
                    ) as u64,
                }
            },
        }
    }

    /// The first attempt is sent at once; a budget of zero attempts fails
    /// without sending anything.
    pub fn first_step(&self) -> (r: RetryStep)
        ensures
            r == self.first_step_spec(),
    {
        if self.max_attempts == 0 {
            RetryStep::Finish {
                result: Err(CallFailure { attempt: 0, error: UpstreamError::NoAttemptAllowed }),
            }
        } else {
            RetryStep::Attempt { index: 0, delay_ms: 0 }
        }
    }

    /// Decides what follows attempt `attempt`: success and permanent failures
    /// stop; a transient failure sleeps and retries while the budget lasts.
    pub fn after_attempt(&self, attempt: u32, outcome: AttemptOutcome, jitter_permille: u64) -> (r:
        RetryStep)
        requires
            attempt < self.max_attempts,
            valid_jitter(jitter_permille),
        ensures
            r == self.step_after(attempt, outcome, jitter_permille),
    {
        match outcome {
            AttemptOutcome::Success { completions } => RetryStep::Finish {
                result: Ok(LLMResponse { completions, cached: false, attempt }),
            },
            AttemptOutcome::Permanent { error } => RetryStep::Finish {
                result: Err(CallFailure { attempt, error }),
            },
            AttemptOutcome::Transient { error, wait } => {
                if attempt + 1 >= self.max_attempts {
                    RetryStep::Finish { result: Err(CallFailure { attempt, error }) }
                } else {
                    let backoff = backoff_delay_ms(
                        self.base_delay_ms,
                        attempt,
                        jitter_permille,
                        self.max_delay_s,
                    );
                    let delay_ms = match wait {
                        Wait::Backoff => backoff,
                        Wait::AtLeast { ms } => if ms > backoff {
                            ms
                        } else {
                            backoff
                        },
                        Wait::Exactly { ms } => ms,
                    };
                    RetryStep::Attempt { index: attempt + 1, delay_ms }
                }
            },
        }
    }
}

/// Runs the caller's decisions over scripted verdicts: `outcomes[k]` and
/// `jitters[k]` are what attempt `k` yields. Gives the number of requests
/// sent and whether the call succeeded.
pub open spec fn run_from(
    policy: RetryPolicy,
    outcomes: Seq<AttemptOutcome>,
    jitters: Seq<u64>,
    k: nat,
) -> (nat, bool)
    decreases outcomes.len() - k,
{
    if k >= outcomes.len() {
        (k, false)
    } else {
        match policy.step_after(k as u32, outcomes[k as int], jitters[k as int]) {
            RetryStep::Attempt { .. } => run_from(policy, outcomes, jitters, k + 1),
            RetryStep::Finish { result } => (k + 1, result is Ok),
        }
    }
}

pub open spec fn run_call(policy: RetryPolicy, outcomes: Seq<AttemptOutcome>, jitters: Seq<u64>) -> (nat, bool) {
    if policy.max_attempts == 0 {
        (0, false)
    } else {
        run_from(policy, outcomes, jitters, 0)
    }
}

pub open spec fn valid_jitters(jitters: Seq<u64>, n: int) -> bool {
    jitters.len() >= n && forall|i: int| 0 <= i < n ==> valid_jitter(#[trigger] jitters[i])
}

proof fn transient_run_from(
    policy: RetryPolicy,
    outcomes: Seq<AttemptOutcome>,
    jitters: Seq<u64>,
    k: nat,
)
    requires
        k < policy.max_attempts,
        outcomes.len() >= policy.max_attempts,
        forall|i: int| 0 <= i < outcomes.len() ==> #[trigger] outcomes[i] is Transient,
    ensures
        run_from(policy, outcomes, jitters, k) == (policy.max_attempts as nat, false),
    decreases policy.max_attempts - k,
{
    if k + 1 < policy.max_attempts {
        transient_run_from(policy, outcomes, jitters, k + 1);
    }
    assert(outcomes[k as int] is Transient);
}

/// When every attempt fails transiently (a 5xx status does), the caller sends
/// exactly `max_attempts` requests and then yields a failure.
pub proof fn transient_failures_use_every_attempt(
    policy: RetryPolicy,
    outcomes: Seq<AttemptOutcome>,
    jitters: Seq<u64>,
)
    requires
        outcomes.len() >= policy.max_attempts,
        forall|i: int| 0 <= i < outcomes.len() ==> #[trigger] outcomes[i] is Transient,
    ensures
        run_call(policy, outcomes, jitters) == (policy.max_attempts as nat, false),
{
    if policy.max_attempts > 0 {
        transient_run_from(policy, outcomes, jitters, 0);
    }
}

/// Against an endpoint that answers 500 every time, the caller sends exactly
/// `max_attempts` requests and then yields a failure.
pub proof fn always_failing_endpoint_gets_the_whole_budget(
    policy: RetryPolicy,
    retry_afters: Seq<Option<String>>,
    bodies: Seq<String>,
    jitters: Seq<u64>,
)
    requires
        retry_afters.len() == bodies.len(),
        bodies.len() >= policy.max_attempts,
    ensures
        run_call(
            policy,
            Seq::new(bodies.len(), |i: int| status_outcome(500, retry_afters[i], bodies[i])),
            jitters,
        ) == (policy.max_attempts as nat, false),
{
    let outcomes = Seq::new(bodies.len(), |i: int| status_outcome(500, retry_afters[i], bodies[i]));
    assert forall|i: int| 0 <= i < outcomes.len() implies #[trigger] outcomes[i] is Transient by {
    }
    transient_failures_use_every_attempt(policy, outcomes, jitters);
}

/// A 401 reply on the first attempt ends the call: one request, no sleep.
pub proof fn unauthorized_stops_at_once(
    policy: RetryPolicy,
    retry_after: Option<String>,
    body: String,
    outcomes: Seq<AttemptOutcome>,
    jitters: Seq<u64>,
)
    requires
        policy.max_attempts >= 1,
        outcomes.len() >= 1,
        outcomes[0] == status_outcome(401, retry_after, body),
    ensures
        policy.step_after(0, outcomes[0], jitters[0]) is Finish,
        run_call(policy, outcomes, jitters) == (1nat, false),
{
}

/// After a 429 reply whose `Retry-After` reads as `S` seconds, the sleep
/// before the next attempt is at least `S` seconds, counted in 64-bit
/// milliseconds (so saturated at the largest such count).
pub proof fn retry_after_bounds_the_sleep(
    policy: RetryPolicy,
    attempt: u32,
    header: String,
    body: String,
    jitter_permille: u64,
)
    requires
        attempt + 1 < policy.max_attempts,
        valid_jitter(jitter_permille),
        parsed_unsigned(header@, u64::MAX as int) is Some,
    ensures
        ({
            let secs = parsed_unsigned(header@, u64::MAX as int).unwrap();
            &&& policy.step_after(attempt, status_outcome(429, Some(header), body), jitter_permille) matches RetryStep::Attempt { index, delay_ms }
                && index == attempt + 1 && delay_ms >= seconds_as_ms(secs)
            &&& secs * 1000 <= u64::MAX ==> seconds_as_ms(secs) == secs * 1000
        }),
{
    let secs = parsed_unsigned(header@, u64::MAX as int).unwrap();
    parsed_unsigned_is_natural(header@, u64::MAX as int);
    assert(retry_after_wait(Some(header)) == (Wait::AtLeast { ms: seconds_as_ms(secs) }));
    let b = backoff_ms(policy.base_delay_ms, attempt, jitter_permille, policy.max_delay_s);
    let m = max_int(b, seconds_as_ms(secs) as int);
    assert(b <= u64::MAX);
    assert(seconds_as_ms(secs) <= m <= u64::MAX);
    assert(m as u64 >= seconds_as_ms(secs));
}

/// An embedded rate-limit error without a reset time waits two seconds.
pub proof fn embedded_rate_limit_waits_two_seconds(
    policy: RetryPolicy,
    attempt: u32,
    message: Option<String>,
    now_ms: u64,
    jitter_permille: u64,
)
    requires
        attempt + 1 < policy.max_attempts,
        valid_jitter(jitter_permille),
    ensures
        ({
            let e = EmbeddedError { has_code: true, code: Some(429), message, rate_limit_reset: None };
            &&& embedded_outcome(e, now_ms) is Some
            &&& policy.step_after(attempt, embedded_outcome(e, now_ms).unwrap(), jitter_permille) matches RetryStep::Attempt { delay_ms, .. }
                && delay_ms >= 2000
        }),
{
}

} // verus!
