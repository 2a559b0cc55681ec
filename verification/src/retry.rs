//! The retry policy of a request: how often it is sent, how long the waits
//! in between are, and which outcome of an attempt ends it.
//!
//! The caller owns the transport. It sends the request, reports how the
//! attempt ended, and does what the decision says.

use crate::error::{
    http_error, wraps_transport_failure, ApiErrorResponse, ErrorModel, RenamedError,
};
use vstd::arithmetic::power2::{lemma_pow2_strictly_increases, lemma_pow2_unfold, pow2};
use vstd::prelude::*;
use vstd::string::StringExecFns;

verus! {

/// How often a request is sent again, and the unit of the waits in between.
#[derive(Debug, Clone, Copy, PartialEq, Eq, Structural)]
pub struct RetryPolicy {
    /// How many times a request is sent again after a failed first attempt.
    pub max_attempts: u32,
    /// The wait before the first retry, in milliseconds.
    pub backoff_base_ms: u64,
}

/// How one attempt to send a request ended.
#[derive(Debug)]
pub enum AttemptOutcome {
    /// The service answered. `error_payload` is the body decoded as an error
    /// response, where it could be; it is read for an error status only.
    Response { status_code: u16, body: String, error_payload: Option<ApiErrorResponse> },
    /// The service answered, but its body could not be read.
    BodyLost(reqwest::Error),
    /// No answer was obtained: the connection failed or timed out.
    TransportFailure(reqwest::Error),
    /// The request cannot be sent again, as its body is a stream.
    NotResendable,
}

/// An execution in progress: the policy, and the number of attempts that
/// have failed so far.
#[derive(Debug, Clone, Copy, PartialEq, Eq, Structural)]
pub struct RetryState {
    /// The policy of this execution.
    pub policy: RetryPolicy,
    /// The attempts that failed for want of an answer.
    pub failed: u32,
}

/// What to do after an attempt.
#[derive(Debug)]
pub enum RetryDecision {
    /// Wait for `delay_ms` milliseconds, send the request again, and report
    /// the outcome to `next`.
    Retry { delay_ms: u64, next: RetryState },
    /// The execution is over, with this body or this error.
    Finished(Result<String, RenamedError>),
}

/// The wait after the failed attempt with index `k`, counted from 0: the base
/// doubled `k` times, or the longest wait that can be written where that is
/// longer still.
pub open spec fn backoff_delay(base: u64, k: nat) -> u64 {
    if base * pow2(k) <= u64::MAX {
        (base * pow2(k)) as u64
    } else {
        u64::MAX
    }
}

/// Whether a status is that of an error response.
pub open spec fn error_status(status_code: u16) -> bool {
    status_code >= 400
}

/// The wait and the state that follow `outcome` in `state`, where the
/// request is sent again: after a transport failure with retries left.
pub open spec fn retry_after(state: RetryState, outcome: AttemptOutcome) -> Option<(u64, RetryState)> {
    if outcome is TransportFailure && state.failed < state.policy.max_attempts {
        Some(
            (
                backoff_delay(state.policy.backoff_base_ms, state.failed as nat),
                RetryState { policy: state.policy, failed: (state.failed + 1) as u32 },
            ),
        )
    } else {
        None
    }
}

/// The error of a request that cannot be sent again.
pub open spec fn not_resendable_error() -> ErrorModel {
    ErrorModel::Network { message: "Failed to clone request for retry"@, source: None }
}

/// Whether `d` ends an execution with the error that the transport's
/// failure `err` amounts to: a timeout error where the transport reports a
/// timeout, else a network error with `err` as its source, which names the
/// failed connection where the transport reports one and carries the
/// transport's own description where it does not.
pub open spec fn finished_with_failure(d: RetryDecision, err: reqwest::Error) -> bool {
    d matches RetryDecision::Finished(Err(e)) && wraps_transport_failure(e@, err)
}

/// The number of attempts that an execution makes from `state` on when its
/// attempts end as `outcomes` tell, in order.
pub open spec fn attempts_made(state: RetryState, outcomes: Seq<AttemptOutcome>) -> nat
    decreases outcomes.len(),
{
    if outcomes.len() == 0 {
        0
    } else {
        match retry_after(state, outcomes[0]) {
            Some((_, next)) => 1 + attempts_made(next, outcomes.drop_first()),
            None => 1,
        }
    }
}

/// The waits of an execution from `state` on when its attempts end as
/// `outcomes` tell, in order.
pub open spec fn delays(state: RetryState, outcomes: Seq<AttemptOutcome>) -> Seq<u64>
    decreases outcomes.len(),
{
    if outcomes.len() == 0 {
        Seq::empty()
    } else {
        match retry_after(state, outcomes[0]) {
            Some((delay, next)) => seq![delay] + delays(next, outcomes.drop_first()),
            None => Seq::empty(),
        }
    }
}

/// Whether a status is that of an error response.
pub fn is_error_status(status_code: u16) -> (r: bool)
    ensures
        r == error_status(status_code),
{
    status_code >= 400
}

/// What a response amounts to: its body, or for an error status the error
/// that the status and the decoded body stand for.
pub fn response_outcome(status_code: u16, body: String, error_payload: Option<ApiErrorResponse>) -> (r:
    Result<String, RenamedError>)
    ensures
        error_status(status_code) ==> (r matches Err(e) && e@ == http_error(
            status_code,
            error_payload,
        )),
        !error_status(status_code) ==> r == Ok::<String, RenamedError>(body),
{
    if is_error_status(status_code) {
        Err(RenamedError::from_http_status(status_code, error_payload))
    } else {
        Ok(body)
    }
}

impl RetryPolicy {
    /// A policy of `max_attempts` retries with waits that start at
    /// `backoff_base_ms` milliseconds.
    pub fn new(max_attempts: u32, backoff_base_ms: u64) -> (r: RetryPolicy)
        ensures
            r == (RetryPolicy { max_attempts, backoff_base_ms }),
    {
        RetryPolicy { max_attempts, backoff_base_ms }
    }

    /// The wait, in milliseconds, after the failed attempt with index
    /// `failed_attempt`, counted from 0.
    pub fn delay_after(&self, failed_attempt: u32) -> (d: u64)
        ensures
            d == backoff_delay(self.backoff_base_ms, failed_attempt as nat),
    {
        let base: u64 = self.backoff_base_ms;
        if base == 0 {
            assert(0 * pow2(failed_attempt as nat) == 0);
            return 0;
        }
        let mut d: u64 = base;
        let mut i: u32 = 0;
        proof {
            vstd::arithmetic::power2::lemma2_to64();
        }
        while i < failed_attempt && d <= u64::MAX / 2
            invariant
                i <= failed_attempt,
                base >= 1,
                d == base * pow2(i as nat),
            decreases failed_attempt - i,
        {
            proof {
                lemma_pow2_unfold((i + 1) as nat);
                assert(base * (2 * pow2(i as nat)) == 2 * (base * pow2(i as nat)))
                    by (nonlinear_arith);
            }
            d = d * 2;
            i += 1;
        }
        if i < failed_attempt {
            proof {
                lemma_doubling_grows(base, (i + 1) as nat, failed_attempt as nat);
                lemma_pow2_unfold((i + 1) as nat);
                assert(base * (2 * pow2(i as nat)) == 2 * (base * pow2(i as nat)))
                    by (nonlinear_arith);
            }
            u64::MAX
        } else {
            d
        }
    }
}

/// A base that is doubled more often does not get smaller.
pub proof fn lemma_doubling_grows(base: u64, j: nat, k: nat)
    requires
        j <= k,
    ensures
        base * pow2(j) <= base * pow2(k),
{
    if j < k {
        lemma_pow2_strictly_increases(j, k);
    }
    assert(pow2(j) <= pow2(k) ==> base * pow2(j) <= base * pow2(k)) by (nonlinear_arith);
}

/// Each wait is twice the one before it, as long as it can be written.
pub proof fn lemma_backoff_doubles(base: u64, k: nat)
    requires
        base * pow2(k + 1) <= u64::MAX,
    ensures
        backoff_delay(base, 0) == base,
        backoff_delay(base, k + 1) == 2 * backoff_delay(base, k),
{
    vstd::arithmetic::power2::lemma2_to64();
    lemma_pow2_unfold(k + 1);
    assert(base * (2 * pow2(k)) == 2 * (base * pow2(k))) by (nonlinear_arith);
}

impl RetryState {
    /// The state before the first attempt.
    pub fn start(policy: RetryPolicy) -> (r: RetryState)
        ensures
            r == (RetryState { policy, failed: 0 }),
    {
        RetryState { policy, failed: 0 }
    }

    /// What follows an attempt that ended as `outcome`.
    ///
    /// A transport failure is followed by another attempt while the policy
    /// has retries left, after a wait that doubles with each failure; the
    /// last such failure ends the execution and is returned as a timeout or
    /// network error. Any answer of the service ends the execution at once:
    /// with its body, or for an error status with the classified error. So
    /// does a lost body, and a request that cannot be sent again.
    pub fn step(self, outcome: AttemptOutcome) -> (d: RetryDecision)
        ensures
            retry_after(self, outcome) is None <==> d is Finished,
            match outcome {
                AttemptOutcome::TransportFailure(err) => match retry_after(self, outcome) {
                    Some((delay_ms, next)) => d == (RetryDecision::Retry { delay_ms, next }),
                    None => finished_with_failure(d, err),
                },
                AttemptOutcome::BodyLost(err) => finished_with_failure(d, err),
                AttemptOutcome::Response { status_code, body, error_payload } => {
                    if error_status(status_code) {
                        d matches RetryDecision::Finished(Err(e)) && e@ == http_error(
                            status_code,
                            error_payload,
                        )
                    } else {
                        d == RetryDecision::Finished(Ok(body))
                    }
                },
                AttemptOutcome::NotResendable => d matches RetryDecision::Finished(Err(e)) && e@
                    == not_resendable_error(),
            },
    {
        match outcome {
            AttemptOutcome::Response { status_code, body, error_payload } => {
                RetryDecision::Finished(response_outcome(status_code, body, error_payload))
            },
            AttemptOutcome::BodyLost(err) => RetryDecision::Finished(
                Err(RenamedError::from_reqwest(err)),
            ),
            AttemptOutcome::TransportFailure(err) => {
                if self.failed < self.policy.max_attempts {
                    RetryDecision::Retry {
                        delay_ms: self.policy.delay_after(self.failed),
                        next: RetryState { policy: self.policy, failed: self.failed + 1 },
                    }
                } else {
                    RetryDecision::Finished(Err(RenamedError::from_reqwest(err)))
                }
            },
            AttemptOutcome::NotResendable => RetryDecision::Finished(
                Err(
                    RenamedError::Network {
                        message: String::from_str("Failed to clone request for retry"),
                        source: None,
                    },
                ),
            ),
        }
    }
}

/// An execution whose attempts all fail for want of an answer makes one
/// attempt more than the policy has retries, counted from the failures
/// already made, and waits before each retry for the base doubled once per
/// failure so far.
pub proof fn lemma_persistent_failure_from(state: RetryState, outcomes: Seq<AttemptOutcome>)
    requires
        state.failed <= state.policy.max_attempts,
        outcomes.len() > state.policy.max_attempts - state.failed,
        forall|i: int| 0 <= i < outcomes.len() ==> outcomes[i] is TransportFailure,
    ensures
        attempts_made(state, outcomes) == state.policy.max_attempts - state.failed + 1,
        delays(state, outcomes).len() == state.policy.max_attempts - state.failed,
        forall|k: int|
            0 <= k < state.policy.max_attempts - state.failed ==> #[trigger] delays(
                state,
                outcomes,
            )[k] == backoff_delay(state.policy.backoff_base_ms, (state.failed + k) as nat),
    decreases outcomes.len(),
{
    if state.failed < state.policy.max_attempts {
        let next = RetryState { policy: state.policy, failed: (state.failed + 1) as u32 };
        let rest = outcomes.drop_first();
        assert forall|i: int| 0 <= i < rest.len() implies rest[i] is TransportFailure by {
            assert(rest[i] == outcomes[i + 1]);
        }
        lemma_persistent_failure_from(next, rest);
        let first = backoff_delay(state.policy.backoff_base_ms, state.failed as nat);
        assert(delays(state, outcomes) == seq![first] + delays(next, rest));
        assert forall|k: int|
            0 <= k < state.policy.max_attempts - state.failed implies #[trigger] delays(
            state,
            outcomes,
        )[k] == backoff_delay(state.policy.backoff_base_ms, (state.failed + k) as nat) by {
            if k > 0 {
                assert(delays(state, outcomes)[k] == delays(next, rest)[k - 1]);
            }
        }
    }
}

/// With every attempt failing for want of an answer, a request is sent
/// exactly once more than the policy has retries. The wait before retry
/// `k`, counted from 1, stands at index `k - 1` of the waits, and is the base
/// doubled `k - 1` times (where that many milliseconds can be written at all).
pub proof fn lemma_persistent_failure(policy: RetryPolicy, outcomes: Seq<AttemptOutcome>)
    requires
        outcomes.len() > policy.max_attempts,
        forall|i: int| 0 <= i < outcomes.len() ==> outcomes[i] is TransportFailure,
    ensures
        attempts_made(RetryState { policy, failed: 0 }, outcomes) == policy.max_attempts + 1,
        delays(RetryState { policy, failed: 0 }, outcomes).len() == policy.max_attempts,
        forall|j: int|
            0 <= j < policy.max_attempts && policy.backoff_base_ms * pow2(j as nat) <= u64::MAX
                ==> #[trigger] delays(RetryState { policy, failed: 0 }, outcomes)[j]
                == policy.backoff_base_ms * pow2(j as nat),
{
    let start = RetryState { policy, failed: 0 };
    lemma_persistent_failure_from(start, outcomes);
    assert forall|j: int|
        0 <= j < policy.max_attempts && policy.backoff_base_ms * pow2(j as nat)
            <= u64::MAX implies #[trigger] delays(start, outcomes)[j] == policy.backoff_base_ms
        * pow2(j as nat) by {
        assert(delays(start, outcomes)[j] == backoff_delay(
            policy.backoff_base_ms,
            (start.failed + j) as nat,
        ));
    }
}

/// Once the service has answered, whatever the status, the execution is
/// over: that attempt is the last, and no wait follows it.
pub proof fn lemma_answer_ends_execution(state: RetryState, outcomes: Seq<AttemptOutcome>)
    requires
        outcomes.len() > 0,
        !(outcomes[0] is TransportFailure),
    ensures
        attempts_made(state, outcomes) == 1,
        delays(state, outcomes) == Seq::<u64>::empty(),
{
}

/// However its attempts end, an execution never sends a request more often
/// than once plus the retries that its policy has left, and waits at most
/// once per attempt.
pub proof fn lemma_attempts_bounded(state: RetryState, outcomes: Seq<AttemptOutcome>)
    requires
        state.failed <= state.policy.max_attempts,
    ensures
        attempts_made(state, outcomes) <= state.policy.max_attempts - state.failed + 1,
        attempts_made(state, outcomes) <= outcomes.len(),
        delays(state, outcomes).len() <= attempts_made(state, outcomes),
        delays(state, outcomes).len() <= state.policy.max_attempts - state.failed,
    decreases outcomes.len(),
{
    if outcomes.len() > 0 {
        match retry_after(state, outcomes[0]) {
            Some((_, next)) => {
                lemma_attempts_bounded(next, outcomes.drop_first());
            },
            None => {},
        }
    }
}

} // verus!
