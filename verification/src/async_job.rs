//! Waiting for an asynchronous job: how often its status is asked for, what
//! each answer means, and when waiting ends.
//!
//! The caller owns the transport and the clock. It asks the status endpoint,
//! reports what came back, sleeps when told to, and stops when told to.

use crate::client::{bearer, duration_of_secs};
use crate::error::{ErrorModel, RenamedError};
use crate::models::{JobStatus, JobStatusResponse, PdfSplitResult};
use crate::text::{after_last, last_segment};
use std::time::Duration;
use vstd::prelude::*;
use vstd::string::StringExecFns;

verus! {

/// The seconds between two status checks where none are configured.
pub const DEFAULT_POLL_INTERVAL_SECS: u64 = 2;

/// The status checks of one wait where no number is configured.
pub const MAX_POLL_ATTEMPTS: u32 = 150;

/// What a job handle is made of.
pub struct JobConfig {
    /// The credential.
    pub api_key: Seq<char>,
    /// Where the job's status is asked for.
    pub status_url: Seq<char>,
    /// The pause between two status checks.
    pub poll_interval: Duration,
    /// The status checks that one wait may make.
    pub max_attempts: u32,
    /// Whether diagnostics are written.
    pub debug: bool,
}

/// A job that runs at the service and is polled until it has finished. It
/// has no `Debug`, which would show the credential.
#[derive(Clone)]
pub struct AsyncJob {
    api_key: String,
    status_url: String,
    poll_interval: Duration,
    max_attempts: u32,
    debug: bool,
}

impl View for AsyncJob {
    type V = JobConfig;

    closed spec fn view(&self) -> JobConfig {
        JobConfig {
            api_key: self.api_key@,
            status_url: self.status_url@,
            poll_interval: self.poll_interval,
            max_attempts: self.max_attempts,
            debug: self.debug,
        }
    }
}

/// A wait in progress: the number of status checks made so far.
#[derive(Debug, Clone, Copy, PartialEq, Eq, Structural)]
pub struct PollState {
    /// The status checks that have been answered.
    pub polls_made: u32,
}

/// What to do next while waiting.
#[derive(Debug)]
pub enum PollStep {
    /// Ask for the job's status and report the answer with
    /// [`AsyncJob::on_status`].
    Check(PollState),
    /// Sleep for `interval`, then go on with [`AsyncJob::resume`].
    Sleep { interval: Duration, next: PollState },
    /// The wait is over, with this result or this error.
    Done(Result<PdfSplitResult, RenamedError>),
}

/// The error of a wait whose status checks are used up. It names no job.
pub open spec fn timeout_error() -> ErrorModel {
    ErrorModel::Job { message: "Job polling timeout exceeded"@, job_id: None }
}

/// The error of a job that completed without a result.
pub open spec fn missing_result_error(job_id: Seq<char>) -> ErrorModel {
    ErrorModel::Job { message: "Job completed but no result returned"@, job_id: Some(job_id) }
}

/// The error of a job that failed: with the job's own message, or a fixed
/// one where it gave none.
pub open spec fn failed_job_error(error: Option<String>, job_id: Seq<char>) -> ErrorModel {
    ErrorModel::Job {
        message: match error {
            Some(text) => text@,
            None => "Job failed"@,
        },
        job_id: Some(job_id),
    }
}

/// Whether an answer of the status endpoint lets the wait go on: it is a
/// snapshot of a job that is pending or processing.
pub open spec fn keeps_waiting(outcome: Result<JobStatusResponse, RenamedError>) -> bool {
    outcome matches Ok(snapshot) && snapshot.status.in_progress()
}

/// The state after one more status check.
pub open spec fn advanced(state: PollState) -> PollState {
    PollState {
        polls_made: if state.polls_made < u32::MAX {
            (state.polls_made + 1) as u32
        } else {
            state.polls_made
        },
    }
}

/// The snapshot that an answer of the status endpoint shows to the progress
/// callback: the answer itself where the check succeeded, whatever the
/// job's status; none where the check failed.
pub open spec fn shown(outcome: Result<JobStatusResponse, RenamedError>) -> Option<
    JobStatusResponse,
> {
    match outcome {
        Ok(snapshot) => Some(snapshot),
        Err(_) => None,
    }
}

/// The snapshots that a wait of at most `max_attempts` shows to the progress
/// callback from `state` on, in order, when the status endpoint answers as
/// `outcomes` tell.
pub open spec fn snapshots_shown(
    max_attempts: u32,
    state: PollState,
    outcomes: Seq<Result<JobStatusResponse, RenamedError>>,
) -> Seq<JobStatusResponse>
    decreases outcomes.len(),
{
    if state.polls_made >= max_attempts || outcomes.len() == 0 {
        Seq::empty()
    } else {
        let first = match shown(outcomes[0]) {
            Some(snapshot) => seq![snapshot],
            None => Seq::empty(),
        };
        if keeps_waiting(outcomes[0]) {
            first + snapshots_shown(max_attempts, advanced(state), outcomes.drop_first())
        } else {
            first
        }
    }
}

/// The number of status checks that a wait of at most `max_attempts` makes
/// from `state` on when the status endpoint answers as `outcomes` tell, in
/// order.
pub open spec fn status_checks(
    max_attempts: u32,
    state: PollState,
    outcomes: Seq<Result<JobStatusResponse, RenamedError>>,
) -> nat
    decreases outcomes.len(),
{
    if state.polls_made >= max_attempts || outcomes.len() == 0 {
        0
    } else if keeps_waiting(outcomes[0]) {
        1 + status_checks(max_attempts, advanced(state), outcomes.drop_first())
    } else {
        1
    }
}

impl AsyncJob {
    /// A handle for the job whose status is found at `status_url`, polled
    /// every 2 seconds and at most 150 times.
    pub fn new(api_key: String, status_url: String, debug: bool) -> (r: AsyncJob)
        ensures
            r@ == (JobConfig {
                api_key: api_key@,
                status_url: status_url@,
                poll_interval: duration_of_secs(DEFAULT_POLL_INTERVAL_SECS),
                max_attempts: MAX_POLL_ATTEMPTS,
                debug,
            }),
    {
        AsyncJob {
            api_key,
            status_url,
            poll_interval: Duration::from_secs(DEFAULT_POLL_INTERVAL_SECS),
            max_attempts: MAX_POLL_ATTEMPTS,
            debug,
        }
    }

    /// The job's identifier as the status address shows it: what follows
    /// its last slash. For diagnostics only.
    pub fn extract_job_id(&self) -> (r: &str)
        ensures
            r@ == last_segment(self@.status_url, '/'),
    {
        after_last(self.status_url.as_str(), '/')
    }

    /// The same handle with another pause between status checks.
    pub fn with_poll_interval(self, interval: Duration) -> (r: AsyncJob)
        ensures
            r@ == (JobConfig { poll_interval: interval, ..self@ }),
    {
        AsyncJob {
            api_key: self.api_key,
            status_url: self.status_url,
            poll_interval: interval,
            max_attempts: self.max_attempts,
            debug: self.debug,
        }
    }

    /// The same handle with another number of status checks per wait.
    pub fn with_max_attempts(self, attempts: u32) -> (r: AsyncJob)
        ensures
            r@ == (JobConfig { max_attempts: attempts, ..self@ }),
    {
        AsyncJob {
            api_key: self.api_key,
            status_url: self.status_url,
            poll_interval: self.poll_interval,
            max_attempts: attempts,
            debug: self.debug,
        }
    }

    /// Where the job's status is asked for.
    pub fn status_url(&self) -> (r: &str)
        ensures
            r@ == self@.status_url,
    {
        self.status_url.as_str()
    }

    /// The pause between two status checks.
    pub fn poll_interval(&self) -> (r: Duration)
        ensures
            r == self@.poll_interval,
    {
        self.poll_interval
    }

    /// The status checks that one wait may make.
    pub fn max_attempts(&self) -> (r: u32)
        ensures
            r == self@.max_attempts,
    {
        self.max_attempts
    }

    /// Whether diagnostics are written.
    pub fn is_debug_enabled(&self) -> (r: bool)
        ensures
            r == self@.debug,
    {
        self.debug
    }

    /// The value of the `Authorization` header of every status check.
    pub fn authorization(&self) -> (r: String)
        ensures
            r@ == bearer(self@.api_key),
    {
        let mut out = String::from_str("Bearer ");
        out.append(self.api_key.as_str());
        out
    }

    /// The first step of a wait.
    pub fn begin_wait(&self) -> (step: PollStep)
        ensures
            self@.max_attempts > 0 ==> step == PollStep::Check(PollState { polls_made: 0 }),
            self@.max_attempts == 0 ==> (step matches PollStep::Done(Err(e)) && e@
                == timeout_error()),
    {
        self.resume(PollState { polls_made: 0 })
    }

    /// The step after a sleep, and the first: one more status check while
    /// the wait has some left, else the end of the wait with a timeout.
    pub fn resume(&self, state: PollState) -> (step: PollStep)
        ensures
            state.polls_made < self@.max_attempts ==> step == PollStep::Check(state),
            state.polls_made >= self@.max_attempts ==> (step matches PollStep::Done(Err(e)) && e@
                == timeout_error()),
    {
        if state.polls_made < self.max_attempts {
            PollStep::Check(state)
        } else {
            PollStep::Done(
                Err(
                    RenamedError::job_error(String::from_str("Job polling timeout exceeded"), None),
                ),
            )
        }
    }

    /// The step after a status check that was answered with `outcome`.
    ///
    /// A check that failed ends the wait with its error, unchanged. A
    /// snapshot is first shown to `on_progress`, where there is one. Then a
    /// completed job ends the wait with its result, or with an error where
    /// it has none; a failed job ends it with an error that carries the
    /// job's message and identifier; a job in progress is followed by a
    /// sleep of the poll interval.
    pub fn on_status<F: Fn(&JobStatusResponse)>(
        &self,
        state: PollState,
        outcome: Result<JobStatusResponse, RenamedError>,
        on_progress: Option<&F>,
    ) -> (step: PollStep)
        requires
            on_progress matches Some(f) ==> forall|s: &JobStatusResponse| call_requires(*f, (s,)),
        ensures
            match outcome {
                Err(err) => step == PollStep::Done(Err(err)),
                Ok(snapshot) => match snapshot.status {
                    JobStatus::Completed => match snapshot.result {
                        Some(result) => step == PollStep::Done(Ok(result)),
                        None => step matches PollStep::Done(Err(e)) && e@ == missing_result_error(
                            snapshot.job_id@,
                        ),
                    },
                    JobStatus::Failed => step matches PollStep::Done(Err(e)) && e@
                        == failed_job_error(snapshot.error, snapshot.job_id@),
                    _ => step == (PollStep::Sleep {
                        interval: self@.poll_interval,
                        next: advanced(state),
                    }),
                },
            },
            keeps_waiting(outcome) <==> step is Sleep,
            match (shown(outcome), on_progress) {
                (Some(snapshot), Some(f)) => call_ensures(*f, (&snapshot,), ()),
                _ => true,
            },
    {
        let snapshot = match outcome {
            Ok(snapshot) => snapshot,
            Err(err) => {
                return PollStep::Done(Err(err));
            },
        };
        if let Some(callback) = on_progress {
            callback(&snapshot);
        }
        match snapshot.status {
            JobStatus::Completed => match snapshot.result {
                Some(result) => PollStep::Done(Ok(result)),
                None => PollStep::Done(
                    Err(
                        RenamedError::job_error(
                            String::from_str("Job completed but no result returned"),
                            Some(snapshot.job_id),
                        ),
                    ),
                ),
            },
            JobStatus::Failed => {
                let message = match snapshot.error {
                    Some(text) => text,
                    None => String::from_str("Job failed"),
                };
                PollStep::Done(Err(RenamedError::job_error(message, Some(snapshot.job_id))))
            },
            _ => {
                let polls_made: u32 = if state.polls_made < u32::MAX {
                    state.polls_made + 1
                } else {
                    state.polls_made
                };
                PollStep::Sleep { interval: self.poll_interval, next: PollState { polls_made } }
            },
        }
    }
}

/// A wait never makes more status checks than it has left, however the
/// status endpoint answers.
pub proof fn lemma_poll_budget(
    max_attempts: u32,
    state: PollState,
    outcomes: Seq<Result<JobStatusResponse, RenamedError>>,
)
    ensures
        state.polls_made <= max_attempts ==> status_checks(max_attempts, state, outcomes)
            <= max_attempts - state.polls_made,
        state.polls_made >= max_attempts ==> status_checks(max_attempts, state, outcomes) == 0,
        status_checks(max_attempts, state, outcomes) <= outcomes.len(),
    decreases outcomes.len(),
{
    if state.polls_made < max_attempts && outcomes.len() > 0 && keeps_waiting(outcomes[0]) {
        lemma_poll_budget(max_attempts, advanced(state), outcomes.drop_first());
    }
}

/// While every answer shows the job in progress, a wait makes exactly the
/// status checks that it has left, and not one more.
pub proof fn lemma_poll_until_timeout(
    max_attempts: u32,
    state: PollState,
    outcomes: Seq<Result<JobStatusResponse, RenamedError>>,
)
    requires
        state.polls_made <= max_attempts,
        outcomes.len() >= max_attempts - state.polls_made,
        forall|i: int| 0 <= i < outcomes.len() ==> keeps_waiting(#[trigger] outcomes[i]),
    ensures
        status_checks(max_attempts, state, outcomes) == max_attempts - state.polls_made,
    decreases outcomes.len(),
{
    if state.polls_made < max_attempts {
        let rest = outcomes.drop_first();
        assert forall|i: int| 0 <= i < rest.len() implies keeps_waiting(#[trigger] rest[i]) by {
            assert(rest[i] == outcomes[i + 1]);
        }
        lemma_poll_until_timeout(max_attempts, advanced(state), rest);
    }
}

/// A wait ends with the first answer that does not show the job in
/// progress: after `k` answers that do, and one that does not, it has made
/// `k + 1` status checks, provided it had that many left.
pub proof fn lemma_poll_until_terminal(
    max_attempts: u32,
    state: PollState,
    outcomes: Seq<Result<JobStatusResponse, RenamedError>>,
    k: int,
)
    requires
        0 <= k < outcomes.len(),
        state.polls_made + k < max_attempts,
        forall|i: int| 0 <= i < k ==> keeps_waiting(#[trigger] outcomes[i]),
        !keeps_waiting(outcomes[k]),
    ensures
        status_checks(max_attempts, state, outcomes) == k + 1,
    decreases k,
{
    if k > 0 {
        let rest = outcomes.drop_first();
        assert forall|i: int| 0 <= i < k - 1 implies keeps_waiting(#[trigger] rest[i]) by {
            assert(rest[i] == outcomes[i + 1]);
        }
        assert(rest[k - 1] == outcomes[k]);
        assert(keeps_waiting(outcomes[0]));
        lemma_poll_until_terminal(max_attempts, advanced(state), rest, k - 1);
    }
}

/// A wait whose status checks are answered with snapshots of a job in
/// progress and then with one of a job that has finished shows each of these
/// snapshots to the progress callback, the last one too, in the order of
/// the checks, and no other: after `k` snapshots in progress and a final one,
/// `k + 1` snapshots were shown, provided the wait had that many checks
/// left.
pub proof fn lemma_progress_until_terminal(
    max_attempts: u32,
    state: PollState,
    outcomes: Seq<Result<JobStatusResponse, RenamedError>>,
    k: int,
)
    requires
        0 <= k < outcomes.len(),
        state.polls_made + k < max_attempts,
        forall|i: int| 0 <= i < k ==> keeps_waiting(#[trigger] outcomes[i]),
        outcomes[k] is Ok,
        !keeps_waiting(outcomes[k]),
    ensures
        snapshots_shown(max_attempts, state, outcomes).len() == k + 1,
        forall|i: int|
            0 <= i <= k ==> shown(outcomes[i]) == Some(
                #[trigger] snapshots_shown(max_attempts, state, outcomes)[i],
            ),
    decreases k,
{
    let all = snapshots_shown(max_attempts, state, outcomes);
    if k > 0 {
        let rest = outcomes.drop_first();
        assert forall|i: int| 0 <= i < k - 1 implies keeps_waiting(#[trigger] rest[i]) by {
            assert(rest[i] == outcomes[i + 1]);
        }
        assert(rest[k - 1] == outcomes[k]);
        assert(keeps_waiting(outcomes[0]));
        lemma_progress_until_terminal(max_attempts, advanced(state), rest, k - 1);
        let tail = snapshots_shown(max_attempts, advanced(state), rest);
        assert(all == seq![outcomes[0]->Ok_0] + tail);
        assert forall|i: int| 0 <= i <= k implies shown(outcomes[i]) == Some(#[trigger] all[i]) by {
            if i > 0 {
                assert(all[i] == tail[i - 1]);
                assert(rest[i - 1] == outcomes[i]);
            }
        }
    }
}

/// A wait shows at most one snapshot per status check, and exactly one where
/// every check is answered.
pub proof fn lemma_progress_per_check(
    max_attempts: u32,
    state: PollState,
    outcomes: Seq<Result<JobStatusResponse, RenamedError>>,
)
    ensures
        snapshots_shown(max_attempts, state, outcomes).len() <= status_checks(
            max_attempts,
            state,
            outcomes,
        ),
        (forall|i: int| 0 <= i < outcomes.len() ==> (#[trigger] outcomes[i]) is Ok)
            ==> snapshots_shown(max_attempts, state, outcomes).len() == status_checks(
            max_attempts,
            state,
            outcomes,
        ),
    decreases outcomes.len(),
{
    if state.polls_made < max_attempts && outcomes.len() > 0 && keeps_waiting(outcomes[0]) {
        let rest = outcomes.drop_first();
        lemma_progress_per_check(max_attempts, advanced(state), rest);
        if forall|i: int| 0 <= i < outcomes.len() ==> (#[trigger] outcomes[i]) is Ok {
            assert forall|i: int| 0 <= i < rest.len() implies (#[trigger] rest[i]) is Ok by {
                assert(rest[i] == outcomes[i + 1]);
            }
        }
    }
}

} // verus!
