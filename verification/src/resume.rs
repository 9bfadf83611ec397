//! The decisions of the resumable download loop: where each attempt starts,
//! and what follows a failed attempt.

use vstd::prelude::*;

use crate::download::{
    allows_attempt, is_unsupported_resume_error, range_not_honored_text, retry_allows_attempt,
    retry_sleep_secs, retryable, should_retry_boxed_download, should_retry_download, sleep_secs,
};
use crate::error::QuarkPanError;
use crate::options::{RetryBackoff, RetryMode};

verus! {

/// The retry settings of one download.
#[derive(Debug, Clone, Copy, PartialEq, Eq, Structural)]
pub struct RetryPolicy {
    pub retry: RetryMode,
    pub retry_delay: u64,
    pub retry_max_delay: u64,
    pub retry_backoff: RetryBackoff,
}

/// What the loop does after an attempt failed.
#[derive(Debug, Clone, Copy, PartialEq, Eq, Structural)]
pub enum RetryStep {
    /// Delete the partial file and start again from byte 0 (the server would
    /// not resume); the retry count is unchanged.
    Restart,
    /// Count a reconnect and wait this many seconds before the next attempt.
    Wait { secs: u64 },
    /// Give up and report the error.
    Fail,
}

/// The byte offset an attempt resumes from: the partial file's length when
/// it exists and either resuming was asked for or an earlier attempt failed.
pub open spec fn resume_offset_of(allow_continue: bool, attempts: u32, partial_len: Option<u64>) -> u64 {
    match partial_len {
        Some(len) => if allow_continue || attempts > 0 {
            len
        } else {
            0
        },
        None => 0,
    }
}

/// Computes where the next attempt starts; `partial_len` is the length of the
/// partial file, when there is one.
pub fn resume_offset(allow_continue: bool, attempts: u32, partial_len: Option<u64>) -> (r: u64)
    ensures
        r == resume_offset_of(allow_continue, attempts, partial_len),
{
    match partial_len {
        Some(len) => if allow_continue || attempts > 0 {
            len
        } else {
            0
        },
        None => 0,
    }
}

/// The step after the stream could not be opened at `start_offset`.
pub open spec fn open_failure_step(
    policy: RetryPolicy,
    attempts: u32,
    start_offset: u64,
    err: QuarkPanError,
) -> (u32, RetryStep) {
    if start_offset > 0 && (err matches QuarkPanError::InvalidArgument(m) && m@
        == range_not_honored_text()) {
        (attempts, RetryStep::Restart)
    } else if retryable(err) && allows_attempt(policy.retry, attempts) {
        (
            (attempts + 1) as u32,
            RetryStep::Wait {
                secs: sleep_secs(
                    (attempts + 1) as u32,
                    policy.retry_delay,
                    policy.retry_max_delay,
                    policy.retry_backoff,
                ),
            },
        )
    } else {
        (attempts, RetryStep::Fail)
    }
}

/// The step after copying the stream failed with `err` (`None` when the
/// failure is not one of this library's errors, such as a local write error
/// of another kind).
pub open spec fn copy_failure_step(policy: RetryPolicy, attempts: u32, err: Option<QuarkPanError>) -> (
    u32,
    RetryStep,
) {
    if (err matches Some(e) && retryable(e)) && allows_attempt(policy.retry, attempts) {
        (
            (attempts + 1) as u32,
            RetryStep::Wait {
                secs: sleep_secs(
                    (attempts + 1) as u32,
                    policy.retry_delay,
                    policy.retry_max_delay,
                    policy.retry_backoff,
                ),
            },
        )
    } else {
        (attempts, RetryStep::Fail)
    }
}

/// Decides what follows a failure to open the download stream; returns the
/// new retry count and the step.
pub fn after_open_failure(
    policy: &RetryPolicy,
    attempts: u32,
    start_offset: u64,
    err: &QuarkPanError,
) -> (r: (u32, RetryStep))
    requires
        allows_attempt(policy.retry, attempts) ==> attempts < u32::MAX,
    ensures
        r == open_failure_step(*policy, attempts, start_offset, *err),
{
    if start_offset > 0 && is_unsupported_resume_error(err) {
        (attempts, RetryStep::Restart)
    } else if should_retry_download(&policy.retry, attempts, err) {
        let next = attempts + 1;
        let secs = retry_sleep_secs(
            next,
            policy.retry_delay,
            policy.retry_max_delay,
            policy.retry_backoff,
        );
        (next, RetryStep::Wait { secs })
    } else {
        (attempts, RetryStep::Fail)
    }
}

/// Decides what follows a failed stream copy; returns the new retry count and
/// the step.
pub fn after_copy_failure(policy: &RetryPolicy, attempts: u32, err: Option<&QuarkPanError>) -> (r: (
    u32,
    RetryStep,
))
    requires
        allows_attempt(policy.retry, attempts) ==> attempts < u32::MAX,
    ensures
        r == copy_failure_step(
            *policy,
            attempts,
            match err {
                Some(e) => Some(*e),
                None => None,
            },
        ),
{
    if should_retry_boxed_download(&policy.retry, attempts, err) {
        let next = attempts + 1;
        let secs = retry_sleep_secs(
            next,
            policy.retry_delay,
            policy.retry_max_delay,
            policy.retry_backoff,
        );
        (next, RetryStep::Wait { secs })
    } else {
        (attempts, RetryStep::Fail)
    }
}

/// The error a server's refusal to resume from an offset is reported as.
pub open spec fn range_refused(err: QuarkPanError) -> bool {
    err matches QuarkPanError::InvalidArgument(m) && m@ == range_not_honored_text()
}

/// After a failed open, the partial file is thrown away only when the
/// server refused to resume mid-file: a restart happens exactly for the
/// range-not-honoured error at a non-zero offset. Any other error that is
/// worth retrying, while the policy allows another attempt, waits the
/// backoff for the next attempt at whatever offset; and any other error
/// gives up.
pub proof fn lemma_open_failure_outcomes(
    policy: RetryPolicy,
    attempts: u32,
    start_offset: u64,
    err: QuarkPanError,
)
    requires
        allows_attempt(policy.retry, attempts) ==> attempts < u32::MAX,
    ensures
        open_failure_step(policy, attempts, start_offset, err).1 is Restart <==> (start_offset > 0
            && range_refused(err)),
        retryable(err) && allows_attempt(policy.retry, attempts) ==> open_failure_step(
            policy,
            attempts,
            start_offset,
            err,
        ) == ((attempts + 1) as u32, RetryStep::Wait {
            secs: sleep_secs(
                (attempts + 1) as u32,
                policy.retry_delay,
                policy.retry_max_delay,
                policy.retry_backoff,
            ),
        }),
        !(retryable(err) && allows_attempt(policy.retry, attempts)) && !(start_offset > 0
            && range_refused(err))
            ==> open_failure_step(policy, attempts, start_offset, err) == (attempts, RetryStep::Fail),
{
}

/// Every wait counts exactly one retry that the policy allowed, so a policy
/// of `n` retries waits at most `n` times and `auto` at most 1000 times; the
/// wait never exceeds the maximum delay. A restart leaves the count alone and
/// only happens when the attempt resumed mid-file, and an attempt from byte 0
/// is never restarted. Hard errors always end the loop.
pub proof fn lemma_retry_steps(
    policy: RetryPolicy,
    attempts: u32,
    start_offset: u64,
    err: QuarkPanError,
    copy_err: Option<QuarkPanError>,
)
    requires
        allows_attempt(policy.retry, attempts) ==> attempts < u32::MAX,
    ensures
        ({
            let (next, step) = open_failure_step(policy, attempts, start_offset, err);
            &&& step is Wait ==> next == attempts + 1 && allows_attempt(policy.retry, attempts)
                && step->secs <= policy.retry_max_delay
            &&& !(step is Wait) ==> next == attempts
            &&& step is Restart ==> start_offset > 0
            &&& (policy.retry matches RetryMode::Count(n) ==> (step is Wait ==> next <= n))
            &&& (policy.retry == RetryMode::Auto && step is Wait) ==> next <= 1000
            &&& !retryable(err) && !(step is Restart) ==> step is Fail
        }),
        ({
            let (next, step) = copy_failure_step(policy, attempts, copy_err);
            &&& step is Wait ==> next == attempts + 1 && allows_attempt(policy.retry, attempts)
                && step->secs <= policy.retry_max_delay
            &&& !(step is Wait) ==> next == attempts
            &&& !(step is Restart)
            &&& (policy.retry matches RetryMode::Count(n) ==> (step is Wait ==> next <= n))
            &&& (policy.retry == RetryMode::Auto && step is Wait) ==> next <= 1000
            &&& (copy_err is None || !retryable(copy_err->0)) ==> step is Fail
        }),
{
    crate::download::lemma_backoff_bounded_and_monotone(
        (attempts + 1) as u32,
        (attempts + 1) as u32,
        policy.retry_delay,
        policy.retry_max_delay,
        policy.retry_backoff,
    );
}

} // verus!
