//! How the outcome of a connection attempt or a request is settled against
//! its deadline.
use vstd::prelude::*;

verus! {

/// The outcome of waiting for work under a deadline: the work's own outcome,
/// or the error that reports that the deadline passed first.
pub enum Timed<T, X> {
    Finished(T),
    Elapsed(X),
}

/// Why a call failed: the work itself failed, or its deadline passed.
#[derive(Debug)]
pub enum CallError<E, X> {
    Failed(E),
    TimedOut(X),
}

/// The result of a call that ran without a deadline.
pub open spec fn untimed_result<T, E, X>(outcome: Result<T, E>) -> Result<T, CallError<E, X>> {
    match outcome {
        Ok(value) => Ok(value),
        Err(error) => Err(CallError::Failed(error)),
    }
}

/// The result of a call that ran under a deadline.
pub open spec fn timed_result<T, E, X>(outcome: Timed<Result<T, E>, X>) -> Result<T, CallError<E, X>> {
    match outcome {
        Timed::Finished(inner) => untimed_result(inner),
        Timed::Elapsed(elapsed) => Err(CallError::TimedOut(elapsed)),
    }
}

/// Settles a call that ran without a deadline: its value, or its error as a
/// failure.
pub fn settle_untimed<T, E, X>(outcome: Result<T, E>) -> (result: Result<T, CallError<E, X>>)
    ensures
        result == untimed_result::<T, E, X>(outcome),
{
    match outcome {
        Ok(value) => Ok(value),
        Err(error) => Err(CallError::Failed(error)),
    }
}

/// Settles a call that ran under a deadline: a call that finished settles as
/// if it had no deadline; one whose deadline passed fails with the timeout.
pub fn settle_timed<T, E, X>(outcome: Timed<Result<T, E>, X>) -> (result: Result<T, CallError<E, X>>)
    ensures
        result == timed_result(outcome),
{
    match outcome {
        Timed::Finished(inner) => settle_untimed(inner),
        Timed::Elapsed(elapsed) => Err(CallError::TimedOut(elapsed)),
    }
}

/// A call that finishes before its deadline has the outcome that it would
/// have had without one.
pub proof fn lemma_deadline_met_is_transparent<T, E, X>(outcome: Result<T, E>)
    ensures
        timed_result::<T, E, X>(Timed::Finished(outcome)) == untimed_result::<T, E, X>(outcome),
{
}

/// A call whose deadline passes fails, whatever the work would have given,
/// and the failure is the timeout.
pub proof fn lemma_deadline_missed_is_timeout<T, E, X>(elapsed: X)
    ensures
        timed_result::<T, E, X>(Timed::Elapsed(elapsed)) == Err::<T, CallError<E, X>>(CallError::TimedOut(elapsed)),
{
}

/// A call without a deadline never reports a timeout.
pub proof fn lemma_untimed_never_times_out<T, E, X>(outcome: Result<T, E>)
    ensures
        !(untimed_result::<T, E, X>(outcome) matches Err(CallError::TimedOut(_))),
{
}

} // verus!
