//! What a dispatch returns, read off what the wait on the result channel
//! produced.

use tokio::sync::oneshot::error::RecvError;
use tokio::time::error::Elapsed;
use vstd::prelude::*;

verus! {

/// The two ways a dispatch fails. A failure inside the work is not one of
/// them: work that wants its caller to see its own errors sends them as its
/// value.
#[derive(Clone, Copy, Debug, PartialEq, Eq, Structural)]
pub enum DispatchError {
    /// The channel closed without a value: the work ended, or was lost,
    /// before it sent one.
    Unknown,
    /// The wait bound passed before a value arrived. The work is not stopped.
    Timeout,
}

impl DispatchError {
    /// The text of the failure.
    pub open spec fn message_spec(self) -> Seq<char> {
        match self {
            DispatchError::Unknown => "unknown error"@,
            DispatchError::Timeout => "timeout"@,
        }
    }

    /// The text of the failure: `"unknown error"` or `"timeout"`.
    pub fn message(&self) -> (text: &'static str)
        ensures
            text@ == self.message_spec(),
    {
        match self {
            DispatchError::Unknown => "unknown error",
            DispatchError::Timeout => "timeout",
        }
    }
}

/// The result of a wait without limit: the value, or `Unknown` when the
/// channel closed without one.
pub open spec fn received_spec<T>(arrival: Result<T, RecvError>) -> Result<T, DispatchError> {
    match arrival {
        Ok(value) => Ok(value),
        Err(_) => Err(DispatchError::Unknown),
    }
}

/// The result of a bounded wait: `Timeout` when the bound passed first,
/// otherwise what the same arrival gives without a bound.
pub open spec fn received_within_spec<T>(arrival: Result<Result<T, RecvError>, Elapsed>) -> Result<
    T,
    DispatchError,
> {
    match arrival {
        Ok(inner) => received_spec(inner),
        Err(_) => Err(DispatchError::Timeout),
    }
}

/// Reads the outcome of a wait without limit on the result channel.
pub fn received<T>(arrival: Result<T, RecvError>) -> (outcome: Result<T, DispatchError>)
    ensures
        outcome == received_spec(arrival),
{
    match arrival {
        Ok(value) => Ok(value),
        Err(_) => Err(DispatchError::Unknown),
    }
}

/// Reads the outcome of a wait on the result channel that raced a bound.
pub fn received_within<T>(arrival: Result<Result<T, RecvError>, Elapsed>) -> (outcome: Result<
    T,
    DispatchError,
>)
    ensures
        outcome == received_within_spec(arrival),
{
    match arrival {
        Ok(inner) => received(inner),
        Err(_) => Err(DispatchError::Timeout),
    }
}

/// A value that arrived is the result of the dispatch, with or without a bound.
pub proof fn lemma_value_is_delivered<T>(value: T)
    ensures
        received_spec(Ok::<T, RecvError>(value)) == Ok::<T, DispatchError>(value),
        received_within_spec(Ok::<Result<T, RecvError>, Elapsed>(Ok(value))) == Ok::<
            T,
            DispatchError,
        >(value),
{
}

/// Work that ends without sending fails the dispatch with `Unknown`, whether
/// or not the wait had a bound.
pub proof fn lemma_closed_channel_is_unknown<T>(closed: RecvError)
    ensures
        received_spec(Err::<T, RecvError>(closed)) == Err::<T, DispatchError>(
            DispatchError::Unknown,
        ),
        received_within_spec(Ok::<Result<T, RecvError>, Elapsed>(Err(closed))) == Err::<
            T,
            DispatchError,
        >(DispatchError::Unknown),
{
}

/// A bound that passed first fails the dispatch with `Timeout`, which is
/// neither `Unknown` nor reads like it.
pub proof fn lemma_timeout_is_distinct<T>(elapsed: Elapsed)
    ensures
        received_within_spec(Err::<Result<T, RecvError>, Elapsed>(elapsed)) == Err::<
            T,
            DispatchError,
        >(DispatchError::Timeout),
        DispatchError::Timeout != DispatchError::Unknown,
        DispatchError::Timeout.message_spec() != DispatchError::Unknown.message_spec(),
{
    reveal_strlit("timeout");
    reveal_strlit("unknown error");
    assert("timeout"@.len() != "unknown error"@.len());
}

} // verus!
