//! The decisions of the message pump that waits for a completion: when to stop,
//! when to fetch the next message, and what to do with a fetched one. The loop
//! itself, which owns the host's message queue, runs these decisions in order.
use vstd::prelude::*;
use crate::completion::PollOutcome;

verus! {

/// The first message number free for application use; the pump posts it to wake
/// the owning thread when work has been queued from another thread.
pub const WM_APP: u32 = 0x8000;

/// Why a pump stopped without a value.
#[derive(Clone, Copy, Debug, PartialEq, Eq, Structural)]
pub enum PumpError {
    /// The producing side was dropped without sending: the operation failed.
    Canceled,
    /// The queue signalled termination before the value arrived.
    Terminated,
    /// Retrieving a message failed.
    Failed,
}

/// What the pump does after polling the awaited completion.
pub enum PumpStep<T> {
    /// Stop with this outcome.
    Finish(Result<T, PumpError>),
    /// Fetch the next message and act on it, then poll again.
    Fetch,
}

/// What the pump does with the result of one blocking retrieval.
#[derive(Clone, Copy, Debug, PartialEq, Eq, Structural)]
pub enum MessageAction {
    /// Translate and dispatch the message to its target.
    Dispatch,
    /// Run all work queued from other threads.
    RunQueued,
    /// Stop without a value.
    Stop(PumpError),
}

/// The step after a poll: a value or a cancellation ends the wait, nothing yet
/// means another message.
pub fn after_poll<T>(outcome: PollOutcome<T>) -> (r: PumpStep<T>)
    ensures
        match outcome {
            PollOutcome::Ready(v) => r == PumpStep::Finish(Ok::<T, PumpError>(v)),
            PollOutcome::Pending => r is Fetch,
            PollOutcome::Canceled => r == PumpStep::<T>::Finish(Err(PumpError::Canceled)),
        },
{
    match outcome {
        PollOutcome::Ready(v) => PumpStep::Finish(Ok(v)),
        PollOutcome::Pending => PumpStep::Fetch,
        PollOutcome::Canceled => PumpStep::Finish(Err(PumpError::Canceled)),
    }
}

/// The action for a retrieval that returned `result` with message number
/// `message`: `-1` is a failure, `0` the quit signal, anything else a message.
/// With `drains_work`, the wake-up message runs the queued work instead of being
/// dispatched.
pub fn after_retrieval(result: i32, message: u32, drains_work: bool) -> (r: MessageAction)
    ensures
        result == -1 ==> r == MessageAction::Stop(PumpError::Failed),
        result == 0 ==> r == MessageAction::Stop(PumpError::Terminated),
        result != -1 && result != 0 ==> r == (if drains_work && message == WM_APP {
            MessageAction::RunQueued
        } else {
            MessageAction::Dispatch
        }),
{
    if result == -1 {
        MessageAction::Stop(PumpError::Failed)
    } else if result == 0 {
        MessageAction::Stop(PumpError::Terminated)
    } else if drains_work && message == WM_APP {
        MessageAction::RunQueued
    } else {
        MessageAction::Dispatch
    }
}

} // verus!
