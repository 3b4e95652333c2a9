//! Single-use handoff of a completion result from a foreign callback to the
//! thread that waits for it, and the decisions of the message pump that waits.
use vstd::prelude::*;
use futures::channel::oneshot::{Canceled, Receiver, Sender};
use crate::com::ErrorCode;

verus! {

/// The sending half of futures' oneshot channel, carried through opaquely.
#[verifier::external_type_specification]
#[verifier::external_body]
#[verifier::reject_recursive_types(T)]
pub struct ExSender<T>(Sender<T>);

/// The receiving half of futures' oneshot channel, carried through opaquely.
#[verifier::external_type_specification]
#[verifier::external_body]
#[verifier::reject_recursive_types(T)]
pub struct ExReceiver<T>(Receiver<T>);

/// The error of futures' oneshot receiver when the sender was dropped.
#[verifier::external_type_specification]
#[verifier::external_body]
pub struct ExCanceled(Canceled);

/// Relies on futures' oneshot::channel: a connected sender and receiver.
pub assume_specification<T>[ futures::channel::oneshot::channel::<T> ]() -> (Sender<T>, Receiver<T>);

/// Relies on futures' oneshot::Sender::send: a refused value comes back unchanged.
pub assume_specification<T>[ Sender::<T>::send ](tx: Sender<T>, t: T) -> (r: Result<(), T>)
    ensures
        r matches Err(v) ==> v == t,
;

/// Relies on futures' oneshot::Receiver::try_recv: a sent value, nothing yet, or a
/// sender dropped without sending.
pub assume_specification<T>[ Receiver::<T>::try_recv ](rx: &mut Receiver<T>) -> Result<
    Option<T>,
    Canceled,
>;

/// What became of a completion handed to its context.
#[derive(Clone, Copy, Debug, PartialEq, Eq, Structural)]
pub enum Delivery {
    /// The value went to the waiting side.
    Sent,
    /// The waiting side was gone; the value was dropped.
    ReceiverGone,
    /// The operation reported this failure status; nothing was sent.
    Failed(ErrorCode),
    /// The operation succeeded but delivered no value; nothing was sent.
    Absent,
}

/// The producing half of a single-use handoff, carried by a completion closure.
#[verifier::reject_recursive_types(T)]
pub struct MessageLoopCompletedContext<T>(Sender<T>);

impl<T> MessageLoopCompletedContext<T> {
    /// The sender that the context sends through.
    pub closed spec fn sender(&self) -> Sender<T> {
        self.0
    }

    /// A context around the sending half of a oneshot channel.
    pub fn new(tx: Sender<T>) -> (r: Self)
        ensures
            r.sender() == tx,
    {
        Self(tx)
    }

    /// Sends the value; the value comes back when the waiting side is gone.
    pub fn send(self, value: T) -> (r: Result<(), T>)
        ensures
            r matches Err(v) ==> v == value,
    {
        self.0.send(value)
    }

    /// Completes the handoff from the arguments of a completion callback: the
    /// value is sent only on a success status with a value present. Dropping the
    /// context without sending tells the waiting side that the operation failed.
    pub fn complete(self, status: ErrorCode, value: Option<T>) -> (r: Delivery)
        ensures
            !status.spec_is_ok() ==> r == Delivery::Failed(status),
            status.spec_is_ok() && value is None ==> r == Delivery::Absent,
            status.spec_is_ok() && value is Some ==> (r == Delivery::Sent || r
                == Delivery::ReceiverGone),
    {
        if status.is_err() {
            return Delivery::Failed(status);
        }
        match value {
            None => Delivery::Absent,
            Some(v) => match self.send(v) {
                Ok(()) => Delivery::Sent,
                Err(_) => Delivery::ReceiverGone,
            },
        }
    }
}

/// The consuming half of a single-use handoff, polled by the message pump.
#[verifier::reject_recursive_types(T)]
pub struct Completion<T>(Receiver<T>);

/// A new handoff: the context goes into a completion closure, the completion to the pump.
pub fn create_one_shot<T>() -> (r: (MessageLoopCompletedContext<T>, Completion<T>)) {
    let (tx, rx) = futures::channel::oneshot::channel();
    (MessageLoopCompletedContext(tx), Completion(rx))
}

/// The state of a handoff as one poll finds it.
pub enum PollOutcome<T> {
    /// The value that was sent.
    Ready(T),
    /// Nothing sent yet.
    Pending,
    /// The producing side was dropped without sending.
    Canceled,
}

impl<T> Completion<T> {
    /// Looks once, without blocking, for the value.
    pub fn poll(&mut self) -> (r: PollOutcome<T>) {
        match self.0.try_recv() {
            Ok(Some(v)) => PollOutcome::Ready(v),
            Ok(None) => PollOutcome::Pending,
            Err(_) => PollOutcome::Canceled,
        }
    }
}

} // verus!
