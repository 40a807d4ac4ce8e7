use tokio::sync::mpsc::error::TrySendError;
use tokio::sync::mpsc::{Receiver, Sender};
use vstd::prelude::*;

verus! {

/// `tokio::sync::mpsc::Sender`, the sending end of a bounded channel. Its
/// inside is not looked into.
#[verifier::external_type_specification]
#[verifier::external_body]
#[verifier::reject_recursive_types(T)]
pub struct ExSender<T>(Sender<T>);

/// `tokio::sync::mpsc::Receiver`, the receiving end of a bounded channel.
/// Its inside is not looked into.
#[verifier::external_type_specification]
#[verifier::external_body]
#[verifier::reject_recursive_types(T)]
pub struct ExReceiver<T>(Receiver<T>);

/// Why the channel did not take a frame. Either way the frame comes back.
pub enum Rejected<T> {
    /// The single slot still holds an earlier frame.
    Full(T),
    /// The receiving end is gone.
    Closed(T),
}

/// What became of one arrival at the relay.
#[derive(Clone, Copy, PartialEq, Eq, Debug, Structural)]
pub enum RelayOutcome {
    /// The frame is in the channel, for the consumer to receive.
    Forwarded,
    /// The consumer has not taken the earlier frame yet; this one was let go.
    DroppedFull,
    /// Nobody is receiving any more; the frame was let go.
    DroppedClosed,
    /// The pool had no frame to give.
    NoFrame,
}

/// The producing end of the hand-off between the compositor's delivery
/// thread and the consumer: it offers each arrived frame to a channel
/// without ever waiting for room.
#[verifier::reject_recursive_types(T)]
pub struct FrameRelay<T> {
    sender: Sender<T>,
}

impl<T> Rejected<T> {
    /// The frame that was not taken.
    pub open spec fn frame(self) -> T {
        match self {
            Rejected::Full(frame) => frame,
            Rejected::Closed(frame) => frame,
        }
    }
}

/// The outcome that the channel's answer to an offer stands for.
pub open spec fn settled<T>(sent: Result<(), Rejected<T>>) -> RelayOutcome {
    match sent {
        Ok(()) => RelayOutcome::Forwarded,
        Err(Rejected::Full(_)) => RelayOutcome::DroppedFull,
        Err(Rejected::Closed(_)) => RelayOutcome::DroppedClosed,
    }
}

/// Makes a channel with `tokio::sync::mpsc::channel`, which panics on a
/// buffer of zero or of more than `usize::MAX >> 3` messages. Nothing is
/// claimed of the two ends.
#[verifier::external_body]
fn bounded_channel<T>(buffer: usize) -> (ends: (Sender<T>, Receiver<T>))
    requires
        0 < buffer <= usize::MAX / 8,
{
    tokio::sync::mpsc::channel(buffer)
}

/// Offers `frame` to the channel with `Sender::try_send`, which never waits.
/// Whether the channel takes it depends on what the consumer has done; the
/// contract claims only that a frame which was not taken is handed back.
#[verifier::external_body]
fn offer<T>(sender: &Sender<T>, frame: T) -> (sent: Result<(), Rejected<T>>)
    ensures
        sent matches Err(rejected) ==> rejected.frame() == frame,
{
    match sender.try_send(frame) {
        Ok(()) => Ok(()),
        Err(TrySendError::Full(frame)) => Err(Rejected::Full(frame)),
        Err(TrySendError::Closed(frame)) => Err(Rejected::Closed(frame)),
    }
}

/// Decides what an offer's answer means for the frame: a frame that the
/// channel did not take is let go here, it is never kept for a later try.
pub fn settle<T>(sent: Result<(), Rejected<T>>) -> (outcome: RelayOutcome)
    ensures
        outcome == settled(sent),
{
    match sent {
        Ok(()) => RelayOutcome::Forwarded,
        Err(Rejected::Full(_)) => RelayOutcome::DroppedFull,
        Err(Rejected::Closed(_)) => RelayOutcome::DroppedClosed,
    }
}

impl<T> FrameRelay<T> {
    /// Opens a hand-off that holds at most one frame, and gives its two ends.
    pub(crate) fn open() -> (ends: (FrameRelay<T>, Receiver<T>)) {
        let (sender, receiver) = bounded_channel::<T>(1);
        (FrameRelay { sender }, receiver)
    }

    /// The body of the frame-arrived callback. `pulled` is what the single
    /// pull from the pool gave. A frame is offered to the channel once and
    /// without waiting; where the channel does not take it, it is let go.
    /// No frame at all is reported as `NoFrame`, and only then.
    pub fn on_frame_arrived(&self, pulled: Option<T>) -> (outcome: RelayOutcome)
        ensures
            pulled is None <==> outcome == RelayOutcome::NoFrame,
    {
        match pulled {
            Some(frame) => settle(offer(&self.sender, frame)),
            None => RelayOutcome::NoFrame,
        }
    }
}

} // verus!
