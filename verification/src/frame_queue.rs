//! The queue of shared-texture handles that runs from the capture callback
//! to the renderer: a bounded channel of `FRAME_QUEUE_CAPACITY` slots. A
//! handle that finds the queue full is handed back so that its owner can
//! close it at once; the callback never waits for the renderer.
use vstd::prelude::*;
use crossbeam_channel::{Receiver, Sender};

verus! {

/// How many handles may wait in the queue for the renderer.
pub const FRAME_QUEUE_CAPACITY: usize = 3;

#[verifier::external_type_specification]
#[verifier::external_body]
#[verifier::reject_recursive_types(T)]
pub struct ExSender<T>(crossbeam_channel::Sender<T>);

#[verifier::external_type_specification]
#[verifier::external_body]
#[verifier::reject_recursive_types(T)]
pub struct ExReceiver<T>(crossbeam_channel::Receiver<T>);

/// The capacity that the channel behind a sender was made with
/// (`None` for an unbounded channel).
pub uninterp spec fn channel_capacity(sender: Sender<u64>) -> Option<usize>;

/// The capacity that the channel behind a receiver was made with
/// (`None` for an unbounded channel).
pub uninterp spec fn receiving_capacity(receiver: Receiver<u64>) -> Option<usize>;

/// Whether two senders send into one channel, as `Sender::same_channel`
/// tells it.
pub uninterp spec fn same_sender_channel(a: Sender<u64>, b: Sender<u64>) -> bool;

/// Whether two receivers take from one channel, as `Receiver::same_channel`
/// tells it.
pub uninterp spec fn same_receiver_channel(a: Receiver<u64>, b: Receiver<u64>) -> bool;

/// What became of a handle offered to the queue.
#[derive(Clone, Copy, Debug, PartialEq, Eq, Structural)]
pub enum SendOutcome {
    /// The handle now waits in the queue.
    Queued,
    /// The queue was full; the handle comes back to the caller.
    Full(u64),
    /// Every receiver is gone; the handle comes back to the caller.
    Disconnected(u64),
}

/// The handle that must be closed by whoever offered it, after an offer
/// ended with `outcome`: only a handle refused because the queue was full.
pub open spec fn handle_to_release(outcome: SendOutcome) -> Option<u64> {
    match outcome {
        SendOutcome::Full(h) => Some(h),
        _ => None,
    }
}

/// `crossbeam_channel::bounded(cap)`: a new channel of `cap` slots. The
/// source sets the sender's capacity to `Some(cap)` for every `cap > 0`; it
/// panics when `cap + 1` rounded up to a power of two, doubled, overflows,
/// which the bound on `cap` rules out.
#[verifier::external_body]
fn open_channel(cap: usize) -> (ends: (Sender<u64>, Receiver<u64>))
    requires
        0 < cap <= 4096,
    ensures
        channel_capacity(ends.0) == Some(cap),
        receiving_capacity(ends.1) == Some(cap),
{
    crossbeam_channel::bounded(cap)
}

/// `Sender::capacity`: the capacity the channel was made with.
#[verifier::external_body]
fn query_capacity(sender: &Sender<u64>) -> (cap: Option<usize>)
    ensures
        cap == channel_capacity(*sender),
{
    sender.capacity()
}

/// `Sender::clone`: another sender of the same channel, so with the same
/// capacity; the crate's documentation shows `same_channel` holding between
/// a sender and its clone.
#[verifier::external_body]
fn clone_sender(sender: &Sender<u64>) -> (other: Sender<u64>)
    ensures
        channel_capacity(other) == channel_capacity(*sender),
        same_sender_channel(other, *sender),
{
    sender.clone()
}

/// `Receiver::clone`: another receiver of the same channel, so with the same
/// capacity. Nothing is stated of the contents, which other threads share.
#[verifier::external_body]
fn clone_receiver(receiver: &Receiver<u64>) -> (other: Receiver<u64>)
    ensures
        receiving_capacity(other) == receiving_capacity(*receiver),
        same_receiver_channel(other, *receiver),
{
    receiver.clone()
}

/// `Sender::same_channel`: whether `a` and `b` send into one channel.
#[verifier::external_body]
fn senders_share_channel(a: &Sender<u64>, b: &Sender<u64>) -> (same: bool)
    ensures
        same == same_sender_channel(*a, *b),
{
    a.same_channel(b)
}

/// `Receiver::same_channel`: whether `a` and `b` take from one channel.
#[verifier::external_body]
fn receivers_share_channel(a: &Receiver<u64>, b: &Receiver<u64>) -> (same: bool)
    ensures
        same == same_receiver_channel(*a, *b),
{
    a.same_channel(b)
}

/// `Sender::try_send`: offers `handle` without blocking. Which outcome
/// comes depends on the other threads that use the channel, so only this
/// is stated: a refused message is handed back unchanged, as the crate's
/// documentation says.
#[verifier::external_body]
fn try_send_handle(sender: &Sender<u64>, handle: u64) -> (outcome: SendOutcome)
    ensures
        outcome matches SendOutcome::Full(h) ==> h == handle,
        outcome matches SendOutcome::Disconnected(h) ==> h == handle,
{
    match sender.try_send(handle) {
        Ok(()) => SendOutcome::Queued,
        Err(crossbeam_channel::TrySendError::Full(h)) => SendOutcome::Full(h),
        Err(crossbeam_channel::TrySendError::Disconnected(h)) => SendOutcome::Disconnected(h),
    }
}

/// `Receiver::try_recv`: takes a message that is already waiting, without
/// blocking (`Some`); `None` when the channel is empty, disconnected or not.
/// Whether a message waits, and which, is decided by other threads, so
/// nothing more is stated.
#[verifier::external_body]
fn try_receive_handle(receiver: &Receiver<u64>) -> Option<u64> {
    receiver.try_recv().ok()
}

/// Decides what the offering side must close after an offer ended with
/// `outcome`: the handle refused by a full queue, and nothing otherwise (a
/// handle refused by a disconnected queue is not closed here).
pub fn release_after_send(outcome: SendOutcome) -> (release: Option<u64>)
    ensures
        release == handle_to_release(outcome),
{
    match outcome {
        SendOutcome::Full(h) => Some(h),
        _ => None,
    }
}

/// Offers `handle` to the queue behind `sender` and returns the handle the
/// caller must close: `Some(handle)` when the queue was full, `None` when
/// the queue took it (or nobody listens any more).
pub fn offer_handle(sender: &Sender<u64>, handle: u64) -> (release: Option<u64>)
    ensures
        release is None || release == Some(handle),
{
    let outcome = try_send_handle(sender, handle);
    release_after_send(outcome)
}

/// Takes the next handle already waiting on the queue behind `receiver`,
/// without waiting for one; `None` when no handle is pending.
pub fn next_handle(receiver: &Receiver<u64>) -> (handle: Option<u64>) {
    try_receive_handle(receiver)
}

/// Both ends of a bounded handle queue of `FRAME_QUEUE_CAPACITY` slots.
pub struct FrameQueue {
    sender: Sender<u64>,
    receiver: Receiver<u64>,
}

impl FrameQueue {
    #[verifier::type_invariant]
    spec fn bounded_by_capacity(self) -> bool {
        &&& channel_capacity(self.sender) == Some(FRAME_QUEUE_CAPACITY)
        &&& receiving_capacity(self.receiver) == Some(FRAME_QUEUE_CAPACITY)
    }

    /// The capacity of the queue, as its sending end reports it.
    pub closed spec fn capacity_spec(self) -> Option<usize> {
        channel_capacity(self.sender)
    }

    /// The queue's own sending end.
    pub closed spec fn sending_end(self) -> Sender<u64> {
        self.sender
    }

    /// The queue's own receiving end.
    pub closed spec fn receiving_end(self) -> Receiver<u64> {
        self.receiver
    }

    /// A new, empty queue of `FRAME_QUEUE_CAPACITY` slots.
    pub fn new() -> (q: FrameQueue)
        ensures
            q.capacity_spec() == Some(FRAME_QUEUE_CAPACITY),
    {
        let (sender, receiver) = open_channel(FRAME_QUEUE_CAPACITY);
        FrameQueue { sender, receiver }
    }

    /// The capacity of the queue: always `FRAME_QUEUE_CAPACITY`.
    pub fn capacity(&self) -> (cap: Option<usize>)
        ensures
            cap == Some(FRAME_QUEUE_CAPACITY),
            cap == self.capacity_spec(),
    {
        proof {
            use_type_invariant(self);
        }
        query_capacity(&self.sender)
    }

    /// A sending end for the capture callback: one into this queue's own
    /// channel.
    pub fn sender(&self) -> (s: Sender<u64>)
        ensures
            channel_capacity(s) == Some(FRAME_QUEUE_CAPACITY),
            same_sender_channel(s, self.sending_end()),
    {
        proof {
            use_type_invariant(self);
        }
        clone_sender(&self.sender)
    }

    /// A receiving end for the renderer: one from this queue's own channel.
    pub fn receiver(&self) -> (r: Receiver<u64>)
        ensures
            receiving_capacity(r) == Some(FRAME_QUEUE_CAPACITY),
            same_receiver_channel(r, self.receiving_end()),
    {
        proof {
            use_type_invariant(self);
        }
        clone_receiver(&self.receiver)
    }

    /// Whether `sender` sends into this queue's channel.
    pub fn is_own_sender(&self, sender: &Sender<u64>) -> (own: bool)
        ensures
            own == same_sender_channel(*sender, self.sending_end()),
    {
        senders_share_channel(sender, &self.sender)
    }

    /// Whether `receiver` takes from this queue's channel.
    pub fn is_own_receiver(&self, receiver: &Receiver<u64>) -> (own: bool)
        ensures
            own == same_receiver_channel(*receiver, self.receiving_end()),
    {
        receivers_share_channel(receiver, &self.receiver)
    }

    /// Offers `handle` through this queue's own sending end; see
    /// `offer_handle`.
    pub fn offer(&self, handle: u64) -> (release: Option<u64>)
        ensures
            release is None || release == Some(handle),
    {
        offer_handle(&self.sender, handle)
    }

    /// Takes the next pending handle through this queue's own receiving end,
    /// without waiting; `None` when no handle is pending.
    pub fn next(&self) -> Option<u64> {
        next_handle(&self.receiver)
    }
}

} // verus!
