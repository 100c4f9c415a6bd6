//! The bounded queue that carries updates from the acquisition loop to its
//! consumer: a `crossbeam_channel` channel behind three trusted functions.
//!
//! Both ends of the channel stay together, as the pair in which the outside
//! crate hands them out. The pair never leaves the sensor manager and no end
//! is ever cloned, so between two calls on the pair nothing else can send or
//! receive: what the channel holds is then a matter of the calls alone.

use crate::error::SensorError;
use crate::reading::SensorData;
use crossbeam_channel::{Receiver, Sender, TrySendError};
use vstd::prelude::*;

verus! {

/// The sending end of a `crossbeam_channel` channel, carried through
/// opaquely.
#[verifier::external_type_specification]
#[verifier::external_body]
#[verifier::reject_recursive_types(T)]
pub struct ExSender<T>(Sender<T>);

/// The receiving end of a `crossbeam_channel` channel, carried through
/// opaquely.
#[verifier::external_type_specification]
#[verifier::external_body]
#[verifier::reject_recursive_types(T)]
pub struct ExReceiver<T>(Receiver<T>);

/// What the acquisition loop publishes after each read: a reading, or why
/// there is none.
pub type Update = Result<SensorData, SensorError>;

/// Whether the two ends are those of one channel of which no other end
/// exists.
pub uninterp spec fn paired(ends: (Sender<Update>, Receiver<Update>)) -> bool;

/// The updates that were sent into the channel and not yet received, oldest
/// first.
pub uninterp spec fn queued(ends: (Sender<Update>, Receiver<Update>)) -> Seq<Update>;

/// The number of updates that the channel was made to hold.
pub uninterp spec fn channel_limit(ends: (Sender<Update>, Receiver<Update>)) -> nat;

/// What became of an update that was offered to the channel.
#[derive(Debug, Clone, Copy, PartialEq, Eq, Structural)]
pub enum Delivery {
    /// The update is in the queue.
    Queued,
    /// The queue was full and the update was discarded.
    Dropped,
    /// The receiving end is gone.
    Disconnected,
}

/// `crossbeam_channel::bounded`: makes an empty channel that holds at most
/// `capacity` messages and hands out its two ends. The outside function
/// panics on a capacity near `usize::MAX`; the bound here stays far below.
#[verifier::external_body]
pub(crate) fn open_channel(capacity: usize) -> (ends: (Sender<Update>, Receiver<Update>))
    requires
        0 < capacity <= 0x1_0000,
    ensures
        paired(ends),
        channel_limit(ends) == capacity,
        queued(ends) == Seq::<Update>::empty(),
{
    crossbeam_channel::bounded(capacity)
}

/// `Sender::try_send`: offers `update` without blocking. With the receiving
/// end at hand the channel is never disconnected, so the update is queued
/// behind the others while there is room and handed back when the channel
/// is full.
#[verifier::external_body]
pub(crate) fn offer(ends: &mut (Sender<Update>, Receiver<Update>), update: Update) -> (delivery:
    Delivery)
    requires
        paired(*old(ends)),
    ensures
        paired(*final(ends)),
        channel_limit(*final(ends)) == channel_limit(*old(ends)),
        delivery is Queued <==> queued(*old(ends)).len() < channel_limit(*old(ends)),
        delivery is Dropped <==> queued(*old(ends)).len() >= channel_limit(*old(ends)),
        queued(*final(ends)) == if delivery is Queued {
            queued(*old(ends)).push(update)
        } else {
            queued(*old(ends))
        },
{
    match ends.0.try_send(update) {
        Ok(()) => Delivery::Queued,
        Err(TrySendError::Full(_)) => Delivery::Dropped,
        Err(TrySendError::Disconnected(_)) => Delivery::Disconnected,
    }
}

/// `Receiver::try_recv`: takes the oldest queued update without blocking,
/// or nothing where the channel is empty.
#[verifier::external_body]
pub(crate) fn poll(ends: &mut (Sender<Update>, Receiver<Update>)) -> (update: Option<Update>)
    requires
        paired(*old(ends)),
    ensures
        paired(*final(ends)),
        channel_limit(*final(ends)) == channel_limit(*old(ends)),
        update == if queued(*old(ends)).len() > 0 {
            Some(queued(*old(ends)).first())
        } else {
            None
        },
        queued(*final(ends)) == if queued(*old(ends)).len() > 0 {
            queued(*old(ends)).drop_first()
        } else {
            queued(*old(ends))
        },
{
    ends.1.try_recv().ok()
}

} // verus!
