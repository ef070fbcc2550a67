//! The unbounded queues of `tokio::sync::mpsc`, as far as the bridge uses
//! them.
//!
//! Nothing in this file is proved. Each item states what tokio's source shows
//! of one function, and the rest of the crate is proved from these statements.
//!
//! A sending half is described by what has gone through it: [`sent`] and
//! [`signalled`] grow with every message that the half's queue takes. What a
//! receiving half finds is not described: it depends on when it looks. Which
//! queue a half belongs to is described for both: [`queue_of`] and
//! [`source_of`] agree on the two halves that one call made, and the same
//! holds of [`ready_queue_of`] and [`ready_source_of`].
//!
//! `send` does not return if the count that tokio keeps of the messages in a
//! queue would overflow `usize`: it ends the process. A queue of that length
//! does not fit into memory, so no contract here speaks of it.

use crate::packet::Packet;
use tokio::sync::mpsc::{UnboundedReceiver, UnboundedSender};
use vstd::prelude::*;

verus! {

/// `tokio::sync::mpsc::UnboundedSender`, opaque to the verifier.
#[verifier::external_type_specification]
#[verifier::external_body]
#[verifier::reject_recursive_types(T)]
pub struct ExUnboundedSender<T>(UnboundedSender<T>);

/// `tokio::sync::mpsc::UnboundedReceiver`, opaque to the verifier.
#[verifier::external_type_specification]
#[verifier::external_body]
#[verifier::reject_recursive_types(T)]
pub struct ExUnboundedReceiver<T>(UnboundedReceiver<T>);

/// The encodings of the packets that a sending half has put into its queue,
/// oldest first. Packets of other handles on the same queue are not among
/// them.
pub uninterp spec fn sent(tx: UnboundedSender<Packet>) -> Seq<Seq<u8>>;

/// The number of ready signals that a sending half has put into its queue.
pub uninterp spec fn signalled(tx: UnboundedSender<()>) -> nat;

/// The queue that a sending half of packets feeds.
pub uninterp spec fn queue_of(tx: UnboundedSender<Packet>) -> int;

/// The queue that a receiving half of packets reads.
pub uninterp spec fn source_of(rx: UnboundedReceiver<Packet>) -> int;

/// The queue that a sending half of ready signals feeds.
pub uninterp spec fn ready_queue_of(tx: UnboundedSender<()>) -> int;

/// The queue that a receiving half of ready signals reads.
pub uninterp spec fn ready_source_of(rx: UnboundedReceiver<()>) -> int;

/// Calls `tokio::sync::mpsc::unbounded_channel` for a queue of packets.
///
/// Claimed: the two halves are the ends of one queue, and the new sending
/// half has put nothing into it yet.
#[verifier::external_body]
pub(crate) fn packet_channel() -> (halves: (UnboundedSender<Packet>, UnboundedReceiver<Packet>))
    ensures
        queue_of(halves.0) == source_of(halves.1),
        sent(halves.0) == Seq::<Seq<u8>>::empty(),
{
    tokio::sync::mpsc::unbounded_channel()
}

/// Calls `tokio::sync::mpsc::unbounded_channel` for a queue of ready signals.
///
/// Claimed: the two halves are the ends of one queue, and the new sending
/// half has put nothing into it yet.
#[verifier::external_body]
pub(crate) fn ready_channel() -> (halves: (UnboundedSender<()>, UnboundedReceiver<()>))
    ensures
        ready_queue_of(halves.0) == ready_source_of(halves.1),
        signalled(halves.0) == 0,
{
    tokio::sync::mpsc::unbounded_channel()
}

/// Calls `tokio::sync::mpsc::UnboundedSender::send` with a packet.
///
/// Claimed: on `Ok` the packet is in the queue behind everything this half put
/// there before; on `Err` the queue's receiver is closed or gone, nothing was
/// put into the queue, and the error carries the packet back as it was. Which
/// of the two happens depends on the receiver and is left open. Either way the
/// half feeds the queue it fed before.
///
/// tokio takes `&self` here. This takes `&mut` so that the verifier sees the
/// half change with each packet it accepts.
#[verifier::external_body]
pub(crate) fn send_packet(tx: &mut UnboundedSender<Packet>, packet: Packet) -> (result: Result<
    (),
    Packet,
>)
    ensures
        queue_of(*final(tx)) == queue_of(*old(tx)),
        result is Ok ==> sent(*final(tx)) == sent(*old(tx)).push(packet@),
        result is Err ==> sent(*final(tx)) == sent(*old(tx)),
        result matches Err(back) ==> back == packet,
{
    match tx.send(packet) {
        Ok(()) => Ok(()),
        Err(refused) => Err(refused.0),
    }
}

/// Calls `tokio::sync::mpsc::UnboundedSender::send` with the unit value, and
/// returns whether the queue took it.
///
/// Claimed: the count of signals put into the queue grows by one if the result
/// is `true` and stays as it was if it is `false`. Which of the two happens
/// depends on the receiver and is left open. Either way the half feeds the
/// queue it fed before.
///
/// tokio takes `&self` here. This takes `&mut` so that the verifier sees the
/// half change with each signal it accepts.
#[verifier::external_body]
pub(crate) fn send_ready(tx: &mut UnboundedSender<()>) -> (accepted: bool)
    ensures
        ready_queue_of(*final(tx)) == ready_queue_of(*old(tx)),
        accepted ==> signalled(*final(tx)) == signalled(*old(tx)) + 1,
        !accepted ==> signalled(*final(tx)) == signalled(*old(tx)),
{
    match tx.send(()) {
        Ok(()) => true,
        Err(_) => false,
    }
}

} // verus!
