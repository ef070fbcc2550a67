//! The duplex channel pair: two halves that are made together and joined by
//! eight unbounded queues.

use crate::channel::{packet_channel, queue_of, sent, source_of};
use crate::packet::{OutboundKind, Packet};
use tokio::sync::mpsc::{UnboundedReceiver, UnboundedSender};
use vstd::prelude::*;

verus! {

/// The outer half, which the packet stack holds: it sends commands and data
/// towards the controller and receives events and data from it.
pub struct RawHal {
    pub cmd_tx: UnboundedSender<Packet>,
    pub evt_rx: UnboundedReceiver<Packet>,
    pub acl_tx: UnboundedSender<Packet>,
    pub acl_rx: UnboundedReceiver<Packet>,
    pub iso_tx: UnboundedSender<Packet>,
    pub iso_rx: UnboundedReceiver<Packet>,
    pub sco_tx: UnboundedSender<Packet>,
    pub sco_rx: UnboundedReceiver<Packet>,
}

/// The inner half, which the bridge keeps: the mirror image of [`RawHal`].
pub struct InnerHal {
    pub cmd_rx: UnboundedReceiver<Packet>,
    pub evt_tx: UnboundedSender<Packet>,
    pub acl_rx: UnboundedReceiver<Packet>,
    pub acl_tx: UnboundedSender<Packet>,
    pub iso_rx: UnboundedReceiver<Packet>,
    pub iso_tx: UnboundedSender<Packet>,
    pub sco_rx: UnboundedReceiver<Packet>,
    pub sco_tx: UnboundedSender<Packet>,
}

impl RawHal {
    /// What this half has put into its outbound queue of `kind`, oldest first.
    pub open spec fn outbound(self, kind: OutboundKind) -> Seq<Seq<u8>> {
        match kind {
            OutboundKind::Command => sent(self.cmd_tx),
            OutboundKind::Acl => sent(self.acl_tx),
            OutboundKind::Iso => sent(self.iso_tx),
            OutboundKind::Sco => sent(self.sco_tx),
        }
    }

    /// Nothing has been sent through this half yet.
    pub open spec fn is_fresh(self) -> bool {
        forall|kind: OutboundKind| #[trigger] self.outbound(kind) == Seq::<Seq<u8>>::empty()
    }
}

/// The two halves are the halves of one pair: each of the eight queues has
/// its sending end in one of them and its receiving end, under the same
/// kind, in the other.
pub open spec fn paired(outer: RawHal, inner: InnerHal) -> bool {
    &&& queue_of(outer.cmd_tx) == source_of(inner.cmd_rx)
    &&& queue_of(outer.acl_tx) == source_of(inner.acl_rx)
    &&& queue_of(outer.iso_tx) == source_of(inner.iso_rx)
    &&& queue_of(outer.sco_tx) == source_of(inner.sco_rx)
    &&& queue_of(inner.evt_tx) == source_of(outer.evt_rx)
    &&& queue_of(inner.acl_tx) == source_of(outer.acl_rx)
    &&& queue_of(inner.iso_tx) == source_of(outer.iso_rx)
    &&& queue_of(inner.sco_tx) == source_of(outer.sco_rx)
}

impl InnerHal {
    /// Nothing has been sent through this half yet.
    pub open spec fn is_fresh(self) -> bool {
        &&& sent(self.evt_tx) == Seq::<Seq<u8>>::empty()
        &&& sent(self.acl_tx) == Seq::<Seq<u8>>::empty()
        &&& sent(self.iso_tx) == Seq::<Seq<u8>>::empty()
        &&& sent(self.sco_tx) == Seq::<Seq<u8>>::empty()
    }

    /// Makes the eight queues and deals their ends out to the two halves: for
    /// each queue one half gets the sender and the other the receiver.
    pub fn new() -> (halves: (RawHal, InnerHal))
        ensures
            paired(halves.0, halves.1),
            halves.0.is_fresh(),
            halves.1.is_fresh(),
    {
        let (cmd_tx, cmd_rx) = packet_channel();
        let (evt_tx, evt_rx) = packet_channel();
        let (acl_down_tx, acl_down_rx) = packet_channel();
        let (iso_down_tx, iso_down_rx) = packet_channel();
        let (sco_down_tx, sco_down_rx) = packet_channel();
        let (acl_up_tx, acl_up_rx) = packet_channel();
        let (iso_up_tx, iso_up_rx) = packet_channel();
        let (sco_up_tx, sco_up_rx) = packet_channel();
        (
            RawHal {
                cmd_tx,
                evt_rx,
                acl_tx: acl_down_tx,
                acl_rx: acl_up_rx,
                iso_tx: iso_down_tx,
                iso_rx: iso_up_rx,
                sco_tx: sco_down_tx,
                sco_rx: sco_up_rx,
            },
            InnerHal {
                cmd_rx,
                evt_tx,
                acl_rx: acl_down_rx,
                acl_tx: acl_up_tx,
                iso_rx: iso_down_rx,
                iso_tx: iso_up_tx,
                sco_rx: sco_down_rx,
                sco_tx: sco_up_tx,
            },
        )
    }
}

} // verus!
