//! Starting the bridge.
//!
//! A start makes the queues, registers the session and then has to wait until
//! the controller says that it is ready. The waiting itself is not done here:
//! [`start`] hands out the receiving end of the ready queue, and
//! [`Handshake::complete`] is given what that end yielded.

use crate::channel::{queue_of, ready_channel, ready_source_of, source_of};
use crate::hal::{InnerHal, RawHal};
use crate::packet::Packet;
use crate::registry::{Callbacks, Registry, SessionView, Wiring};
use tokio::sync::mpsc::UnboundedReceiver;
use vstd::prelude::*;

verus! {

/// The receiving ends of the four outbound queues, which the dispatch loop
/// drains.
pub struct OutboundQueues {
    pub cmd_rx: UnboundedReceiver<Packet>,
    pub acl_rx: UnboundedReceiver<Packet>,
    pub iso_rx: UnboundedReceiver<Packet>,
    pub sco_rx: UnboundedReceiver<Packet>,
}

/// A start that waits for the controller's ready signal.
///
/// The outer half is kept inside until the signal has come: there is no way
/// to it but [`Handshake::complete`].
pub struct Handshake {
    /// The receiving end of the ready queue: wait on it, then call
    /// [`Handshake::complete`] with what it yielded.
    pub init_rx: UnboundedReceiver<()>,
    raw_hal: RawHal,
    outbound: OutboundQueues,
}

/// Why a start did not complete.
#[derive(Clone, Copy, Debug, PartialEq, Eq, Structural)]
pub enum HandshakeError {
    /// The ready queue was closed before a signal came through it: the
    /// session of this start is no longer held anywhere.
    ReadyQueueClosed,
}

/// Begins a start: makes the duplex pair and the ready queue and registers
/// the new session, which has done nothing yet.
///
/// Returns the pending handshake and the session that the new one displaced,
/// if there was one. The handshake and the new session belong together: what
/// the session forwards is what the handshake's outer half receives, kind by
/// kind, the session's ready signal is what `init_rx` waits for, and the
/// outbound queues are those that the outer half sends into. To start the
/// controller, and to wait for its signal, is the caller's part.
pub fn start(registry: &mut Registry) -> (begun: (Handshake, Option<Callbacks>))
    ensures
        final(registry)@ is Some,
        final(registry)@.unwrap() == SessionView::fresh(final(registry)@.unwrap().wiring),
        begun.0.reads(final(registry)@.unwrap().wiring),
        begun.0.drains_its_outer_half(),
        begun.0.raw_hal().is_fresh(),
        begun.1 == old(registry).current(),
{
    let (raw_hal, inner_hal) = InnerHal::new();
    let (init_tx, init_rx) = ready_channel();
    let InnerHal { cmd_rx, evt_tx, acl_rx, acl_tx, iso_rx, iso_tx, sco_rx, sco_tx } = inner_hal;
    let session = Callbacks::new(init_tx, evt_tx, acl_tx, iso_tx, sco_tx);
    let displaced = registry.register(session);
    let outbound = OutboundQueues { cmd_rx, acl_rx, iso_rx, sco_rx };
    (Handshake { init_rx, raw_hal, outbound }, displaced)
}

impl Handshake {
    /// The outer half that this start will hand out.
    pub closed spec fn raw_hal(self) -> RawHal {
        self.raw_hal
    }

    /// The outbound queues that this start will hand out.
    pub closed spec fn outbound(self) -> OutboundQueues {
        self.outbound
    }

    /// The queue that `init_rx` reads: the one this start waits on.
    pub closed spec fn waits_on(self) -> int {
        ready_source_of(self.init_rx)
    }

    /// The receiving ends that this start holds for the packet stack read the
    /// queues of `wiring`: the ready receiver reads its ready queue, and the
    /// outer half's receiver of each kind reads its queue of that kind.
    pub open spec fn reads(self, wiring: Wiring) -> bool {
        &&& self.waits_on() == wiring.ready
        &&& source_of(self.raw_hal().evt_rx) == wiring.events
        &&& source_of(self.raw_hal().acl_rx) == wiring.acl
        &&& source_of(self.raw_hal().sco_rx) == wiring.sco
        &&& source_of(self.raw_hal().iso_rx) == wiring.iso
    }

    /// The outbound queues that this start will hand out are those that the
    /// senders of its outer half feed, kind by kind.
    pub open spec fn drains_its_outer_half(self) -> bool {
        &&& source_of(self.outbound().cmd_rx) == queue_of(self.raw_hal().cmd_tx)
        &&& source_of(self.outbound().acl_rx) == queue_of(self.raw_hal().acl_tx)
        &&& source_of(self.outbound().iso_rx) == queue_of(self.raw_hal().iso_tx)
        &&& source_of(self.outbound().sco_rx) == queue_of(self.raw_hal().sco_tx)
    }

    /// Ends the start, given what the ready queue yielded: a signal, or
    /// `None` because it is closed.
    ///
    /// With a signal the start is complete and the outer half and the
    /// outbound queues are handed out. Without one it has failed.
    pub fn complete(self, signal: Option<()>) -> (started: Result<
        (RawHal, OutboundQueues),
        HandshakeError,
    >)
        ensures
            signal is Some ==> started == Ok::<(RawHal, OutboundQueues), HandshakeError>(
                (self.raw_hal(), self.outbound()),
            ),
            signal is None ==> started == Err::<(RawHal, OutboundQueues), HandshakeError>(
                HandshakeError::ReadyQueueClosed,
            ),
    {
        match signal {
            Some(()) => Ok((self.raw_hal, self.outbound)),
            None => Err(HandshakeError::ReadyQueueClosed),
        }
    }
}

} // verus!
