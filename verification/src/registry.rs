//! The session registry and the inbound forwarding path.
//!
//! A session is the set of sending ends through which buffers from the
//! controller reach the packet stack. The registry holds at most one session:
//! the current one. The controller's callbacks look it up there.

use crate::channel::{queue_of, ready_queue_of, send_packet, send_ready, sent, signalled};
use crate::packet::{InboundKind, Packet};
use tokio::sync::mpsc::UnboundedSender;
use vstd::prelude::*;

verus! {

/// The queues that a session feeds: the ready queue and one queue for each
/// kind of inbound packet.
pub struct Wiring {
    pub ready: int,
    pub events: int,
    pub acl: int,
    pub sco: int,
    pub iso: int,
}

impl Wiring {
    /// The queue that takes the packets of `kind`.
    pub open spec fn queue(self, kind: InboundKind) -> int {
        match kind {
            InboundKind::Event => self.events,
            InboundKind::Acl => self.acl,
            InboundKind::Sco => self.sco,
            InboundKind::Iso => self.iso,
        }
    }
}

/// Which queues a session feeds and what it has done so far.
pub struct SessionView {
    /// The queues that the session feeds. They never change.
    pub wiring: Wiring,
    /// Whether the session has passed the ready signal on.
    pub ready_sent: bool,
    /// How many ready signals the session's ready queue has taken.
    pub ready_signals: nat,
    /// The events forwarded, oldest first.
    pub events: Seq<Seq<u8>>,
    /// The ACL packets forwarded, oldest first.
    pub acl: Seq<Seq<u8>>,
    /// The SCO packets forwarded, oldest first.
    pub sco: Seq<Seq<u8>>,
    /// The ISO packets forwarded, oldest first.
    pub iso: Seq<Seq<u8>>,
}

impl SessionView {
    /// The packets of `kind` forwarded so far, oldest first.
    pub open spec fn queue(self, kind: InboundKind) -> Seq<Seq<u8>> {
        match kind {
            InboundKind::Event => self.events,
            InboundKind::Acl => self.acl,
            InboundKind::Sco => self.sco,
            InboundKind::Iso => self.iso,
        }
    }

    /// A session on the queues of `wiring` that has done nothing yet.
    pub open spec fn fresh(wiring: Wiring) -> SessionView {
        SessionView {
            wiring,
            ready_sent: false,
            ready_signals: 0,
            events: Seq::empty(),
            acl: Seq::empty(),
            sco: Seq::empty(),
            iso: Seq::empty(),
        }
    }

    /// The session after `packet` has gone into its queue of `kind`.
    pub open spec fn forward(self, kind: InboundKind, packet: Seq<u8>) -> SessionView {
        match kind {
            InboundKind::Event => SessionView { events: self.events.push(packet), ..self },
            InboundKind::Acl => SessionView { acl: self.acl.push(packet), ..self },
            InboundKind::Sco => SessionView { sco: self.sco.push(packet), ..self },
            InboundKind::Iso => SessionView { iso: self.iso.push(packet), ..self },
        }
    }

    /// The session after one buffer of `kind` has been delivered: forwarded
    /// if it decoded, left out if it did not.
    pub open spec fn deliver(self, kind: InboundKind, decoded: Option<Seq<u8>>) -> SessionView {
        match decoded {
            Some(packet) => self.forward(kind, packet),
            None => self,
        }
    }

    /// The session after the buffers of `kind` have been delivered one after
    /// the other, first to last.
    pub open spec fn deliver_all(
        self,
        kind: InboundKind,
        buffers: Seq<Option<Seq<u8>>>,
    ) -> SessionView
        decreases buffers.len(),
    {
        if buffers.len() == 0 {
            self
        } else {
            self.deliver_all(kind, buffers.drop_last()).deliver(kind, buffers.last())
        }
    }

    /// The session after the controller has reported that it is ready: the
    /// first report is passed on, later ones change nothing.
    pub open spec fn signal(self) -> SessionView {
        if self.ready_sent {
            self
        } else {
            SessionView { ready_sent: true, ready_signals: self.ready_signals + 1, ..self }
        }
    }

    /// The session after the controller has reported `times` times that it is
    /// ready.
    pub open spec fn signal_repeatedly(self, times: nat) -> SessionView
        decreases times,
    {
        if times == 0 {
            self
        } else {
            self.signal_repeatedly((times - 1) as nat).signal()
        }
    }
}

/// The sending ends of one session: the ready queue and the four inbound
/// queues.
pub struct Callbacks {
    init_tx: UnboundedSender<()>,
    evt_tx: UnboundedSender<Packet>,
    acl_tx: UnboundedSender<Packet>,
    iso_tx: UnboundedSender<Packet>,
    sco_tx: UnboundedSender<Packet>,
    ready_sent: bool,
}

impl View for Callbacks {
    type V = SessionView;

    closed spec fn view(&self) -> SessionView {
        SessionView {
            wiring: Wiring {
                ready: ready_queue_of(self.init_tx),
                events: queue_of(self.evt_tx),
                acl: queue_of(self.acl_tx),
                sco: queue_of(self.sco_tx),
                iso: queue_of(self.iso_tx),
            },
            ready_sent: self.ready_sent,
            ready_signals: signalled(self.init_tx),
            events: sent(self.evt_tx),
            acl: sent(self.acl_tx),
            sco: sent(self.sco_tx),
            iso: sent(self.iso_tx),
        }
    }
}

/// What became of one ready report from the controller.
#[derive(Clone, Copy, Debug, PartialEq, Eq, Structural)]
pub enum ReadyOutcome {
    /// The report was the session's first and went into the ready queue.
    Signalled,
    /// The session had passed a report on before; this one was ignored.
    AlreadySignalled,
    /// The report was the session's first, but nobody waits for it any more:
    /// the ready queue is closed.
    Undeliverable,
}

/// What became of one buffer from the controller.
#[derive(Debug, PartialEq, Eq)]
pub enum Inbound {
    /// The buffer decoded and the packet went into the session's queue.
    Forwarded,
    /// The buffer did not decode and was left out.
    Dropped,
    /// The buffer decoded, but the queue for its kind is closed: the packet
    /// stack is gone. The packet comes back.
    Undeliverable(Packet),
}

/// What delivering one buffer of `kind` does to a session, for
/// each outcome: `decoded` is the packet that the buffer decoded to, or `None`
/// if it did not decode.
///
/// A buffer that did not decode is dropped and leaves the session as it was.
/// A packet is forwarded, and then is the newest in the session's queue of
/// its kind, or it comes back, and then the session is as it was.
pub open spec fn delivered(
    before: SessionView,
    after: SessionView,
    kind: InboundKind,
    decoded: Option<Packet>,
    outcome: Inbound,
) -> bool {
    match outcome {
        Inbound::Forwarded => {
            &&& decoded is Some
            &&& after == before.forward(kind, decoded.unwrap()@)
        },
        Inbound::Dropped => {
            &&& decoded is None
            &&& after == before
        },
        Inbound::Undeliverable(back) => {
            &&& decoded == Some(back)
            &&& after == before
        },
    }
}

/// What one ready report does to a session, for each outcome.
///
/// The session's first report is passed on, or it finds the ready queue
/// closed and the session stays as it was. Any later report is ignored.
pub open spec fn reported(before: SessionView, after: SessionView, outcome: ReadyOutcome) -> bool {
    match outcome {
        ReadyOutcome::Signalled => {
            &&& !before.ready_sent
            &&& after == before.signal()
        },
        ReadyOutcome::AlreadySignalled => {
            &&& before.ready_sent
            &&& after == before
        },
        ReadyOutcome::Undeliverable => {
            &&& !before.ready_sent
            &&& after == before
        },
    }
}

impl ReadyOutcome {
    /// The outcome of a first ready report, given whether the ready queue
    /// took the signal.
    pub fn of_send(accepted: bool) -> (outcome: ReadyOutcome)
        ensures
            accepted ==> outcome == ReadyOutcome::Signalled,
            !accepted ==> outcome == ReadyOutcome::Undeliverable,
    {
        if accepted {
            ReadyOutcome::Signalled
        } else {
            ReadyOutcome::Undeliverable
        }
    }
}

impl Inbound {
    /// The outcome for a decoded packet, given what its queue answered: `Ok`
    /// if it took the packet, else the packet.
    pub fn of_send(answer: Result<(), Packet>) -> (outcome: Inbound)
        ensures
            answer is Ok ==> outcome == Inbound::Forwarded,
            answer matches Err(back) ==> outcome == Inbound::Undeliverable(back),
    {
        match answer {
            Ok(()) => Inbound::Forwarded,
            Err(back) => Inbound::Undeliverable(back),
        }
    }
}

impl Callbacks {
    /// A session over the given sending ends that has not passed a ready
    /// signal on.
    pub fn new(
        init_tx: UnboundedSender<()>,
        evt_tx: UnboundedSender<Packet>,
        acl_tx: UnboundedSender<Packet>,
        iso_tx: UnboundedSender<Packet>,
        sco_tx: UnboundedSender<Packet>,
    ) -> (session: Callbacks)
        ensures
            session@ == (SessionView {
                wiring: Wiring {
                    ready: ready_queue_of(init_tx),
                    events: queue_of(evt_tx),
                    acl: queue_of(acl_tx),
                    sco: queue_of(sco_tx),
                    iso: queue_of(iso_tx),
                },
                ready_sent: false,
                ready_signals: signalled(init_tx),
                events: sent(evt_tx),
                acl: sent(acl_tx),
                sco: sent(sco_tx),
                iso: sent(iso_tx),
            }),
    {
        Callbacks { init_tx, evt_tx, acl_tx, iso_tx, sco_tx, ready_sent: false }
    }

    /// Passes the controller's ready report on, unless the session has done
    /// so before.
    pub fn signal_ready(&mut self) -> (outcome: ReadyOutcome)
        ensures
            reported(old(self)@, final(self)@, outcome),
    {
        if self.ready_sent {
            ReadyOutcome::AlreadySignalled
        } else {
            let accepted = send_ready(&mut self.init_tx);
            if accepted {
                self.ready_sent = true;
            }
            ReadyOutcome::of_send(accepted)
        }
    }

    /// Puts a decoded packet into the session's queue of `kind`.
    pub fn forward(&mut self, kind: InboundKind, packet: Packet) -> (outcome: Inbound)
        ensures
            delivered(old(self)@, final(self)@, kind, Some(packet), outcome),
    {
        let answer = match kind {
            InboundKind::Event => send_packet(&mut self.evt_tx, packet),
            InboundKind::Acl => send_packet(&mut self.acl_tx, packet),
            InboundKind::Sco => send_packet(&mut self.sco_tx, packet),
            InboundKind::Iso => send_packet(&mut self.iso_tx, packet),
        };
        Inbound::of_send(answer)
    }
}

/// The slot that holds the current session, if there is one.
pub struct Registry {
    slot: Option<Callbacks>,
}

impl View for Registry {
    type V = Option<SessionView>;

    open spec fn view(&self) -> Option<SessionView> {
        match self.current() {
            Some(session) => Some(session@),
            None => None,
        }
    }
}

impl Registry {
    /// The current session.
    pub closed spec fn current(&self) -> Option<Callbacks> {
        self.slot
    }

    /// A registry without a session.
    pub fn new() -> (registry: Registry)
        ensures
            registry.current() is None,
    {
        Registry { slot: None }
    }

    /// Whether a session is registered.
    pub fn is_registered(&self) -> (registered: bool)
        ensures
            registered == (self.current() is Some),
    {
        self.slot.is_some()
    }

    /// Makes `session` the current one and hands back the one it displaces.
    /// The displaced session is not touched: to drop it, and with it the
    /// sending ends of its queues, is up to the caller.
    pub fn register(&mut self, session: Callbacks) -> (displaced: Option<Callbacks>)
        ensures
            final(self).current() == Some(session),
            displaced == old(self).current(),
    {
        let displaced = self.slot.take();
        self.slot = Some(session);
        displaced
    }
}

/// Looks the current session up and delivers one buffer of `kind` to it:
/// `decoded` is the packet that the buffer decoded to, or `None` if it did
/// not decode.
pub fn dispatch_inbound(
    registry: &mut Registry,
    kind: InboundKind,
    decoded: Option<Packet>,
) -> (outcome: Inbound)
    requires
        old(registry).current() is Some,
    ensures
        final(registry).current() is Some,
        delivered(old(registry)@.unwrap(), final(registry)@.unwrap(), kind, decoded, outcome),
{
    match decoded {
        None => Inbound::Dropped,
        Some(packet) => registry.slot.as_mut().unwrap().forward(kind, packet),
    }
}

/// The controller reports that it is ready.
pub fn on_init_complete(registry: &mut Registry) -> (outcome: ReadyOutcome)
    requires
        old(registry).current() is Some,
    ensures
        final(registry).current() is Some,
        reported(old(registry)@.unwrap(), final(registry)@.unwrap(), outcome),
{
    registry.slot.as_mut().unwrap().signal_ready()
}

/// The controller delivers an event buffer.
pub fn on_event(registry: &mut Registry, decoded: Option<Packet>) -> (outcome: Inbound)
    requires
        old(registry).current() is Some,
    ensures
        final(registry).current() is Some,
        delivered(
            old(registry)@.unwrap(),
            final(registry)@.unwrap(),
            InboundKind::Event,
            decoded,
            outcome,
        ),
{
    dispatch_inbound(registry, InboundKind::Event, decoded)
}

/// The controller delivers an ACL buffer.
pub fn on_acl(registry: &mut Registry, decoded: Option<Packet>) -> (outcome: Inbound)
    requires
        old(registry).current() is Some,
    ensures
        final(registry).current() is Some,
        delivered(
            old(registry)@.unwrap(),
            final(registry)@.unwrap(),
            InboundKind::Acl,
            decoded,
            outcome,
        ),
{
    dispatch_inbound(registry, InboundKind::Acl, decoded)
}

/// The controller delivers a SCO buffer.
pub fn on_sco(registry: &mut Registry, decoded: Option<Packet>) -> (outcome: Inbound)
    requires
        old(registry).current() is Some,
    ensures
        final(registry).current() is Some,
        delivered(
            old(registry)@.unwrap(),
            final(registry)@.unwrap(),
            InboundKind::Sco,
            decoded,
            outcome,
        ),
{
    dispatch_inbound(registry, InboundKind::Sco, decoded)
}

/// The controller delivers an ISO buffer.
pub fn on_iso(registry: &mut Registry, decoded: Option<Packet>) -> (outcome: Inbound)
    requires
        old(registry).current() is Some,
    ensures
        final(registry).current() is Some,
        delivered(
            old(registry)@.unwrap(),
            final(registry)@.unwrap(),
            InboundKind::Iso,
            decoded,
            outcome,
        ),
{
    dispatch_inbound(registry, InboundKind::Iso, decoded)
}

/// The encoding of the packet that a buffer decoded to, if it decoded.
pub open spec fn encoding(decoded: Option<Packet>) -> Option<Seq<u8>> {
    match decoded {
        Some(packet) => Some(packet@),
        None => None,
    }
}

/// The packets among `buffers`, in the order of the buffers: those that did
/// not decode are left out.
pub open spec fn decodable(buffers: Seq<Option<Seq<u8>>>) -> Seq<Seq<u8>>
    decreases buffers.len(),
{
    if buffers.len() == 0 {
        Seq::empty()
    } else {
        match buffers.last() {
            Some(packet) => decodable(buffers.drop_last()).push(packet),
            None => decodable(buffers.drop_last()),
        }
    }
}

/// Buffers that all decoded, one for each of `packets`.
pub open spec fn all_decoded(packets: Seq<Seq<u8>>) -> Seq<Option<Seq<u8>>> {
    Seq::new(packets.len(), |at: int| Some(packets[at]))
}

/// Unless the queue is closed, a delivery leaves the session as
/// [`SessionView::deliver`] says.
pub proof fn delivery_follows_model(
    before: SessionView,
    after: SessionView,
    kind: InboundKind,
    decoded: Option<Packet>,
    outcome: Inbound,
)
    requires
        delivered(before, after, kind, decoded, outcome),
        !(outcome is Undeliverable),
    ensures
        after == before.deliver(kind, encoding(decoded)),
        outcome is Forwarded <==> decoded is Some,
        outcome is Dropped <==> decoded is None,
{
}

/// Unless the ready queue is closed, a ready report leaves the session as
/// [`SessionView::signal`] says.
pub proof fn report_follows_model(before: SessionView, after: SessionView, outcome: ReadyOutcome)
    requires
        reported(before, after, outcome),
        !(outcome is Undeliverable),
    ensures
        after == before.signal(),
        outcome is Signalled <==> !before.ready_sent,
{
}

/// Delivering buffers of one kind adds to the session's queue of that kind
/// exactly the packets among them, in the order in which they were
/// delivered. A buffer that did not decode leaves no trace, and nothing else
/// in the session changes.
pub proof fn undecodable_buffers_leave_no_trace(
    session: SessionView,
    kind: InboundKind,
    buffers: Seq<Option<Seq<u8>>>,
)
    ensures
        session.deliver_all(kind, buffers).queue(kind) == session.queue(kind) + decodable(
            buffers,
        ),
        forall|other: InboundKind|
            other != kind ==> #[trigger] session.deliver_all(kind, buffers).queue(other)
                == session.queue(other),
        session.deliver_all(kind, buffers).ready_sent == session.ready_sent,
        session.deliver_all(kind, buffers).ready_signals == session.ready_signals,
        session.deliver_all(kind, buffers).wiring == session.wiring,
    decreases buffers.len(),
{
    if buffers.len() > 0 {
        let earlier = buffers.drop_last();
        undecodable_buffers_leave_no_trace(session, kind, earlier);
        assert forall|other: InboundKind| other != kind implies #[trigger] session.deliver_all(
            kind,
            buffers,
        ).queue(other) == session.queue(other) by {
            assert(session.deliver_all(kind, earlier).queue(other) == session.queue(other));
        }
    }
}

/// Packets of one kind are forwarded in the order in which they came: after
/// buffers that all decoded, to `packets`, have been delivered first to last,
/// the session's queue of that kind holds what it held before and then
/// `packets`, first to last.
pub proof fn forwarding_keeps_order(
    session: SessionView,
    kind: InboundKind,
    packets: Seq<Seq<u8>>,
)
    ensures
        session.deliver_all(kind, all_decoded(packets)).queue(kind) == session.queue(kind)
            + packets,
{
    all_decoded_are_decodable(packets);
    undecodable_buffers_leave_no_trace(session, kind, all_decoded(packets));
}

/// Of buffers that all decoded, none is left out.
pub proof fn all_decoded_are_decodable(packets: Seq<Seq<u8>>)
    ensures
        decodable(all_decoded(packets)) == packets,
    decreases packets.len(),
{
    if packets.len() > 0 {
        all_decoded_are_decodable(packets.drop_last());
        assert(all_decoded(packets).drop_last() == all_decoded(packets.drop_last()));
    }
}

/// A buffer that did not decode, delivered between two that did, does not
/// show in the queue, and the two packets are in it in the order in which
/// they came.
pub proof fn undecodable_between_two(
    session: SessionView,
    kind: InboundKind,
    first: Seq<u8>,
    second: Seq<u8>,
)
    ensures
        session.deliver_all(kind, seq![Some(first), None, Some(second)]).queue(kind)
            == session.queue(kind).push(first).push(second),
{
    let three = seq![Some(first), None, Some(second)];
    let two = seq![Some(first), None];
    let one = seq![Some(first)];
    assert(three.drop_last() == two);
    assert(two.drop_last() == one);
    assert(one.drop_last() == Seq::<Option<Seq<u8>>>::empty());
    assert(session.deliver_all(kind, one.drop_last()) == session);
    assert(session.deliver_all(kind, one) == session.forward(kind, first));
    assert(session.deliver_all(kind, two) == session.forward(kind, first));
}

/// The ready signal is passed on exactly once: however often the controller
/// reports that it is ready, and it does so at least once, the session's
/// ready queue takes one signal from a session that had passed none on.
/// A session that has passed one on ignores every further report.
pub proof fn ready_is_passed_on_once(session: SessionView, times: nat)
    ensures
        session.ready_sent ==> session.signal_repeatedly(times) == session,
        !session.ready_sent && times >= 1 ==> session.signal_repeatedly(times) == session.signal(),
        !session.ready_sent && times >= 1 ==> session.signal_repeatedly(times).ready_signals
            == session.ready_signals + 1,
    decreases times,
{
    if times > 0 {
        ready_is_passed_on_once(session, (times - 1) as nat);
        assert(session.signal_repeatedly(0) == session);
    }
}

} // verus!
