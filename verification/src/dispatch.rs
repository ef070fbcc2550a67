//! The outbound dispatch loop, one step at a time.
//!
//! The loop waits on the four outbound queues at once. Whatever a wait
//! yields, a packet or the news that a queue is closed for good, is handed
//! to [`Dispatcher::step`], which says what to do with it. The waiting and
//! the call into the controller are the caller's part.

use crate::packet::{OutboundKind, Packet};
use vstd::prelude::*;

verus! {

/// Which of the four outbound queues the loop still waits on.
pub struct LoopState {
    pub command: bool,
    pub acl: bool,
    pub iso: bool,
    pub sco: bool,
}

/// What one wait yielded: the queue it came from and a packet's encoding, or
/// `None` for a queue that is closed and empty.
pub struct Poll {
    pub kind: OutboundKind,
    pub item: Option<Seq<u8>>,
}

/// What the loop does next, with the bytes as a sequence.
pub enum Action {
    Send { kind: OutboundKind, bytes: Seq<u8> },
    Wait,
    Exit,
}

impl LoopState {
    /// The state in which the loop begins: it waits on all four queues.
    pub open spec fn all_open() -> LoopState {
        LoopState { command: true, acl: true, iso: true, sco: true }
    }

    /// Whether the loop still waits on the queue of `kind`.
    pub open spec fn is_open(self, kind: OutboundKind) -> bool {
        match kind {
            OutboundKind::Command => self.command,
            OutboundKind::Acl => self.acl,
            OutboundKind::Iso => self.iso,
            OutboundKind::Sco => self.sco,
        }
    }

    /// The state after the queue of `kind` has been found closed.
    pub open spec fn close(self, kind: OutboundKind) -> LoopState {
        match kind {
            OutboundKind::Command => LoopState { command: false, ..self },
            OutboundKind::Acl => LoopState { acl: false, ..self },
            OutboundKind::Iso => LoopState { iso: false, ..self },
            OutboundKind::Sco => LoopState { sco: false, ..self },
        }
    }

    /// The loop is over: all four queues are closed.
    pub open spec fn finished(self) -> bool {
        !self.command && !self.acl && !self.iso && !self.sco
    }

    /// The number of queues that the loop still waits on.
    pub open spec fn open_queues(self) -> nat {
        let command: nat = if self.command { 1 } else { 0 };
        let acl: nat = if self.acl { 1 } else { 0 };
        let iso: nat = if self.iso { 1 } else { 0 };
        let sco: nat = if self.sco { 1 } else { 0 };
        command + acl + iso + sco
    }

    /// The state after one wait's yield: a packet leaves it as it is, a
    /// closed queue is waited on no more.
    pub open spec fn observe(self, poll: Poll) -> LoopState {
        match poll.item {
            Some(_) => self,
            None => self.close(poll.kind),
        }
    }

    /// What the loop does with one wait's yield: a packet is sent to the
    /// controller under the kind of the queue it came from, and a closed
    /// queue ends the loop if it was the last one open.
    pub open spec fn react(self, poll: Poll) -> Action {
        match poll.item {
            Some(bytes) => Action::Send { kind: poll.kind, bytes },
            None => if self.close(poll.kind).finished() {
                Action::Exit
            } else {
                Action::Wait
            },
        }
    }

    /// What the loop does, step by step, with the yields of a run of waits.
    pub open spec fn answers(self, polls: Seq<Poll>) -> Seq<Action>
        decreases polls.len(),
    {
        if polls.len() == 0 {
            Seq::empty()
        } else {
            self.answers(polls.drop_last()).push(self.run(polls.drop_last()).react(polls.last()))
        }
    }

    /// The state after the yields of a run of waits, first to last.
    pub open spec fn run(self, polls: Seq<Poll>) -> LoopState
        decreases polls.len(),
    {
        if polls.len() == 0 {
            self
        } else {
            self.run(polls.drop_last()).observe(polls.last())
        }
    }
}

/// What one wait of the loop yielded.
#[derive(Debug, PartialEq, Eq)]
pub struct Polled {
    /// The queue that yielded.
    pub kind: OutboundKind,
    /// The packet it yielded, or `None` if it is closed and empty.
    pub item: Option<Packet>,
}

impl View for Polled {
    type V = Poll;

    open spec fn view(&self) -> Poll {
        Poll {
            kind: self.kind,
            item: match self.item {
                Some(packet) => Some(packet@),
                None => None,
            },
        }
    }
}

/// What the loop does next.
#[derive(Debug, PartialEq, Eq)]
pub enum Dispatch {
    /// Call the controller's send entry point for `kind` with `bytes`, once,
    /// then wait again.
    Send { kind: OutboundKind, bytes: Vec<u8> },
    /// Nothing to send: wait again, on the queues that are still open.
    Wait,
    /// All four queues are closed: leave the loop.
    Exit,
}

impl View for Dispatch {
    type V = Action;

    open spec fn view(&self) -> Action {
        match *self {
            Dispatch::Send { kind, bytes } => Action::Send { kind, bytes: bytes@ },
            Dispatch::Wait => Action::Wait,
            Dispatch::Exit => Action::Exit,
        }
    }
}

/// What a step does with one wait's yield, as a relation between the state
/// before, the state after and the answer.
///
/// A packet is sent to the controller under the kind of the queue it came
/// from, as the bytes that encode it, and the state stays. A closed queue is
/// struck from the state, and the loop is left if and only if none is open
/// after that.
pub open spec fn dispatched(before: LoopState, after: LoopState, poll: Poll, answer: Dispatch) -> bool {
    &&& after == before.observe(poll)
    &&& answer@ == before.react(poll)
}

/// The state of the dispatch loop.
pub struct Dispatcher {
    command_open: bool,
    acl_open: bool,
    iso_open: bool,
    sco_open: bool,
}

impl View for Dispatcher {
    type V = LoopState;

    closed spec fn view(&self) -> LoopState {
        LoopState {
            command: self.command_open,
            acl: self.acl_open,
            iso: self.iso_open,
            sco: self.sco_open,
        }
    }
}

impl Dispatcher {
    /// A loop that waits on all four queues.
    pub fn new() -> (dispatcher: Dispatcher)
        ensures
            dispatcher@ == LoopState::all_open(),
    {
        Dispatcher { command_open: true, acl_open: true, iso_open: true, sco_open: true }
    }

    /// Whether the loop still waits on the queue of `kind`.
    pub fn is_open(&self, kind: OutboundKind) -> (open: bool)
        ensures
            open == self@.is_open(kind),
    {
        match kind {
            OutboundKind::Command => self.command_open,
            OutboundKind::Acl => self.acl_open,
            OutboundKind::Iso => self.iso_open,
            OutboundKind::Sco => self.sco_open,
        }
    }

    /// Whether the loop is over.
    pub fn is_done(&self) -> (done: bool)
        ensures
            done == self@.finished(),
    {
        !self.command_open && !self.acl_open && !self.iso_open && !self.sco_open
    }

    /// Takes what one wait yielded and says what to do next.
    pub fn step(&mut self, polled: Polled) -> (answer: Dispatch)
        ensures
            dispatched(old(self)@, final(self)@, polled@, answer),
    {
        let Polled { kind, item } = polled;
        match item {
            Some(packet) => Dispatch::Send { kind, bytes: packet.to_bytes() },
            None => {
                match kind {
                    OutboundKind::Command => self.command_open = false,
                    OutboundKind::Acl => self.acl_open = false,
                    OutboundKind::Iso => self.iso_open = false,
                    OutboundKind::Sco => self.sco_open = false,
                }
                if self.is_done() {
                    Dispatch::Exit
                } else {
                    Dispatch::Wait
                }
            },
        }
    }
}

/// The number of waits in `polls` that yielded a packet.
pub open spec fn packets(polls: Seq<Poll>) -> nat
    decreases polls.len(),
{
    if polls.len() == 0 {
        0
    } else if polls.last().item is Some {
        packets(polls.drop_last()) + 1
    } else {
        packets(polls.drop_last())
    }
}

/// The number of waits in `polls` that found a queue closed.
pub open spec fn closings(polls: Seq<Poll>) -> nat
    decreases polls.len(),
{
    if polls.len() == 0 {
        0
    } else if polls.last().item is None {
        closings(polls.drop_last()) + 1
    } else {
        closings(polls.drop_last())
    }
}

/// Every wait in `polls` was on a queue that the loop, begun in `state`, still
/// waited on at that time.
pub open spec fn attentive(state: LoopState, polls: Seq<Poll>) -> bool
    decreases polls.len(),
{
    polls.len() == 0 || {
        &&& attentive(state, polls.drop_last())
        &&& state.run(polls.drop_last()).is_open(polls.last().kind)
    }
}

/// A queue that the loop has stopped waiting on is never waited on again.
pub proof fn closed_queues_stay_closed(state: LoopState, polls: Seq<Poll>, kind: OutboundKind)
    requires
        !state.is_open(kind),
    ensures
        !state.run(polls).is_open(kind),
    decreases polls.len(),
{
    if polls.len() > 0 {
        closed_queues_stay_closed(state, polls.drop_last(), kind);
    }
}

/// Once a wait has found the queue of a kind closed, the loop no longer
/// waits on it, whatever the later waits yield.
pub proof fn closing_is_final(state: LoopState, polls: Seq<Poll>, at: int)
    requires
        0 <= at < polls.len(),
        polls[at].item is None,
    ensures
        !state.run(polls).is_open(polls[at].kind),
    decreases polls.len(),
{
    let earlier = polls.drop_last();
    if at < earlier.len() {
        closing_is_final(state, earlier, at);
    }
}

/// The loop ends when all its queues have closed: after a run of waits in
/// which each queue that was open at the beginning has been found closed,
/// the loop is over, whatever else the waits yielded and in whatever order.
pub proof fn loop_ends_when_all_queues_close(state: LoopState, polls: Seq<Poll>)
    requires
        forall|kind: OutboundKind| #[trigger]
            state.is_open(kind) ==> exists|at: int|
                0 <= at < polls.len() && (#[trigger] polls[at]).kind == kind && polls[at].item
                    is None,
    ensures
        state.run(polls).finished(),
{
    assert forall|kind: OutboundKind| !(#[trigger] state.run(polls).is_open(kind)) by {
        if state.is_open(kind) {
            let at = choose|at: int|
                0 <= at < polls.len() && (#[trigger] polls[at]).kind == kind && polls[at].item
                    is None;
            closing_is_final(state, polls, at);
        } else {
            closed_queues_stay_closed(state, polls, kind);
        }
    }
    assert(!state.run(polls).is_open(OutboundKind::Command));
    assert(!state.run(polls).is_open(OutboundKind::Acl));
    assert(!state.run(polls).is_open(OutboundKind::Iso));
    assert(!state.run(polls).is_open(OutboundKind::Sco));
}

/// The loop takes a bounded number of steps: while it only waits on queues
/// that are still open, every wait yields a packet or closes one more queue,
/// so a run has as many steps as it moved packets and closed queues, and it
/// cannot close more queues than were open at its beginning, of which there
/// are at most four. It is over exactly when it has closed them all.
pub proof fn steps_are_bounded(state: LoopState, polls: Seq<Poll>)
    requires
        attentive(state, polls),
    ensures
        polls.len() == packets(polls) + closings(polls),
        closings(polls) + state.run(polls).open_queues() == state.open_queues(),
        closings(polls) <= 4,
        state.run(polls).finished() <==> closings(polls) == state.open_queues(),
    decreases polls.len(),
{
    if polls.len() > 0 {
        steps_are_bounded(state, polls.drop_last());
    }
}

/// The bytes that `answers` send to the controller under `kind`, in the
/// order of the answers.
pub open spec fn sends_of(answers: Seq<Action>, kind: OutboundKind) -> Seq<Seq<u8>>
    decreases answers.len(),
{
    if answers.len() == 0 {
        Seq::empty()
    } else {
        match answers.last() {
            Action::Send { kind: sent_as, bytes } if sent_as == kind => sends_of(
                answers.drop_last(),
                kind,
            ).push(bytes),
            _ => sends_of(answers.drop_last(), kind),
        }
    }
}

/// The packets that the queue of `kind` yielded in `polls`, in the order in
/// which it yielded them.
pub open spec fn polled_of(polls: Seq<Poll>, kind: OutboundKind) -> Seq<Seq<u8>>
    decreases polls.len(),
{
    if polls.len() == 0 {
        Seq::empty()
    } else if polls.last().kind == kind && polls.last().item is Some {
        polled_of(polls.drop_last(), kind).push(polls.last().item.unwrap())
    } else {
        polled_of(polls.drop_last(), kind)
    }
}

/// Packets of one kind reach the controller in the order in which their
/// queue yielded them: over a whole run the loop answers each wait once, and
/// what it sends under a kind is exactly what the queue of that kind
/// yielded, first to last. Between kinds no order is promised.
pub proof fn sends_keep_order(state: LoopState, polls: Seq<Poll>, kind: OutboundKind)
    ensures
        state.answers(polls).len() == polls.len(),
        sends_of(state.answers(polls), kind) == polled_of(polls, kind),
    decreases polls.len(),
{
    if polls.len() > 0 {
        sends_keep_order(state, polls.drop_last(), kind);
        let earlier = state.answers(polls.drop_last());
        let last = state.run(polls.drop_last()).react(polls.last());
        assert(state.answers(polls).drop_last() == earlier);
        assert(state.answers(polls).last() == last);
    }
}

/// The loop answers `Exit` to the last wait of a run if and only if that
/// wait found a queue closed and no queue is open after it.
pub proof fn exit_ends_the_run(state: LoopState, polls: Seq<Poll>)
    requires
        polls.len() > 0,
    ensures
        state.answers(polls).last() is Exit <==> (polls.last().item is None
            && state.run(polls).finished()),
{
}

} // verus!
