//! Packets and the kinds they come in.

use vstd::prelude::*;

verus! {

/// The kinds of packet that the controller delivers to the host.
#[derive(Clone, Copy, Debug, PartialEq, Eq, Structural)]
pub enum InboundKind {
    Event,
    Acl,
    Sco,
    Iso,
}

/// The kinds of packet that the host sends to the controller. There is no
/// outbound event: events only travel from the controller to the host.
#[derive(Clone, Copy, Debug, PartialEq, Eq, Structural)]
pub enum OutboundKind {
    Command,
    Acl,
    Iso,
    Sco,
}

/// A packet that has been decoded successfully, held by its byte encoding.
///
/// The encoding of a packet determines it and is determined by it, so the
/// bytes stand for the packet. Which kind a packet is of follows from the
/// queue that carries it.
#[derive(Clone, Debug, PartialEq, Eq)]
pub struct Packet {
    bytes: Vec<u8>,
}

impl View for Packet {
    type V = Seq<u8>;

    closed spec fn view(&self) -> Seq<u8> {
        self.bytes@
    }
}

impl Packet {
    /// The packet that `bytes` encode.
    pub closed spec fn decoded(bytes: Vec<u8>) -> Packet {
        Packet { bytes }
    }

    /// The bytes that encode the packet.
    pub closed spec fn encoded(self) -> Vec<u8> {
        self.bytes
    }

    /// The packet whose encoding is `bytes`.
    pub fn from_bytes(bytes: Vec<u8>) -> (packet: Packet)
        ensures
            packet == Packet::decoded(bytes),
            packet@ == bytes@,
    {
        Packet { bytes }
    }

    /// The encoding of the packet.
    pub fn to_bytes(self) -> (bytes: Vec<u8>)
        ensures
            bytes == self.encoded(),
            bytes@ == self@,
    {
        self.bytes
    }

    /// The encoding of the packet, borrowed.
    pub fn as_bytes(&self) -> (bytes: &Vec<u8>)
        ensures
            *bytes == self.encoded(),
            bytes@ == self@,
    {
        &self.bytes
    }
}

/// A packet and its encoding determine each other: the encoding of a packet
/// reads back as that packet, and bytes read as a packet encode to those
/// bytes again.
pub proof fn bytes_round_trip(bytes: Vec<u8>, packet: Packet)
    ensures
        Packet::decoded(packet.encoded()) == packet,
        Packet::decoded(bytes).encoded() == bytes,
        Packet::decoded(bytes)@ == bytes@,
        packet.encoded()@ == packet@,
{
}

} // verus!
