//! The alphabet of the wire: what a reader of packets can say about a conversation.
use vstd::prelude::*;

verus! {

/// What was seen on any transport.
#[derive(Debug, Clone, PartialEq, Eq)]
pub enum Seen {
    /// The client asked: bytes up.
    Sent { count: u32 },
    /// The client repeated a segment it had already sent.
    Resent { count: u32 },
    /// The target answered: fresh bytes down.
    Received { count: u32 },
    /// The target repeated a segment it had already sent, without progress.
    Restated { count: u32 },
    /// The first bytes of a stream, by which the protocol is recognised.
    Payload { head: Vec<u8>, from_client: bool },
    /// A side said goodbye.
    Closed { by_client: bool },
}

/// Who reset the connection.
#[derive(Debug, Clone, Copy, PartialEq, Eq)]
pub enum ResetBy {
    /// From the target's side of the path.
    TargetSide,
    /// The person closed it.
    Person,
    /// Our own order.
    Ourselves,
}

/// What was seen on a TCP connection: the handshake, resets and windows, or any common letter.
#[derive(Debug, Clone, PartialEq, Eq)]
pub enum SeenTcp {
    /// The client knocked.
    Syn,
    /// The target answered the knock.
    Handshaken,
    /// The target acknowledged everything the client had said.
    Acknowledged,
    /// A reset, and who sent it.
    Rst { by: ResetBy },
    /// A zero receive window: a side asked to wait.
    AskedToWait { by_client: bool },
    /// A letter common to every transport.
    Anywhere(Seen),
}

/// A letter of the wire, tagged by transport.
#[derive(Debug, Clone, PartialEq, Eq)]
pub enum Reading {
    Tcp(SeenTcp),
    Udp(Seen),
}

impl SeenTcp {
    /// The client asked `count` bytes.
    pub fn sent(count: u32) -> (r: SeenTcp)
        ensures
            r == SeenTcp::Anywhere(Seen::Sent { count }),
    {
        SeenTcp::Anywhere(Seen::Sent { count })
    }

    /// The target delivered `count` bytes.
    pub fn received(count: u32) -> (r: SeenTcp)
        ensures
            r == SeenTcp::Anywhere(Seen::Received { count }),
    {
        SeenTcp::Anywhere(Seen::Received { count })
    }

    /// The first bytes of the stream, and from which side.
    pub fn payload(head: Vec<u8>, from_client: bool) -> (r: SeenTcp)
        ensures
            r == SeenTcp::Anywhere(Seen::Payload { head, from_client }),
    {
        SeenTcp::Anywhere(Seen::Payload { head, from_client })
    }

    /// Narrow a wire letter to the TCP alphabet: a datagram has none of it.
    pub fn narrow(reading: Reading) -> (r: Option<SeenTcp>)
        ensures
            r == (match reading {
                Reading::Tcp(seen) => Some(seen),
                Reading::Udp(_) => None,
            }),
    {
        match reading {
            Reading::Tcp(seen) => Some(seen),
            Reading::Udp(_) => None,
        }
    }
}

/// The common letter inside a wire letter, if it has one.
pub open spec fn common_of(reading: Reading) -> Option<Seen> {
    match reading {
        Reading::Udp(seen) => Some(seen),
        Reading::Tcp(SeenTcp::Anywhere(seen)) => Some(seen),
        Reading::Tcp(_) => None,
    }
}

impl Seen {
    /// Narrow a wire letter to the common alphabet: handshake, resets and windows have no letter there.
    pub fn narrow(reading: Reading) -> (r: Option<Seen>)
        ensures
            r == common_of(reading),
    {
        match reading {
            Reading::Udp(seen) => Some(seen),
            Reading::Tcp(SeenTcp::Anywhere(seen)) => Some(seen),
            Reading::Tcp(_) => None,
        }
    }
}

} // verus!
