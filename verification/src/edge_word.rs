//! The word of the edge: what the carrier (conntrack, an eBPF map, another system) knows of a
//! conversation, and the wide letter that pairs a wire letter with it. A wire instrument narrows the
//! pair to its own factor and leaves the edge alone; an edge instrument takes both halves.
use vstd::prelude::*;

use crate::wire::{common_of, Reading, Seen, SeenTcp};

verus! {

/// What the edge counts of one conversation. Each count is `None` where the carrier does not
/// count it: "not counted" is a third value beside zero and many.
#[derive(Debug, Clone, Copy, PartialEq, Eq, Structural)]
pub struct EdgeReading {
    /// Packets from the client up.
    pub down_packets: Option<u64>,
    /// Packets from the target back.
    pub up_packets: Option<u64>,
    /// Bytes from the client up, whole frames.
    pub down_bytes: Option<u64>,
    /// Milliseconds since the conversation opened; monotone, not refreshed by repeats.
    pub age_ms: Option<u64>,
    /// Milliseconds since the last packet.
    pub idle_ms: Option<u64>,
    /// The mark word of the conversation.
    pub mark: u32,
}

/// A wide letter narrowed for an edge instrument: the wire half (`narrow`) and the edge half.
#[derive(Debug, Clone, PartialEq, Eq)]
pub struct Edged<N, V> {
    pub narrow: N,
    pub edge: V,
}

impl<V> Edged<Option<Seen>, V> {
    /// Narrow a wide letter: the wire half to the common alphabet (empty where the letter has no
    /// common form, such as a `SYN`), the edge half as it came. The edge arrives even where the
    /// wire cannot be said, so an edge instrument sees every packet.
    pub fn read(wide: (Reading, V)) -> (r: Option<Edged<Option<Seen>, V>>)
        ensures
            r == Some(Edged { narrow: common_of(wide.0), edge: wide.1 }),
    {
        let (reading, edge) = wide;
        Some(Edged { narrow: Seen::narrow(reading), edge })
    }
}

/// A wire instrument reads the common letter out of a wide letter and ignores the edge.
pub fn seen_of<V>(wide: (Reading, V)) -> (r: Option<Seen>)
    ensures
        r == common_of(wide.0),
{
    Seen::narrow(wide.0)
}

/// A TCP instrument reads its letter out of a wide letter and ignores the edge.
pub fn seen_tcp_of<V>(wide: (Reading, V)) -> (r: Option<SeenTcp>)
    ensures
        r == (match wide.0 {
            Reading::Tcp(seen) => Some(seen),
            Reading::Udp(_) => None::<SeenTcp>,
        }),
{
    SeenTcp::narrow(wide.0)
}

} // verus!
