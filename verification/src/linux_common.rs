//! What the kernel side and the userspace side of the datapath share: the actions of the flow
//! table, the fate of a frame at the seam of the transparent intercept, the mode of the lift, the
//! slots of the steering counters, the probe's reserved ports, and the records the datapath writes
//! (`FlowEvent`, `Sighting`). Multi-byte fields of the records are in network order, as on the wire.
use vstd::prelude::*;

verus! {

/// The action the datapath takes for a flow, by its one-byte code in the flow table.
#[derive(Copy, Clone, Debug, PartialEq, Eq, Structural)]
pub enum FlowAction {
    /// Pass the packet through to the bridge (the default).
    Pass,
    /// Drop the packet silently.
    Drop,
    /// Copy the packet to userspace, then drop it.
    CopyAndDrop,
    /// Steer the target flow into the local carrier; set only when the carrier is ready to own it.
    /// Until the steering mechanism is validated, the datapath treats it as `Pass` (fail-open).
    Steer,
}

/// The code of each action in the flow table.
pub open spec fn action_code(a: FlowAction) -> u8 {
    match a {
        FlowAction::Pass => 0,
        FlowAction::Drop => 1,
        FlowAction::CopyAndDrop => 2,
        FlowAction::Steer => 3,
    }
}

impl FlowAction {
    /// The code of the action in the flow table.
    pub fn code(self) -> (r: u8)
        ensures
            r == action_code(self),
    {
        match self {
            FlowAction::Pass => 0,
            FlowAction::Drop => 1,
            FlowAction::CopyAndDrop => 2,
            FlowAction::Steer => 3,
        }
    }
}

/// The fate of a frame at the seam of the transparent L2 intercept. A frame taken off the transit
/// and owned by nobody (a black hole) cannot be expressed by this type at all.
#[derive(Copy, Clone, Debug, PartialEq, Eq, Structural)]
pub enum Fate {
    /// Stays on the transparent L2 transit: not a target, OR fail-open while the carrier is not ready.
    Transit,
    /// Steered into the local carrier, which took ownership.
    Owned,
}

impl Fate {
    /// The projection of a fate into the action the control puts into the flow table.
    pub fn action(self) -> (r: FlowAction)
        ensures
            r == (if self == Fate::Owned { FlowAction::Steer } else { FlowAction::Pass }),
    {
        match self {
            Fate::Owned => FlowAction::Steer,
            Fate::Transit => FlowAction::Pass,
        }
    }
}

/// The mode of the lift: WHAT enters the datapath at all.
#[derive(Copy, Clone, Debug, PartialEq, Eq, Structural)]
pub enum SteerMode {
    /// Lift only destinations among the learned targets. Code 0.
    Surgical,
    /// Lift ALL of HTTPS: a name is visible only inside a connection. Code 1, and the fail-safe.
    All443,
    /// Lift by the MAP: a destination in the registry or among the learned targets. Code 2.
    ByMap,
}

/// The mode of a raw byte from the map. An unknown code is `All443`: a fail-safe towards the
/// product's purpose (a loss of speed is an acceptable failure, a loss of access is not).
pub open spec fn mode_of(raw: u8) -> SteerMode {
    if raw == 0 {
        SteerMode::Surgical
    } else if raw == 2 {
        SteerMode::ByMap
    } else {
        SteerMode::All443
    }
}

/// The mode of a raw byte from the map.
pub fn steer_mode_of(raw: u8) -> (r: SteerMode)
    ensures
        r == mode_of(raw),
{
    if raw == 0 {
        SteerMode::Surgical
    } else if raw == 2 {
        SteerMode::ByMap
    } else {
        SteerMode::All443
    }
}

/// The slots of the steering counters: one per stage of the steering pipeline, in the order a
/// frame flows; the difference of neighbours shows WHERE frames are lost.
#[derive(Copy, Clone, Debug, PartialEq, Eq, Structural)]
pub enum SteerStat {
    /// The frame reached the ingress hook at all.
    Seen,
    /// Parsed as IPv4 + TCP with valid header bounds.
    Ipv4Tcp,
    /// The frame is a candidate of the intercept.
    TargetHit,
    /// Delivered: redirected, or its destination MAC rewritten.
    Rewritten,
    /// A transit frame whose payload begins as a TLS handshake.
    SightGated,
    /// A copy of the beginning of the handshake went to the ring.
    SightCopied,
    /// The observation was LOST at the edge: the ring was full or the copy failed.
    SightLost,
}

/// The number of steering counter slots.
pub const STEER_STAT_SLOTS: u32 = 7;

/// The slot of each counter.
pub open spec fn slot_of(s: SteerStat) -> u32 {
    match s {
        SteerStat::Seen => 0,
        SteerStat::Ipv4Tcp => 1,
        SteerStat::TargetHit => 2,
        SteerStat::Rewritten => 3,
        SteerStat::SightGated => 4,
        SteerStat::SightCopied => 5,
        SteerStat::SightLost => 6,
    }
}

impl SteerStat {
    /// The readable label of the slot.
    pub fn label(self) -> (r: &'static str)
        ensures
            r@ == (match self {
                SteerStat::Seen => "seen"@,
                SteerStat::Ipv4Tcp => "ipv4_tcp"@,
                SteerStat::TargetHit => "target_hit"@,
                SteerStat::Rewritten => "rewritten"@,
                SteerStat::SightGated => "sight_gated"@,
                SteerStat::SightCopied => "sight_copied"@,
                SteerStat::SightLost => "sight_lost"@,
            }),
    {
        match self {
            SteerStat::Seen => "seen",
            SteerStat::Ipv4Tcp => "ipv4_tcp",
            SteerStat::TargetHit => "target_hit",
            SteerStat::Rewritten => "rewritten",
            SteerStat::SightGated => "sight_gated",
            SteerStat::SightCopied => "sight_copied",
            SteerStat::SightLost => "sight_lost",
        }
    }

    /// The index of the slot in the counter array.
    pub fn slot(self) -> (r: u32)
        ensures
            r == slot_of(self),
            r < STEER_STAT_SLOTS,
    {
        match self {
            SteerStat::Seen => 0,
            SteerStat::Ipv4Tcp => 1,
            SteerStat::TargetHit => 2,
            SteerStat::Rewritten => 3,
            SteerStat::SightGated => 4,
            SteerStat::SightCopied => 5,
            SteerStat::SightLost => 6,
        }
    }

    /// All slots in order: dense, each at its own index.
    pub fn all() -> (r: [SteerStat; 7])
        ensures
            r@.len() == STEER_STAT_SLOTS,
            forall|i: int| 0 <= i < 7 ==> slot_of(#[trigger] r@[i]) == i,
    {
        let r = [
            SteerStat::Seen,
            SteerStat::Ipv4Tcp,
            SteerStat::TargetHit,
            SteerStat::Rewritten,
            SteerStat::SightGated,
            SteerStat::SightCopied,
            SteerStat::SightLost,
        ];
        assert(forall|i: int| 0 <= i < 7 ==> slot_of(#[trigger] r@[i]) == i) by {
            assert(slot_of(r@[0]) == 0);
            assert(slot_of(r@[1]) == 1);
            assert(slot_of(r@[2]) == 2);
            assert(slot_of(r@[3]) == 3);
            assert(slot_of(r@[4]) == 4);
            assert(slot_of(r@[5]) == 5);
            assert(slot_of(r@[6]) == 6);
        }
        r
    }
}

/// The low end of the probe's reserved source ports.
pub const PROBE_PORT_LO: u16 = 0xFF00;

/// The high end of the probe's reserved source ports.
pub const PROBE_PORT_HI: u16 = 0xFFFF;

/// The high byte of a probe's source port on the wire (big-endian): the whole range has it.
pub const PROBE_SPORT_HIBYTE: u8 = 0xFF;

/// Whether a source port is the probe's: the reserved range lies above every ephemeral client port.
pub fn is_probe_port(sport: u16) -> (r: bool)
    ensures
        r == (PROBE_PORT_LO <= sport <= PROBE_PORT_HI),
{
    sport >= PROBE_PORT_LO
}

/// Whether the raw high byte of a source port on the wire is the probe's.
pub fn is_probe_sport_hibyte(hi: u8) -> (r: bool)
    ensures
        r == (hi == PROBE_SPORT_HIBYTE),
{
    hi == PROBE_SPORT_HIBYTE
}

/// A port is the probe's exactly when its high byte on the wire is the probe's: the two
/// recognitions, in userspace by the port and in the datapath by the raw byte, agree.
pub proof fn probe_recognitions_agree(port: u16)
    ensures
        (PROBE_PORT_LO <= port <= PROBE_PORT_HI) == ((port >> 8u16) as u8 == PROBE_SPORT_HIBYTE),
{
    assert((port >= 0xFF00u16) == (((port >> 8u16) as u8) == 0xFFu8)) by (bit_vector);
}

/// The direction of an observed frame relative to the client, from the hook: client to server.
pub const DIR_UPSTREAM: u8 = 0;

/// Server to client.
pub const DIR_DOWNSTREAM: u8 = 1;

/// The mask of `SYN` in `FlowEvent::flags`.
pub const TCP_SYN: u8 = 1;

/// The mask of `ACK`.
pub const TCP_ACK: u8 = 2;

/// The mask of `RST`.
pub const TCP_RST: u8 = 4;

/// The mask of `FIN`.
pub const TCP_FIN: u8 = 8;

/// An observed TCP frame of a passing flow, as the datapath writes it (16 bytes).
#[derive(Copy, Clone, Debug, PartialEq, Eq, Structural)]
pub struct FlowEvent {
    /// The frame's source address.
    pub src: u32,
    /// The frame's destination address.
    pub dst: u32,
    pub sport: u16,
    pub dport: u16,
    /// The L7 bytes of the segment (0 for a bare ACK or a handshake).
    pub payload_len: u16,
    /// `TCP_SYN | TCP_ACK | TCP_RST | TCP_FIN`.
    pub flags: u8,
    /// `DIR_UPSTREAM` or `DIR_DOWNSTREAM`, from the hook.
    pub dir: u8,
}

impl FlowEvent {
    pub fn has_syn(&self) -> (r: bool)
        ensures
            r == (self.flags & TCP_SYN != 0),
    {
        self.flags & TCP_SYN != 0
    }

    pub fn has_ack(&self) -> (r: bool)
        ensures
            r == (self.flags & TCP_ACK != 0),
    {
        self.flags & TCP_ACK != 0
    }

    pub fn has_rst(&self) -> (r: bool)
        ensures
            r == (self.flags & TCP_RST != 0),
    {
        self.flags & TCP_RST != 0
    }

    pub fn has_payload(&self) -> (r: bool)
        ensures
            r == (self.payload_len > 0),
    {
        self.payload_len > 0
    }

    pub fn is_upstream(&self) -> (r: bool)
        ensures
            r == (self.dir == DIR_UPSTREAM),
    {
        self.dir == DIR_UPSTREAM
    }
}

/// How many bytes of the beginning of a handshake the sight copies.
pub const SIGHT_BYTES: usize = 2048;

/// Below this there is nothing to copy: a TLS record with a ClientHello and a name is never shorter.
pub const SIGHT_MIN: usize = 64;

/// A copy of the beginning of the handshake of a TRANSIT flow, the one we decided not to lift. It
/// addresses the flow: the client's address and port, and the number the client expects from the
/// server, are part of it.
#[derive(Copy, Clone)]
pub struct Sighting {
    /// The target.
    pub dst: u32,
    /// The CLIENT: the addressee of a cure.
    pub src: u32,
    /// The sequence number of this ClientHello.
    pub seq: u32,
    /// The number the CLIENT expects from the server.
    pub ack: u32,
    /// The target's port.
    pub dport: u16,
    /// The client's ephemeral port.
    pub sport: u16,
    /// How many bytes of `bytes` were REALLY copied.
    pub len: u16,
    /// Explicit padding.
    pub _pad: u16,
    /// The raw beginning of the upstream payload.
    pub bytes: [u8; SIGHT_BYTES],
}

impl Sighting {
    /// The copied bytes: exactly `len`, cut at the buffer when `len` lies beyond it.
    pub fn payload(&self) -> (r: &[u8])
        ensures
            r@ == self.bytes@.subrange(0, if (self.len as int) < SIGHT_BYTES { self.len as int } else { SIGHT_BYTES as int }),
    {
        let end: usize = if (self.len as usize) < SIGHT_BYTES {
            self.len as usize
        } else {
            SIGHT_BYTES
        };
        vstd::slice::slice_subrange(self.bytes.as_slice(), 0, end)
    }
}

/// Whether a payload begins with a ClientHello: the record type (Handshake), the high byte of the
/// version, and the handshake type on the sixth byte.
pub open spec fn client_hello_head(p: Seq<u8>) -> bool {
    p.len() >= 6 && p[0] == 0x16 && p[1] == 0x03 && p[5] == 0x01
}

/// Whether a payload begins with a ClientHello.
pub fn looks_like_client_hello(payload: &[u8]) -> (r: bool)
    ensures
        r == client_hello_head(payload@),
{
    payload.len() >= 6 && payload[0] == 0x16 && payload[1] == 0x03 && payload[5] == 0x01
}

/// The guarded decision of the intercept: a frame leaves the transit ONLY for a target and a ready
/// carrier; a non-target never leaves it; an unready carrier fails open to the transit.
pub fn steer_fate(is_target: bool, carrier_ready: bool) -> (r: Fate)
    ensures
        r == (if is_target && carrier_ready { Fate::Owned } else { Fate::Transit }),
{
    match (is_target, carrier_ready) {
        (false, _) => Fate::Transit,
        (true, true) => Fate::Owned,
        (true, false) => Fate::Transit,
    }
}

} // verus!
