//! The decisions of the datapath, on the bytes of a frame: what the classifier looks up and what it
//! answers, where the steering hook sends a frame and what it learns from it, and the Ethernet header
//! the return hook glues in front of an answer. The maps and helpers of the kernel stay with the
//! programs that run there; they hand these functions the values they read and act on the answer.
//!
//! Multi-byte values read from the wire "in native order" are read in the datapath's order,
//! little-endian: the first byte is the lowest.
use vstd::prelude::*;

use crate::linux_common::{action_code, FlowAction, SteerStat};

verus! {

/// The classifier's answer that lets a frame pass.
pub const TC_ACT_OK: i32 = 0;

/// The classifier's answer that drops a frame.
pub const TC_ACT_SHOT: i32 = 2;

/// The IP identification our own injected packets carry.
pub const MARKER_IP_ID: u16 = 0xDEAD;

/// The FNV-1a prime.
pub const FNV_PRIME: u32 = 0x0100_0193;

/// The FNV-1a offset basis.
pub const FNV_BASIS: u32 = 0x811c_9dc5;

/// One step of FNV-1a: xor the byte in, multiply by the prime, modulo 2^32.
pub open spec fn fnv_step(h: u32, b: u8) -> u32 {
    (((h ^ (b as u32)) as nat * FNV_PRIME as nat) % 0x1_0000_0000nat) as u32
}

/// FNV-1a of a sequence of bytes.
pub open spec fn fnv1a(bytes: Seq<u8>) -> u32
    decreases bytes.len(),
{
    if bytes.len() == 0 {
        FNV_BASIS
    } else {
        fnv_step(fnv1a(bytes.drop_last()), bytes.last())
    }
}

/// The bytes of a 32-bit value in the datapath's order.
pub open spec fn bytes32(x: u32) -> Seq<u8> {
    seq![(x % 256) as u8, ((x / 256) % 256) as u8, ((x / 65536) % 256) as u8, (x / 16777216) as u8]
}

/// The bytes of a 16-bit value in the datapath's order.
pub open spec fn bytes16(x: u16) -> Seq<u8> {
    seq![(x % 256) as u8, (x / 256) as u8]
}

/// The bytes a flow is hashed over: source and destination address, source and destination port,
/// protocol.
pub open spec fn tuple_bytes(src_ip: u32, dst_ip: u32, src_port: u16, dst_port: u16, protocol: u8) -> Seq<u8> {
    bytes32(src_ip) + bytes32(dst_ip) + bytes16(src_port) + bytes16(dst_port) + seq![protocol]
}

/// The key of a flow in the flow table: FNV-1a over its five-tuple.
pub fn hash_5tuple(src_ip: u32, dst_ip: u32, src_port: u16, dst_port: u16, protocol: u8) -> (r: u32)
    ensures
        r == fnv1a(tuple_bytes(src_ip, dst_ip, src_port, dst_port, protocol)),
{
    let bytes: [u8; 13] = [
        (src_ip % 256) as u8,
        ((src_ip / 256) % 256) as u8,
        ((src_ip / 65536) % 256) as u8,
        (src_ip / 16777216) as u8,
        (dst_ip % 256) as u8,
        ((dst_ip / 256) % 256) as u8,
        ((dst_ip / 65536) % 256) as u8,
        (dst_ip / 16777216) as u8,
        (src_port % 256) as u8,
        (src_port / 256) as u8,
        (dst_port % 256) as u8,
        (dst_port / 256) as u8,
        protocol,
    ];
    let ghost whole = tuple_bytes(src_ip, dst_ip, src_port, dst_port, protocol);
    assert(bytes@ =~= whole);
    let mut h: u32 = FNV_BASIS;
    let mut i: usize = 0;
    while i < 13
        invariant
            i <= 13,
            bytes@ == whole,
            h == fnv1a(whole.take(i as int)),
        decreases 13 - i,
    {
        assert(whole.take(i + 1).drop_last() =~= whole.take(i as int));
        h = (h ^ (bytes[i] as u32)).wrapping_mul(FNV_PRIME);
        i += 1;
    }
    assert(whole.take(13) =~= whole);
    h
}

/// A 16-bit value read big-endian from two bytes of the wire.
pub open spec fn be16(hi: u8, lo: u8) -> u16 {
    (hi as nat * 256 + lo as nat) as u16
}

/// A 32-bit value read in the datapath's order from four bytes of the wire.
pub open spec fn ne32(b0: u8, b1: u8, b2: u8, b3: u8) -> u32 {
    (b0 as nat + b1 as nat * 256 + b2 as nat * 65536 + b3 as nat * 16777216) as u32
}

/// Where the TCP header of an IPv4 frame starts, if the frame is Ethernet + IPv4 + TCP with the
/// first four TCP bytes inside it.
pub open spec fn tcp_start_of(f: Seq<u8>) -> Option<int> {
    if f.len() < 34 || f[12] != 0x08 || f[13] != 0x00 || f[23] != 6 {
        None
    } else {
        let ihl = (f[14] % 16) * 4;
        if ihl < 20 || 14 + ihl + 4 > f.len() {
            None
        } else {
            Some(14 + ihl)
        }
    }
}

fn tcp_start(frame: &[u8]) -> (r: Option<usize>)
    ensures
        match r {
            Some(t) => tcp_start_of(frame@) == Some(t as int),
            None => tcp_start_of(frame@) is None,
        },
{
    let n = frame.len();
    if n < 34 || frame[12] != 0x08 || frame[13] != 0x00 || frame[23] != 6 {
        return None;
    }
    let ihl = ((frame[14] % 16) as usize) * 4;
    if ihl < 20 || 14 + ihl + 4 > n {
        return None;
    }
    Some(14 + ihl)
}

/// The five-tuple of a frame, as the classifier reads it.
#[derive(Debug, Clone, Copy, PartialEq, Eq, Structural)]
pub struct FlowKey {
    pub src_ip: u32,
    pub dst_ip: u32,
    pub src_port: u16,
    pub dst_port: u16,
}

/// The flow a frame belongs to, for the flow table: none for a frame that is not Ethernet + IPv4 +
/// TCP within bounds, or that carries our own marker.
pub open spec fn flow_key_of(f: Seq<u8>) -> Option<FlowKey> {
    match tcp_start_of(f) {
        None => None,
        Some(t) => if be16(f[18], f[19]) == MARKER_IP_ID {
            None
        } else {
            Some(FlowKey {
                src_ip: ne32(f[26], f[27], f[28], f[29]),
                dst_ip: ne32(f[30], f[31], f[32], f[33]),
                src_port: be16(f[t], f[t + 1]),
                dst_port: be16(f[t + 2], f[t + 3]),
            })
        },
    }
}

/// The flow a frame belongs to (see `flow_key_of`).
pub fn flow_of(frame: &[u8]) -> (r: Option<FlowKey>)
    ensures
        r == flow_key_of(frame@),
{
    let t = match tcp_start(frame) {
        Some(t) => t,
        None => return None,
    };
    let ip_id: u16 = (frame[18] as u16) * 256 + (frame[19] as u16);
    if ip_id == MARKER_IP_ID {
        return None;
    }
    let src_ip: u32 = (frame[26] as u32) + (frame[27] as u32) * 256 + (frame[28] as u32) * 65536
        + (frame[29] as u32) * 16777216;
    let dst_ip: u32 = (frame[30] as u32) + (frame[31] as u32) * 256 + (frame[32] as u32) * 65536
        + (frame[33] as u32) * 16777216;
    let src_port: u16 = (frame[t] as u16) * 256 + (frame[t + 1] as u16);
    let dst_port: u16 = (frame[t + 2] as u16) * 256 + (frame[t + 3] as u16);
    Some(FlowKey { src_ip, dst_ip, src_port, dst_port })
}

/// The classifier's answer for the action the flow table holds for a flow: drop for `Drop` and
/// `CopyAndDrop`, pass for anything else (`Steer` fails open until its mechanism is validated).
pub open spec fn verdict_of(action: Option<u8>) -> i32 {
    match action {
        Some(a) => if a == action_code(FlowAction::Drop) || a == action_code(FlowAction::CopyAndDrop) {
            TC_ACT_SHOT
        } else {
            TC_ACT_OK
        },
        None => TC_ACT_OK,
    }
}

/// The classifier's answer for the action the flow table holds for a flow.
pub fn verdict(action: Option<u8>) -> (r: i32)
    ensures
        r == verdict_of(action),
{
    match action {
        Some(a) => {
            if a == FlowAction::Drop.code() || a == FlowAction::CopyAndDrop.code() {
                TC_ACT_SHOT
            } else {
                TC_ACT_OK
            }
        },
        None => TC_ACT_OK,
    }
}

/// The key the classifier looks a frame up by, if it looks it up at all.
pub fn classify(frame: &[u8]) -> (r: Option<u32>)
    ensures
        r == (match flow_key_of(frame@) {
            Some(k) => Some(fnv1a(tuple_bytes(k.src_ip, k.dst_ip, k.src_port, k.dst_port, 6))),
            None => None,
        }),
{
    match flow_of(frame) {
        Some(k) => Some(hash_5tuple(k.src_ip, k.dst_ip, k.src_port, k.dst_port, 6)),
        None => None,
    }
}

/// Where the steering hook delivers a frame.
#[derive(Debug, Clone, Copy, PartialEq, Eq)]
pub enum Delivery {
    /// Leave it on the transit.
    Transit,
    /// Redirect it straight into the carrier's device.
    Redirect { ifindex: u32 },
    /// Rewrite its destination MAC to the bridge's, so the bridge passes it up to the local stack.
    Rewrite { mac: [u8; 6] },
}

/// What the steering hook does with a frame: the last stage of the pipeline the frame reached (every
/// stage up to it is counted), the client's MAC to learn, and the delivery.
#[derive(Debug, Clone, Copy)]
pub struct SteerPlan {
    pub reached: SteerStat,
    /// The client's address (read in native order) and the source MAC of its frame.
    pub learn: Option<(u32, [u8; 6])>,
    pub delivery: Delivery,
}

/// The candidate of the intercept: HTTPS, destination port 443 as raw wire bytes.
pub open spec fn https(f: Seq<u8>, t: int) -> bool {
    f[t + 2] == 0x01 && f[t + 3] == 0xBB
}

/// The bridge MAC as configured: absent entries read as zero.
pub open spec fn configured_mac(mac: [Option<u8>; 6]) -> Seq<u8> {
    Seq::new(6, |i: int| match mac@[i] {
        Some(b) => b,
        None => 0u8,
    })
}

/// A byte that is present and nonzero.
pub open spec fn nonzero(o: Option<u8>) -> bool {
    o matches Some(b) && b != 0
}

/// Whether the bridge MAC is configured at all: some present byte is nonzero.
pub open spec fn mac_configured(mac: [Option<u8>; 6]) -> bool {
    exists|i: int| 0 <= i < 6 && nonzero(#[trigger] mac@[i])
}

/// The steering decision on a frame: frames that are not IPv4 + TCP within bounds, or not HTTPS,
/// stay on the transit; an HTTPS frame teaches the client's MAC and is redirected to the carrier
/// where its device is set, or has its destination MAC rewritten where the bridge MAC is configured,
/// or stays on the transit.
pub open spec fn steer_plan_ok(f: Seq<u8>, ifindex: Option<u32>, mac: [Option<u8>; 6], p: SteerPlan) -> bool {
    match tcp_start_of(f) {
        None => p.reached == SteerStat::Seen && p.learn is None && p.delivery == Delivery::Transit,
        Some(t) => if !https(f, t) {
            p.reached == SteerStat::Ipv4Tcp && p.learn is None && p.delivery == Delivery::Transit
        } else {
            &&& p.reached == SteerStat::TargetHit
            &&& p.learn matches Some((client, m)) && client == ne32(f[26], f[27], f[28], f[29])
                && m@ == f.subrange(6, 12)
            &&& if ifindex matches Some(x) && x != 0 {
                p.delivery == Delivery::Redirect { ifindex: ifindex.unwrap() }
            } else if mac_configured(mac) {
                p.delivery matches Delivery::Rewrite { mac: m } && m@ == configured_mac(mac)
            } else {
                p.delivery == Delivery::Transit
            }
        },
    }
}

/// The steering decision on a frame (see `steer_plan_ok`).
pub fn steer(frame: &[u8], ifindex: Option<u32>, mac: [Option<u8>; 6]) -> (r: SteerPlan)
    ensures
        steer_plan_ok(frame@, ifindex, mac, r),
{
    let t = match tcp_start(frame) {
        Some(t) => t,
        None => return SteerPlan { reached: SteerStat::Seen, learn: None, delivery: Delivery::Transit },
    };
    if frame[t + 2] != 0x01 || frame[t + 3] != 0xBB {
        return SteerPlan { reached: SteerStat::Ipv4Tcp, learn: None, delivery: Delivery::Transit };
    }
    let client: u32 = (frame[26] as u32) + (frame[27] as u32) * 256 + (frame[28] as u32) * 65536
        + (frame[29] as u32) * 16777216;
    let client_mac: [u8; 6] = [frame[6], frame[7], frame[8], frame[9], frame[10], frame[11]];
    assert(client_mac@ =~= frame@.subrange(6, 12));
    let learn = Some((client, client_mac));
    match ifindex {
        Some(x) => {
            if x != 0 {
                return SteerPlan { reached: SteerStat::TargetHit, learn, delivery: Delivery::Redirect { ifindex: x } };
            }
        },
        None => {},
    }
    let mut bridge: [u8; 6] = [0u8; 6];
    let mut configured: bool = false;
    let mut i: usize = 0;
    while i < 6
        invariant
            i <= 6,
            forall|j: int| 0 <= j < i ==> bridge@[j] == configured_mac(mac)[j],
            configured == (exists|j: int| 0 <= j < i && nonzero(#[trigger] mac@[j])),
        decreases 6 - i,
    {
        match mac[i] {
            Some(b) => {
                bridge[i] = b;
                if b != 0 {
                    configured = true;
                }
            },
            None => {
                bridge[i] = 0;
            },
        }
        i += 1;
    }
    assert(bridge@ =~= configured_mac(mac));
    if configured {
        SteerPlan { reached: SteerStat::TargetHit, learn, delivery: Delivery::Rewrite { mac: bridge } }
    } else {
        SteerPlan { reached: SteerStat::TargetHit, learn, delivery: Delivery::Transit }
    }
}

/// Where the return hook stands on a raw IP packet from the carrier.
#[derive(Debug, Clone, Copy, PartialEq, Eq, Structural)]
pub enum ReturnRoute {
    /// Not IPv4: left alone, counted as seen only.
    NotIpv4,
    /// IPv4, but the device back to the client is not set: left alone (fail-open).
    NoDevice,
    /// IPv4 shorter than its header: left alone.
    Short,
    /// Look up the client's MAC by its address and send the packet back through `ifindex`.
    Back { ifindex: u32, client: u32 },
}

/// Where the return hook stands on a packet.
pub open spec fn return_route_of(p: Seq<u8>, ifindex: Option<u32>) -> ReturnRoute {
    if p.len() < 1 || p[0] / 16 != 4 {
        ReturnRoute::NotIpv4
    } else if !(ifindex matches Some(x) && x != 0) {
        ReturnRoute::NoDevice
    } else if p.len() < 20 {
        ReturnRoute::Short
    } else {
        ReturnRoute::Back { ifindex: ifindex.unwrap(), client: ne32(p[16], p[17], p[18], p[19]) }
    }
}

/// Where the return hook stands on a packet (see `return_route_of`).
pub fn return_route(packet: &[u8], ifindex: Option<u32>) -> (r: ReturnRoute)
    ensures
        r == return_route_of(packet@, ifindex),
{
    if packet.len() < 1 || packet[0] / 16 != 4 {
        return ReturnRoute::NotIpv4;
    }
    let device = match ifindex {
        Some(x) => x,
        None => return ReturnRoute::NoDevice,
    };
    if device == 0 {
        return ReturnRoute::NoDevice;
    }
    if packet.len() < 20 {
        return ReturnRoute::Short;
    }
    let client: u32 = (packet[16] as u32) + (packet[17] as u32) * 256 + (packet[18] as u32) * 65536
        + (packet[19] as u32) * 16777216;
    ReturnRoute::Back { ifindex: device, client }
}

/// The Ethernet header glued in front of an answer: the learned client MAC, our own MAC, IPv4. None
/// while our own MAC is not configured (every present byte zero).
pub open spec fn return_header_of(client_mac: [u8; 6], own: [Option<u8>; 6]) -> Option<Seq<u8>> {
    if mac_configured(own) {
        Some(client_mac@ + configured_mac(own) + seq![0x08u8, 0x00u8])
    } else {
        None
    }
}

/// The Ethernet header glued in front of an answer (see `return_header_of`).
pub fn return_header(client_mac: [u8; 6], own: [Option<u8>; 6]) -> (r: Option<[u8; 14]>)
    ensures
        match r {
            Some(h) => return_header_of(client_mac, own) == Some(h@),
            None => return_header_of(client_mac, own) is None,
        },
{
    let mut eth: [u8; 14] = [0u8; 14];
    let mut i: usize = 0;
    while i < 6
        invariant
            i <= 6,
            forall|j: int| 0 <= j < i ==> eth@[j] == client_mac@[j],
        decreases 6 - i,
    {
        eth[i] = client_mac[i];
        i += 1;
    }
    let mut configured: bool = false;
    let mut j: usize = 0;
    while j < 6
        invariant
            j <= 6,
            forall|k: int| 0 <= k < 6 ==> eth@[k] == client_mac@[k],
            forall|k: int| 0 <= k < j ==> eth@[6 + k] == configured_mac(own)[k],
            configured == (exists|k: int| 0 <= k < j && nonzero(#[trigger] own@[k])),
        decreases 6 - j,
    {
        match own[j] {
            Some(b) => {
                eth[6 + j] = b;
                if b != 0 {
                    configured = true;
                }
            },
            None => {
                eth[6 + j] = 0;
            },
        }
        j += 1;
    }
    if !configured {
        return None;
    }
    eth[12] = 0x08;
    eth[13] = 0x00;
    assert(eth@ =~= client_mac@ + configured_mac(own) + seq![0x08u8, 0x00u8]);
    Some(eth)
}

} // verus!
