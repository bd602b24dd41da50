//! Instruments on the values of the EDGE, with no state of their own. The instrument knows nothing
//! of the carrier: it reads an `EdgeReading` (conntrack, an eBPF map, another system) and the mark
//! under its own `Layout`. Its outcome depends on the edge and the mark, not on what it lived.
//!
//! Silence is measured in PACKETS of the answering side (byte counts hold whole frames: a silent
//! target still shows its `SYN+ACK`): no packet back is a blackhole, exactly one is a target that
//! answered the knock and fell silent, two or more is a target alive. When to confirm is a
//! question of the conversation's AGE, not of the number of observations: a handshake burst holds
//! two observations before any answer could come back. Bytes only tell whether the client spoke at
//! all: more than `HDR` per packet plus `FLOOR`. `Released` is terminal: a target that came alive is
//! not suspected again.
use vstd::prelude::*;

use crate::distress::Distress;
use crate::edge::{Layout, Memo, Phase, Recall};
use crate::edge_word::{EdgeReading, Edged};
use crate::event::DetectorEvent;
use crate::said::{distress_said, seq_of, Said};
use crate::wire::Seen;

verus! {

/// What relieves a symptom — the same measure by which detection judged the trouble.
#[derive(Debug, Clone, Copy, PartialEq, Eq, Structural)]
pub enum Relief {
    /// An answer to the knock.
    Answered,
    /// An acknowledgement of the greeting; no data required.
    Acknowledged,
    /// The target's own greeting.
    ServerHello,
    /// Data from the target.
    Delivered,
    /// Nothing to relieve, or the trouble is about a name rather than a conversation.
    Unknown,
}

/// The ceiling of an ordinary IPv4+TCP header per packet.
pub const HDR: u64 = 60;

/// How many bytes above the headers count as a real request.
pub const FLOOR: u64 = 100;

/// The imprint: the low 8 bits of the count of answering packets at the moment of writing (zero
/// where the edge does not count). It serves the trace, not the decision.
pub open spec fn imprint_of(up: Option<u64>) -> u8 {
    (match up {
        Some(n) => n,
        None => 0u64,
    } % 256) as u8
}

fn imprint(up: Option<u64>) -> (r: u8)
    ensures
        r == imprint_of(up),
{
    let n: u64 = match up {
        Some(n) => n,
        None => 0,
    };
    (n % 256) as u8
}

/// Whether the client gave at least `FLOOR` bytes above the headers: `bytes > packets × HDR + FLOOR`.
/// Where the edge does not count either value there is nothing to compare: not carried.
pub open spec fn carried_of(bytes: Option<u64>, packets: Option<u64>) -> bool {
    match (bytes, packets) {
        (Some(b), Some(p)) => b > p * HDR + FLOOR,
        _ => false,
    }
}

/// Whether the client's counts can be compared without overflow wherever they are compared: on an
/// edge whose mark is not a foreign writer's, with both the byte and the packet count present.
pub open spec fn countable(layout: Layout, edge: EdgeReading) -> bool {
    phase_in(layout, edge.mark) is Some && edge.down_bytes is Some && edge.down_packets is Some
        ==> edge.down_packets.unwrap() * HDR + FLOOR <= u64::MAX
}

fn carried(bytes: Option<u64>, packets: Option<u64>) -> (r: bool)
    requires
        bytes is Some && packets is Some ==> packets.unwrap() * HDR + FLOOR <= u64::MAX,
    ensures
        r == carried_of(bytes, packets),
{
    match (bytes, packets) {
        (Some(b), Some(p)) => b > p * HDR + FLOOR,
        _ => false,
    }
}

/// What an edge instrument leaves on a packet: a memo for the mark (`None` where there is nothing to
/// write, or where a foreign writer's bits must not be touched) and what it said.
pub struct Verdict {
    pub memo: Option<Memo>,
    pub said: Said<Distress>,
}

/// Silence by the packet counts of the edge, confirmed by age, through the phases
/// Quiet → Suspected → Confirmed | Released. Phase and imprint live in the mark; no state is kept.
#[derive(Debug, Clone, Copy)]
pub struct EdgeSilence {
    /// The age of the conversation after which the target's silence is a drop, in milliseconds.
    after: u64,
    layout: Layout,
}

/// The phase the mark carries for `layout`: ours as written, nothing under our mask reads quiet.
pub open spec fn phase_in(layout: Layout, mark: u32) -> Option<Phase> {
    match layout.spec_read(mark) {
        Recall::Ours(m) => Some(m.phase),
        Recall::Untouched => Some(Phase::Quiet),
        Recall::Foreign { .. } => None,
    }
}

/// The decision of the instrument on an edge whose mark reads `phase`: the phase to write, if any,
/// and the trouble to say, if any.
pub open spec fn silence_decision(after: u64, phase: Phase, edge: EdgeReading) -> (Option<Phase>, Option<Distress>) {
    let up = edge.up_packets;
    let target_alive = up matches Some(n) && n >= 2;
    let only_synack = up == Some(1u64);
    let no_synack = up == Some(0u64);
    let client_spoke = carried_of(edge.down_bytes, edge.down_packets);
    let overdue = edge.age_ms matches Some(age) && age >= after;
    match phase {
        Phase::Confirmed | Phase::Released => (None, None),
        Phase::Quiet => if target_alive || !((client_spoke && only_synack) || no_synack) {
            (None, None)
        } else {
            (Some(Phase::Suspected), None)
        },
        Phase::Suspected => if target_alive {
            (Some(Phase::Released), None)
        } else if overdue && no_synack {
            (Some(Phase::Confirmed), Some(Distress::Blackhole { after_ms: edge.age_ms.unwrap() as u32 }))
        } else if overdue && only_synack && client_spoke {
            (Some(Phase::Confirmed), Some(Distress::NoBytes))
        } else {
            (Some(Phase::Suspected), None)
        },
    }
}

impl EdgeSilence {
    pub closed spec fn after_ms(&self) -> u64 {
        self.after
    }

    pub closed spec fn spec_layout(&self) -> Layout {
        self.layout
    }

    /// A watch that confirms after `after` milliseconds of age, writing under `layout`.
    pub fn new(after: u64, layout: Layout) -> (r: EdgeSilence)
        ensures
            r.after_ms() == after,
            r.spec_layout() == layout,
    {
        EdgeSilence { after, layout }
    }

    /// The memo for `phase`: phase and imprint are set by one constructor.
    fn memo(&self, phase: Phase, up: Option<u64>) -> (r: Memo)
        ensures
            r == (Memo { layout: self.layout, phase, imprint: imprint_of(up) }),
    {
        Memo::new(self.layout, phase, imprint(up))
    }

    /// Whether a memo is the one this instrument writes for `phase` on `edge`.
    pub open spec fn writes(&self, memo: Memo, phase: Phase, edge: EdgeReading) -> bool {
        memo == (Memo { layout: self.spec_layout(), phase, imprint: imprint_of(edge.up_packets) })
    }

    /// One packet. Ticks and letters without an edge leave nothing; a foreign writer under our mask
    /// is a finding (`Diverged`), and its bits are not touched; otherwise the phase read from the
    /// mark moves by `silence_decision`. The instrument is returned unchanged.
    pub fn step(self, event: DetectorEvent<Edged<Option<Seen>, Option<EdgeReading>>>) -> (r: (EdgeSilence, Verdict, ()))
        requires
            event matches DetectorEvent::Packet { input, .. } ==> (input.edge matches Some(e) ==> countable(self.spec_layout(), e)),
        ensures
            r.0 == self,
            match event {
                DetectorEvent::Packet { input: Edged { edge: Some(e), .. }, .. } => match phase_in(self.spec_layout(), e.mark) {
                    None => r.1.memo == None::<Memo>
                        && distress_said(r.1.said) == seq![Distress::Diverged { theirs: e.mark }],
                    Some(phase) => {
                        let (next, said) = silence_decision(self.after_ms(), phase, e);
                        &&& distress_said(r.1.said) == seq_of(said)
                        &&& match next {
                            None => r.1.memo == None::<Memo>,
                            Some(p) => r.1.memo matches Some(m) && self.writes(m, p, e),
                        }
                    },
                },
                _ => r.1.memo == None::<Memo> && distress_said(r.1.said) == Seq::<Distress>::empty(),
            },
    {
        let edge = match &event {
            DetectorEvent::Packet { input, .. } => match &input.edge {
                Some(e) => *e,
                None => return (self, Verdict { memo: None, said: Said::of(None) }, ()),
            },
            _ => return (self, Verdict { memo: None, said: Said::of(None) }, ()),
        };
        let phase = match self.layout.read(edge.mark) {
            Recall::Foreign { theirs } => {
                return (self, Verdict { memo: None, said: Said::of(Some(Distress::Diverged { theirs })) }, ());
            },
            Recall::Untouched => Phase::Quiet,
            Recall::Ours(memo) => memo.phase,
        };
        let up = edge.up_packets;
        let target_alive = match up {
            Some(n) => n >= 2,
            None => false,
        };
        let only_synack = match up {
            Some(n) => n == 1,
            None => false,
        };
        let no_synack = match up {
            Some(n) => n == 0,
            None => false,
        };
        let client_spoke = carried(edge.down_bytes, edge.down_packets);
        let overdue = match edge.age_ms {
            Some(age) => age >= self.after,
            None => false,
        };
        let (memo, said): (Option<Memo>, Option<Distress>) = match phase {
            Phase::Confirmed | Phase::Released => (None, None),
            Phase::Quiet => {
                if target_alive || !((client_spoke && only_synack) || no_synack) {
                    (None, None)
                } else {
                    (Some(self.memo(Phase::Suspected, up)), None)
                }
            },
            Phase::Suspected => {
                if target_alive {
                    (Some(self.memo(Phase::Released, up)), None)
                } else if overdue && no_synack {
                    let after_ms: u64 = match edge.age_ms {
                        Some(age) => age,
                        None => 0,
                    };
                    (Some(self.memo(Phase::Confirmed, up)), Some(Distress::Blackhole { after_ms: after_ms as u32 }))
                } else if overdue && only_synack && client_spoke {
                    (Some(self.memo(Phase::Confirmed, up)), Some(Distress::NoBytes))
                } else {
                    (Some(self.memo(Phase::Suspected, up)), None)
                }
            },
        };
        (self, Verdict { memo, said: Said::of(said) }, ())
    }
}

/// Said once, never again: on a conversation whose mark carries this instrument's confirmed or
/// released memo, the next packet says nothing and writes nothing, whatever else the edge counts.
pub proof fn silence_speaks_once(instrument: EdgeSilence, memo: Memo, word: u32, edge: EdgeReading)
    requires
        instrument.spec_layout().well_formed(),
        memo.layout == instrument.spec_layout(),
        memo.phase == Phase::Confirmed || memo.phase == Phase::Released,
        edge.mark == memo.spec_apply(word),
    ensures
        phase_in(instrument.spec_layout(), edge.mark) == Some(memo.phase),
        silence_decision(instrument.after_ms(), memo.phase, edge) == (None::<Phase>, None::<Distress>),
{
    crate::edge::lemma_write_then_read(instrument.spec_layout(), word, memo.phase, memo.imprint);
}

} // verus!
