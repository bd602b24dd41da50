//! THE GREETING WAS ACCEPTED, THE ANSWER IS MUTED (`Distress::HelloMuted`): the handshake took
//! place, the client's greeting went up once, the target acknowledged it, and sent nothing.
//!
//! The threshold is the target's own time: a living server answers an acknowledged greeting at
//! once, so silence longer than `RTT_TIMES` of its handshake RTT is a statement of the path; from
//! below, the threshold is held by Linux's minimal RTO (`FLOOR`). The middle of a conversation is
//! never judged: after the target's first byte the instrument is silent for good.
use vstd::prelude::*;

use crate::detect::elapsed;
use crate::distress::{detail_of, name_of, Distress};
use crate::event::DetectorEvent;
use crate::said::{distress_said, seq_of, Said};
use crate::wire::{ResetBy, Seen, SeenTcp};
use crate::{Cadence, Instrument, Layer, Protocol, Rung, Shape, Sheet, Silence, Subject};

verus! {

/// In how many handshake RTTs the silence after an acknowledgement becomes a statement of the path.
pub const RTT_TIMES: u32 = 10;

/// The lower bound of the threshold: Linux's minimal RTO, in milliseconds.
pub const FLOOR: u64 = 200;

/// The threshold for a target with this handshake RTT (milliseconds): `RTT_TIMES` RTTs, at least
/// `FLOOR`.
pub open spec fn horizon_of(rtt: u64) -> u128 {
    if rtt * 10 >= 200 {
        (rtt * 10) as u128
    } else {
        200u128
    }
}

/// The threshold for a target with this handshake RTT, in milliseconds.
pub fn horizon(rtt: u64) -> (r: u128)
    ensures
        r == horizon_of(rtt),
        r >= FLOOR,
        r >= rtt * RTT_TIMES,
{
    assert((rtt as u128) * 10 <= 0xffff_ffff_ffff_ffff_ffffu128) by (nonlinear_arith)
        requires
            rtt <= 0xffff_ffff_ffff_ffffu64;
    let times = (rtt as u128) * (RTT_TIMES as u128);
    if times >= FLOOR as u128 {
        times
    } else {
        FLOOR as u128
    }
}

/// The instrument: the greeting acknowledged, no answer.
#[derive(Debug, Clone, Copy, Default)]
pub struct HelloMutedInstrument {
    /// When the client knocked: the RTT is measured from it.
    knocked: Option<u64>,
    /// The handshake RTT of this target.
    rtt: Option<u64>,
    /// The client spoke after the handshake.
    spoke: bool,
    /// When the target first acknowledged everything the client said.
    acknowledged: Option<u64>,
    /// The target said its own: suspicion lifted for good.
    answered: bool,
    /// The conversation was ended by the client: nobody left to judge.
    over: bool,
    /// Already said.
    fired: bool,
    /// A letter hid observations: the target's answer may have vanished in the hole.
    blinded: bool,
}

/// The client spoke: on TLS this is the greeting with the name.
pub open spec fn client_spoke(input: SeenTcp) -> bool {
    match input {
        SeenTcp::Anywhere(Seen::Sent { .. }) => true,
        SeenTcp::Anywhere(Seen::Payload { from_client, .. }) => from_client,
        _ => false,
    }
}

/// The target said its own: data, its repeat, its goodbye, a reset from its side, a request to wait.
pub open spec fn target_said(input: SeenTcp) -> bool {
    match input {
        SeenTcp::Anywhere(Seen::Received { .. }) | SeenTcp::Anywhere(Seen::Restated { .. }) => true,
        SeenTcp::Anywhere(Seen::Payload { from_client, .. }) => !from_client,
        SeenTcp::Anywhere(Seen::Closed { by_client }) => !by_client,
        SeenTcp::Rst { by } => by == ResetBy::TargetSide,
        SeenTcp::AskedToWait { by_client } => !by_client,
        _ => false,
    }
}

/// The conversation was ended by the client or by us.
pub open spec fn client_ended(input: SeenTcp) -> bool {
    match input {
        SeenTcp::Anywhere(Seen::Closed { by_client }) => by_client,
        SeenTcp::Rst { by } => by != ResetBy::TargetSide,
        _ => false,
    }
}

impl HelloMutedInstrument {
    pub closed spec fn knocked(&self) -> Option<u64> { self.knocked }
    pub closed spec fn rtt(&self) -> Option<u64> { self.rtt }
    pub closed spec fn spoke(&self) -> bool { self.spoke }
    pub closed spec fn acknowledged(&self) -> Option<u64> { self.acknowledged }
    pub closed spec fn answered(&self) -> bool { self.answered }
    pub closed spec fn over(&self) -> bool { self.over }
    pub closed spec fn fired(&self) -> bool { self.fired }
    pub closed spec fn blinded(&self) -> bool { self.blinded }

    /// Whether two instruments agree on every fact but the two flags `fired` and `blinded`.
    pub open spec fn same_facts(&self, other: &HelloMutedInstrument) -> bool {
        &&& self.knocked() == other.knocked()
        &&& self.rtt() == other.rtt()
        &&& self.spoke() == other.spoke()
        &&& self.acknowledged() == other.acknowledged()
        &&& self.answered() == other.answered()
        &&& self.over() == other.over()
    }

    pub fn new() -> (r: HelloMutedInstrument)
        ensures
            r.knocked() == None::<u64> && r.rtt() == None::<u64> && r.acknowledged() == None::<u64>,
            !r.spoke() && !r.answered() && !r.over() && !r.fired() && !r.blinded(),
    {
        HelloMutedInstrument {
            knocked: None,
            rtt: None,
            spoke: false,
            acknowledged: None,
            answered: false,
            over: false,
            fired: false,
            blinded: false,
        }
    }

    /// Whether a tick at `at` names the muted answer: nothing ended the watch, the greeting was
    /// acknowledged, the RTT is known, and the silence since the acknowledgement reached the horizon.
    pub open spec fn due(&self, at: u64) -> bool {
        &&& !(self.answered() || self.over() || self.fired() || self.blinded())
        &&& self.acknowledged() is Some
        &&& self.rtt() is Some
        &&& elapsed(self.acknowledged().unwrap(), at) >= horizon_of(self.rtt().unwrap())
    }

    /// The letter a due tick says.
    pub open spec fn named(&self, at: u64) -> Distress {
        Distress::HelloMuted {
            rtt_ms: self.rtt().unwrap() as u32,
            after_ms: elapsed(self.acknowledged().unwrap(), at) as u32,
        }
    }

    /// A tick: whether the threshold of silence after the acknowledgement has passed.
    fn ticked(self, at: u64) -> (r: (HelloMutedInstrument, Option<Distress>))
        ensures
            r.1 == (if self.due(at) { Some(self.named(at)) } else { None }),
            r.0.same_facts(&self) && r.0.blinded() == self.blinded(),
            r.0.fired() == (self.fired() || self.due(at)),
    {
        let silent = !(self.answered || self.over || self.fired || self.blinded);
        match (self.acknowledged, self.rtt) {
            (Some(acknowledged), Some(rtt)) if silent => {
                let waited = at.saturating_sub(acknowledged);
                if waited as u128 >= horizon(rtt) {
                    (
                        HelloMutedInstrument { fired: true, ..self },
                        Some(Distress::HelloMuted { rtt_ms: rtt as u32, after_ms: waited as u32 }),
                    )
                } else {
                    (self, None)
                }
            },
            _ => (self, None),
        }
    }

    /// One letter of the connection. A hiding letter blinds the instrument; a packet moves one
    /// fact (knock, RTT, the client's word, the acknowledgement, the target's word, the end); a
    /// tick names the silence when it is due.
    pub fn step(self, event: DetectorEvent<SeenTcp>) -> (r: (HelloMutedInstrument, Said<Distress>, ()))
        ensures
            // Said once: after it has spoken, it stays silent.
            self.fired() ==> r.0.fired() && distress_said(r.1).len() == 0,
            match event {
                DetectorEvent::Torn { .. } => {
                    &&& r.0.same_facts(&self) && r.0.fired() == self.fired() && r.0.blinded()
                    &&& distress_said(r.1) == Seq::<Distress>::empty()
                },
                DetectorEvent::Packet { input, at } => {
                    &&& r.0.knocked() == (if input is Syn && self.knocked() is None { Some(at) } else { self.knocked() })
                    &&& r.0.rtt() == (if input is Handshaken && self.rtt() is None && self.knocked() is Some {
                        Some(elapsed(self.knocked().unwrap(), at))
                    } else {
                        self.rtt()
                    })
                    &&& r.0.spoke() == (self.spoke() || client_spoke(input))
                    &&& r.0.acknowledged() == (if input is Acknowledged && self.acknowledged() is None && self.spoke() {
                        Some(at)
                    } else {
                        self.acknowledged()
                    })
                    &&& r.0.answered() == (self.answered() || target_said(input))
                    &&& r.0.over() == (self.over() || client_ended(input))
                    &&& r.0.fired() == self.fired()
                    &&& r.0.blinded() == self.blinded()
                    &&& distress_said(r.1) == Seq::<Distress>::empty()
                },
                DetectorEvent::Tick { at, .. } => {
                    &&& r.0.same_facts(&self) && r.0.blinded() == self.blinded()
                    &&& r.0.fired() == (self.fired() || self.due(at))
                    &&& distress_said(r.1) == seq_of(if self.due(at) { Some(self.named(at)) } else { None })
                },
                DetectorEvent::Opaque { .. } => {
                    &&& r.0 == self
                    &&& distress_said(r.1) == Seq::<Distress>::empty()
                },
            },
    {
        if event.hides_observation() {
            return (HelloMutedInstrument { blinded: true, ..self }, Said::of(None), ());
        }
        let (state, said) = match event {
            DetectorEvent::Packet { input, at } => {
                let next = match input {
                    SeenTcp::Syn => HelloMutedInstrument {
                        knocked: match self.knocked {
                            Some(k) => Some(k),
                            None => Some(at),
                        },
                        ..self
                    },
                    SeenTcp::Handshaken => HelloMutedInstrument {
                        rtt: match (self.rtt, self.knocked) {
                            (Some(rtt), _) => Some(rtt),
                            (None, Some(knocked)) => Some(at.saturating_sub(knocked)),
                            (None, None) => None,
                        },
                        ..self
                    },
                    SeenTcp::Anywhere(Seen::Sent { .. }) | SeenTcp::Anywhere(Seen::Payload { from_client: true, .. }) => {
                        HelloMutedInstrument { spoke: true, ..self }
                    },
                    SeenTcp::Acknowledged => HelloMutedInstrument {
                        acknowledged: match self.acknowledged {
                            Some(a) => Some(a),
                            None => if self.spoke { Some(at) } else { None },
                        },
                        ..self
                    },
                    SeenTcp::Anywhere(Seen::Received { .. })
                    | SeenTcp::Anywhere(Seen::Restated { .. })
                    | SeenTcp::Anywhere(Seen::Payload { from_client: false, .. })
                    | SeenTcp::Anywhere(Seen::Closed { by_client: false })
                    | SeenTcp::Rst { by: ResetBy::TargetSide }
                    | SeenTcp::AskedToWait { by_client: false } => HelloMutedInstrument { answered: true, ..self },
                    SeenTcp::Anywhere(Seen::Closed { by_client: true })
                    | SeenTcp::Rst { by: ResetBy::Person }
                    | SeenTcp::Rst { by: ResetBy::Ourselves } => HelloMutedInstrument { over: true, ..self },
                    SeenTcp::Anywhere(Seen::Resent { .. }) | SeenTcp::AskedToWait { by_client: true } => self,
                };
                (next, None)
            },
            DetectorEvent::Tick { at, .. } => self.ticked(at),
            _ => (self, None),
        };
        (state, Said::of(said), ())
    }
}

impl Instrument for HelloMutedInstrument {
    type Signal = Distress;

    open spec fn public_name() -> Seq<char> {
        "hello_muted"@
    }

    fn sheet() -> (r: Sheet) {
        let protocols: &'static [Protocol] = &[Protocol::Tcp];
        assert(protocols@ =~= seq![Protocol::Tcp]);
        Sheet {
            instrument: "hello_muted",
            subject: Subject::World,
            layer: Layer::Transport,
            protocols,
            type_path: "reflex_instrument::muted::HelloMutedInstrument",
            rung: None,
            cadence: Cadence::Foreign,
            shape: Shape::Event,
            silence: Some(Silence::Nothing),
            lies: &[
        "НЕ ЗНАЕТ ПРИЧИНЫ. Буква называет наблюдаемое — приветствие подтверждено, ответа нет; что \
         триггер — ИМЯ (SNI-II), устанавливает только контроль той же дорогой с другим именем. \
         Сервер, подтвердивший приветствие и зависший, даст ту же картину.",
        "ПОРОГ В ДЕСЯТЬ RTT — СТАВКА. Замер один (стенд 24.09.2026, 14 здоровых разговоров, худший \
         0,3 RTT) и на одном вантаже; сервер, считающий ответ дольше десяти своих RTT (TLS за \
         прокси с далёким источником), будет назван заглушённым.",
        "RTT ДОЛЬШЕ СЕКУНДЫ НЕ СУДИТСЯ ЧЕСТНО: порог тогда длиннее срока эвикта молчащего разговора \
         (`MIN_IDLE` движка, 10 с), и машина может уйти раньше слова.",
        "БЕЗ СТУКА НЕТ RTT, И ПРИБОР МОЛЧИТ: разговор, начало которого наблюдатель не видел, этим \
         прибором не судится.",
    ],
            oracles: &["tests/hello_muted.rs"],
            death: "цель сказала своё, клиент ушёл раньше порога, либо подтверждения приветствия не было",
            events: &["hello_muted"],
        }
    }

    fn name(signal: &Distress) -> (r: &'static str)
        ensures
            r@ == name_of(*signal),
    {
        signal.name()
    }

    fn alarming(signal: &Distress) -> (r: bool)
        ensures
            r,
    {
        signal.alarming()
    }

    fn detail(signal: &Distress) -> (r: String)
        ensures
            r@ == detail_of(*signal),
    {
        signal.detail()
    }
}

} // verus!
