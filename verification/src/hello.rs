//! THE GREETING WAS NEVER ACKNOWLEDGED (`Distress::HelloDropped`): the handshake took place, the
//! client's greeting with the name went up, and the target answered with nothing, not even an
//! acknowledgement; the client repeated it and gave up.
//!
//! A bare acknowledgement has no letter on the wire, but the client's TCP repeats a segment exactly
//! when no acknowledgement came: the client's repeat under the target's full silence after the
//! handshake is the evidence, given by the side that knows. One repeat is ordinary loss; any sign of
//! life from the target lifts the suspicion for good.
use vstd::prelude::*;

use crate::detect::elapsed;
use crate::distress::{detail_of, name_of, Distress};
use crate::event::DetectorEvent;
use crate::said::{distress_said, seq_of, Said};
use crate::wire::{ResetBy, Seen, SeenTcp};
use crate::{Cadence, Instrument, Layer, Protocol, Rung, Shape, Sheet, Silence, Subject};

verus! {

/// How many repeats in a row under the target's silence are a statement of the path.
pub const ENOUGH: u32 = 3;

/// The instrument: the handshake took place, the greeting was never acknowledged.
#[derive(Debug, Clone, Copy, Default)]
pub struct HelloDroppedInstrument {
    /// The target answered the knock. Without a handshake the trouble is another (`Blackhole`).
    handshaken: bool,
    /// When the client first spoke after the handshake.
    spoke: Option<u64>,
    /// The client's repeats in a row under the target's silence.
    retries: u32,
    /// The target gave a sign of life after the greeting: it arrived, suspicion lifted for good.
    alive: bool,
    /// Already said.
    fired: bool,
    /// A letter hid observations: a sign of life may have vanished in the hole.
    blinded: bool,
}

/// A sign of life from the target: data, its repeat, its goodbye, a reset from its side, its
/// request to wait, or an acknowledgement of the greeting.
pub open spec fn sign_of_life(input: SeenTcp) -> bool {
    match input {
        SeenTcp::Anywhere(Seen::Received { .. }) | SeenTcp::Anywhere(Seen::Restated { .. }) => true,
        SeenTcp::Anywhere(Seen::Payload { from_client, .. }) => !from_client,
        SeenTcp::Anywhere(Seen::Closed { by_client }) => !by_client,
        SeenTcp::Rst { by } => by == ResetBy::TargetSide,
        SeenTcp::AskedToWait { by_client } => !by_client,
        SeenTcp::Acknowledged => true,
        _ => false,
    }
}

/// The client's data after the handshake: plain bytes or the first bytes of the stream.
pub open spec fn client_data(input: SeenTcp) -> bool {
    match input {
        SeenTcp::Anywhere(Seen::Sent { .. }) => true,
        SeenTcp::Anywhere(Seen::Payload { from_client, .. }) => from_client,
        _ => false,
    }
}

impl HelloDroppedInstrument {
    pub closed spec fn handshaken(&self) -> bool { self.handshaken }
    pub closed spec fn spoke(&self) -> Option<u64> { self.spoke }
    pub closed spec fn retries(&self) -> u32 { self.retries }
    pub closed spec fn alive(&self) -> bool { self.alive }
    pub closed spec fn fired(&self) -> bool { self.fired }
    pub closed spec fn blinded(&self) -> bool { self.blinded }

    pub fn new() -> (r: HelloDroppedInstrument)
        ensures
            !r.handshaken() && r.spoke() == None::<u64> && r.retries() == 0,
            !r.alive() && !r.fired() && !r.blinded(),
    {
        HelloDroppedInstrument { handshaken: false, spoke: None, retries: 0, alive: false, fired: false, blinded: false }
    }

    /// Whether a repeat is counted: the client spoke after the handshake, and nothing ended the watch.
    pub open spec fn counting(&self) -> bool {
        self.spoke() is Some && self.handshaken() && !self.alive() && !self.fired() && !self.blinded()
    }

    /// The count after one more repeat.
    pub open spec fn next_retries(&self) -> u32 {
        if self.retries() == u32::MAX { u32::MAX } else { (self.retries() + 1) as u32 }
    }

    /// Whether a repeat at this point names the dropped greeting.
    pub open spec fn accuses(&self) -> bool {
        self.counting() && self.next_retries() >= ENOUGH
    }

    /// A repeat of the client: under the target's silence the count grows; at the threshold, the
    /// word, once.
    fn resent(self, at: u64) -> (r: (HelloDroppedInstrument, Option<Distress>))
        ensures
            r.0.handshaken() == self.handshaken() && r.0.spoke() == self.spoke(),
            r.0.alive() == self.alive() && r.0.blinded() == self.blinded(),
            r.0.retries() == (if self.counting() { self.next_retries() } else { self.retries() }),
            r.0.fired() == (self.fired() || self.accuses()),
            r.1 == (if self.accuses() {
                Some(Distress::HelloDropped { retries: self.next_retries(), after_ms: elapsed(self.spoke().unwrap(), at) as u32 })
            } else {
                None
            }),
    {
        let spoke = match self.spoke {
            Some(spoke) => spoke,
            None => return (self, None),
        };
        if !(self.handshaken && !self.alive && !self.fired && !self.blinded) {
            return (self, None);
        }
        let retries = self.retries.saturating_add(1);
        if retries >= ENOUGH {
            (
                HelloDroppedInstrument { retries, fired: true, ..self },
                Some(Distress::HelloDropped { retries, after_ms: at.saturating_sub(spoke) as u32 }),
            )
        } else {
            (HelloDroppedInstrument { retries, ..self }, None)
        }
    }

    /// One letter of the connection.
    pub fn step(self, event: DetectorEvent<SeenTcp>) -> (r: (HelloDroppedInstrument, Said<Distress>, ()))
        ensures
            // Said once: after it has spoken, it stays silent.
            self.fired() ==> r.0.fired() && distress_said(r.1).len() == 0,
            match event {
                DetectorEvent::Torn { .. } => {
                    &&& r.0.handshaken() == self.handshaken() && r.0.spoke() == self.spoke()
                    &&& r.0.retries() == self.retries() && r.0.alive() == self.alive()
                    &&& r.0.fired() == self.fired() && r.0.blinded()
                    &&& distress_said(r.1) == Seq::<Distress>::empty()
                },
                DetectorEvent::Packet { input, at } => {
                    let resent = input matches SeenTcp::Anywhere(Seen::Resent { .. });
                    &&& r.0.handshaken() == (self.handshaken() || input is Handshaken)
                    &&& r.0.spoke() == (if client_data(input) && self.spoke() is None && self.handshaken() {
                        Some(at)
                    } else {
                        self.spoke()
                    })
                    &&& r.0.retries() == (if resent && self.counting() { self.next_retries() } else { self.retries() })
                    &&& r.0.alive() == (self.alive() || sign_of_life(input))
                    &&& r.0.fired() == (self.fired() || (resent && self.accuses()))
                    &&& r.0.blinded() == self.blinded()
                    &&& distress_said(r.1) == seq_of(if resent && self.accuses() {
                        Some(Distress::HelloDropped { retries: self.next_retries(), after_ms: elapsed(self.spoke().unwrap(), at) as u32 })
                    } else {
                        None
                    })
                },
                _ => {
                    &&& r.0 == self
                    &&& distress_said(r.1) == Seq::<Distress>::empty()
                },
            },
    {
        if event.hides_observation() {
            return (HelloDroppedInstrument { blinded: true, ..self }, Said::of(None), ());
        }
        let (state, said) = match event {
            DetectorEvent::Packet { input, at } => match input {
                SeenTcp::Handshaken => (HelloDroppedInstrument { handshaken: true, ..self }, None),
                SeenTcp::Anywhere(Seen::Sent { .. }) | SeenTcp::Anywhere(Seen::Payload { from_client: true, .. }) => (
                    HelloDroppedInstrument {
                        spoke: match self.spoke {
                            Some(s) => Some(s),
                            None => if self.handshaken { Some(at) } else { None },
                        },
                        ..self
                    },
                    None,
                ),
                SeenTcp::Anywhere(Seen::Resent { .. }) => self.resent(at),
                SeenTcp::Anywhere(Seen::Received { .. })
                | SeenTcp::Anywhere(Seen::Restated { .. })
                | SeenTcp::Anywhere(Seen::Payload { from_client: false, .. })
                | SeenTcp::Anywhere(Seen::Closed { by_client: false })
                | SeenTcp::Rst { by: ResetBy::TargetSide }
                | SeenTcp::AskedToWait { by_client: false }
                | SeenTcp::Acknowledged => (HelloDroppedInstrument { alive: true, ..self }, None),
                SeenTcp::Syn
                | SeenTcp::Rst { by: ResetBy::Person }
                | SeenTcp::Rst { by: ResetBy::Ourselves }
                | SeenTcp::AskedToWait { by_client: true }
                | SeenTcp::Anywhere(Seen::Closed { by_client: true }) => (self, None),
            },
            _ => (self, None),
        };
        (state, Said::of(said), ())
    }
}

impl Instrument for HelloDroppedInstrument {
    type Signal = Distress;

    open spec fn public_name() -> Seq<char> {
        "hello_dropped"@
    }

    fn sheet() -> (r: Sheet) {
        let protocols: &'static [Protocol] = &[Protocol::Tcp];
        assert(protocols@ =~= seq![Protocol::Tcp]);
        Sheet {
            instrument: "hello_dropped",
            subject: Subject::World,
            layer: Layer::Transport,
            protocols,
            type_path: "reflex_instrument::hello::HelloDroppedInstrument",
            rung: None,
            cadence: Cadence::Foreign,
            shape: Shape::Event,
            silence: Some(Silence::Nothing),
            lies: &[
        "НЕ ЗНАЕТ ПРИЧИНЫ. Буква называет наблюдаемое — приветствие не подтверждено; что триггер — \
         ИМЯ (SNI-IV), устанавливает только контроль той же дорогой с другим именем. Мёртвый после \
         рукопожатия сервер даст ту же картину.",
        "ПОРОГ В ТРИ ПОВТОРА — СТАВКА. Замер один (линия стенда, 24.09.2026) и на хорошей линии; \
         плохой Wi-Fi человека теряет больше, и держит ли порог там — покажет счёт на канарейке.",
        "ЦЕЛЬ, ПОДТВЕРДИВШАЯ ПРИВЕТСТВИЕ И ЗАМОЛЧАВШАЯ, ПРИБОРОМ ЗАКОННО НЕ НАЗВАНА: повторов она \
         не вызывает, а подтверждение (`SeenTcp::Acknowledged`) снимает подозрение. Это SNI-II, и \
         его называет сосед — `muted::HelloMutedInstrument`.",
    ],
            oracles: &[
        "tests/fixtures/hello-dropped-rutracker.pcap",
        "tests/fixtures/hello-answered-ya.pcap",
        "tests/fixtures/hello-answered-cloudflare.pcap",
    ],
            death: "цель подала признак жизни после приветствия, либо разговор кончился без ряда повторов",
            events: &["hello_dropped"],
        }
    }

    fn name(signal: &Distress) -> (r: &'static str)
        ensures
            r@ == name_of(*signal),
    {
        signal.name()
    }

    fn alarming(signal: &Distress) -> (r: bool)
        ensures
            r,
    {
        signal.alarming()
    }

    fn detail(signal: &Distress) -> (r: String)
        ensures
            r@ == detail_of(*signal),
    {
        signal.detail()
    }
}

} // verus!
