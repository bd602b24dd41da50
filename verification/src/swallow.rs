//! A SEGMENT SWALLOWED IN A LIVING CONVERSATION: a selective drop invisible to each instrument
//! alone. The client repeats one and the same segment while the target acknowledges what came
//! before. Half of the evidence lives on the wire ("the client repeats"), half on the EDGE ("the
//! target is alive": acknowledgements without data give no letter, but the edge counts them as
//! packets). An instrument reading both halves sees what neither shows.
use vstd::prelude::*;

use crate::detect::elapsed;
use crate::distress::{name_of, Distress};
use crate::edge_word::{EdgeReading, Edged};
use crate::event::DetectorEvent;
use crate::said::{distress_said, seq_of, Said};
use crate::wire::Seen;
use crate::{Cadence, Instrument, Layer, Protocol, Rung, Shape, Sheet, Silence, Subject};

verus! {

/// How many repeats of ONE segment while the target lives count as a selective drop. Two, not one:
/// a single repeat is ordinary loss.
pub const ENOUGH: u32 = 2;

/// The selective-drop instrument: the client repeats, the target lives.
#[derive(Debug, Clone, Copy)]
pub struct SwallowInstrument {
    /// The client's repeats in a row while the target acknowledges.
    repeats: u32,
    /// The moment of the first repeat: the person has waited since then.
    since: Option<u64>,
    /// Already said.
    fired: bool,
}

/// Whether the target is alive at the TRANSPORT level: it answered something beyond the handshake.
/// One packet up is the `SYN+ACK`, the kernel's consent, not the target's work.
pub open spec fn alive(edge: EdgeReading) -> bool {
    edge.up_packets matches Some(packets) && packets >= 2
}

/// Whether a letter shows that a segment went through: bytes from the target.
pub open spec fn went_through(seen: Option<Seen>) -> bool {
    match seen {
        Some(Seen::Received { .. }) | Some(Seen::Restated { .. }) => true,
        Some(Seen::Payload { from_client, .. }) => !from_client,
        _ => false,
    }
}

impl SwallowInstrument {
    pub closed spec fn repeats(&self) -> u32 {
        self.repeats
    }

    pub closed spec fn since(&self) -> Option<u64> {
        self.since
    }

    pub closed spec fn fired(&self) -> bool {
        self.fired
    }

    pub fn new() -> (r: SwallowInstrument)
        ensures
            r.repeats() == 0,
            r.since() == None::<u64>,
            !r.fired(),
    {
        SwallowInstrument { repeats: 0, since: None, fired: false }
    }

    /// Whether a repeat at `at` names the swallowed segment: it makes enough, and nothing was said.
    pub open spec fn accuses(&self) -> bool {
        self.repeats() + 1 >= ENOUGH && !self.fired()
    }

    /// One letter. A hiding letter clears the count (the hole may have taken the target's answer);
    /// a repeat while the target lives counts, and the second one is named once; bytes from the
    /// target clear the count; the rest changes nothing.
    pub fn step(self, event: DetectorEvent<Edged<Option<Seen>, Option<EdgeReading>>>) -> (r: (SwallowInstrument, Said<Distress>, ()))
        ensures
            // Said once: after it has spoken, it stays silent.
            self.fired() ==> r.0.fired() && distress_said(r.1).len() == 0,
            match event {
                DetectorEvent::Torn { .. } => {
                    &&& r.0.repeats() == 0 && r.0.since() == None::<u64> && r.0.fired() == self.fired()
                    &&& distress_said(r.1) == Seq::<Distress>::empty()
                },
                DetectorEvent::Packet { input: Edged { narrow, edge: Some(e) }, at } => {
                    if narrow matches Some(Seen::Resent { .. }) && alive(e) {
                        let since = if self.since() is Some { self.since().unwrap() } else { at };
                        &&& r.0.repeats() == (if self.repeats() == u32::MAX { u32::MAX } else { (self.repeats() + 1) as u32 })
                        &&& r.0.since() == Some(since)
                        &&& r.0.fired() == (self.fired() || self.accuses())
                        &&& distress_said(r.1) == seq_of(if self.accuses() {
                            Some(Distress::Swallowed { after_ms: elapsed(since, at) as u32 })
                        } else {
                            None
                        })
                    } else if went_through(narrow) {
                        &&& r.0.repeats() == 0 && r.0.since() == None::<u64> && r.0.fired() == self.fired()
                        &&& distress_said(r.1) == Seq::<Distress>::empty()
                    } else {
                        &&& r.0 == self
                        &&& distress_said(r.1) == Seq::<Distress>::empty()
                    }
                },
                _ => {
                    &&& r.0 == self
                    &&& distress_said(r.1) == Seq::<Distress>::empty()
                },
            },
    {
        if event.hides_observation() {
            return (SwallowInstrument { repeats: 0, since: None, ..self }, Said::of(None), ());
        }
        let (input, at) = match event {
            DetectorEvent::Packet { input, at } => (input, at),
            _ => return (self, Said::of(None), ()),
        };
        let edge = match input.edge {
            Some(e) => e,
            None => return (self, Said::of(None), ()),
        };
        let alive_now = match edge.up_packets {
            Some(packets) => packets >= 2,
            None => false,
        };
        match input.narrow {
            Some(Seen::Resent { .. }) if alive_now => {
                let repeats = self.repeats.saturating_add(1);
                let since = match self.since {
                    Some(s) => s,
                    None => at,
                };
                if repeats >= ENOUGH && !self.fired {
                    let after_ms = at.saturating_sub(since);
                    (
                        SwallowInstrument { repeats, since: Some(since), fired: true },
                        Said::of(Some(Distress::Swallowed { after_ms: after_ms as u32 })),
                        (),
                    )
                } else {
                    (SwallowInstrument { repeats, since: Some(since), ..self }, Said::of(None), ())
                }
            },
            Some(Seen::Received { .. }) | Some(Seen::Restated { .. }) | Some(Seen::Payload { from_client: false, .. }) => {
                (SwallowInstrument { repeats: 0, since: None, ..self }, Said::of(None), ())
            },
            _ => (self, Said::of(None), ()),
        }
    }
}

impl Instrument for SwallowInstrument {
    type Signal = Distress;

    open spec fn public_name() -> Seq<char> {
        "swallow"@
    }

    fn sheet() -> (r: Sheet) {
        let protocols: &'static [Protocol] = &[Protocol::Tcp];
        assert(protocols@ =~= seq![Protocol::Tcp]);
        Sheet {
            instrument: "swallow",
            subject: Subject::World,
            layer: Layer::Transport,
            protocols,
            type_path: "reflex_instrument::swallow::SwallowInstrument",
            rung: None,
            cadence: Cadence::Foreign,
            shape: Shape::Event,
            silence: Some(Silence::Nothing),
            lies: &[
        "ПРИЧИНЫ НЕ ЗНАЕТ. Выборочный дроп по сигнатуре, потеря на перегруженном канале, битый \
         MTU-путь без ICMP — дают ОДНУ картину: клиент повторяет, цель подтверждает прежнее. \
         Прибор говорит «этот сегмент не проходит, а разговор жив», и это всё, что он \
         устанавливает.",
        "ЖИВОСТЬ БЕРЁТСЯ У КРАЯ, значит наследует его предел: край, ведущий счёт по дошедшим до \
         НАС кадрам (`Local`), при нашей же дыре занизит `up_packets` — и прибор промолчит там, \
         где цель на самом деле отвечала. Ошибка в сторону молчания, не в сторону обвинения.",
        "ПОРОГ В ДВА ПОВТОРА ВЫБРАН ПО РОДУ, А НЕ ПО ЗАМЕРУ. Одиночный повтор — обычная потеря, \
         это известно; сколько повторов отличают цензуру от плохого канала — не замерено, и \
         число будет уточняться первой же записью, где путь просто плох.",
    ],
            oracles: &["swallow(tail,alive)", "silentdrop(1.2.3.4)"],
            death: "выборочный дроп получил причину: прибор отличает цензуру пути от плохого канала",
            events: &["swallowed"],
        }
    }

    fn name(signal: &Distress) -> (r: &'static str)
        ensures
            r@ == name_of(*signal),
    {
        signal.name()
    }

    fn alarming(signal: &Distress) -> (r: bool)
        ensures
            r,
    {
        true
    }
}

} // verus!
