//! The detector of DNS poisoning. It reads a parsed DNS message, not the bytes of the wire: the
//! subject is in the CONTENT of the answer (the code, the presence of an address). An injection
//! comes back to a query as `NXDOMAIN` or an empty answer instead of an address. A suspicion, not a
//! ruling, since a legitimate `NXDOMAIN` gives exactly the same answer.
use vstd::prelude::*;

use crate::distress::{name_of, Distress};
use crate::dns::{DnsDirection, DnsMessage};
use crate::event::DetectorEvent;
use crate::said::{distress_said, seq_of, Said};
use crate::{Cadence, Instrument, Layer, Protocol, Rung, Shape, Sheet, Silence, Subject};

verus! {

/// The code "the name does not exist".
pub const NXDOMAIN: u8 = 3;

/// The instrument of DNS poisoning: whether a query was seen, whether it complained.
#[derive(Debug, Clone, Copy, Default)]
pub struct DnsPoisonInstrument {
    /// A query was seen: there is something to measure the answer against.
    asked: bool,
    fired: bool,
}

/// A refusal: `NXDOMAIN`, or an answer without records.
pub open spec fn refused(m: DnsMessage) -> bool {
    m.rcode == NXDOMAIN || m.answers@.len() == 0
}

impl DnsPoisonInstrument {
    pub closed spec fn asked(&self) -> bool { self.asked }
    pub closed spec fn fired(&self) -> bool { self.fired }

    pub fn new() -> (r: DnsPoisonInstrument)
        ensures
            !r.asked() && !r.fired(),
    {
        DnsPoisonInstrument { asked: false, fired: false }
    }

    /// Whether a message names the poisoning: a refusing answer to a seen query, not yet said.
    pub open spec fn accuses(&self, m: DnsMessage) -> bool {
        m.direction == DnsDirection::Response && self.asked() && !self.fired() && refused(m)
    }

    /// One message. A query opens the watch; a refusing answer to it is named once. Both sides of
    /// the accusation are positive observations, so a hiding letter can only silence it.
    pub fn step(self, event: DetectorEvent<DnsMessage>) -> (r: (DnsPoisonInstrument, Said<Distress>, ()))
        ensures
            // Said once: after it has spoken, it stays silent.
            self.fired() ==> r.0.fired() && distress_said(r.1).len() == 0,
            match event {
                DetectorEvent::Packet { input, .. } => {
                    &&& r.0.asked() == (self.asked() || input.direction == DnsDirection::Query)
                    &&& r.0.fired() == (self.fired() || self.accuses(input))
                    &&& distress_said(r.1) == seq_of(if self.accuses(input) { Some(Distress::Poisoned) } else { None })
                },
                _ => {
                    &&& r.0 == self
                    &&& distress_said(r.1) == Seq::<Distress>::empty()
                },
            },
    {
        let (state, said) = match event {
            DetectorEvent::Packet { input, .. } => match input.direction {
                DnsDirection::Query => (DnsPoisonInstrument { asked: true, ..self }, None),
                DnsDirection::Response => {
                    let refused = input.rcode == NXDOMAIN || input.answers.len() == 0;
                    if self.asked && !self.fired && refused {
                        (DnsPoisonInstrument { fired: true, ..self }, Some(Distress::Poisoned))
                    } else {
                        (self, None)
                    }
                },
            },
            _ => (self, None),
        };
        (state, Said::of(said), ())
    }
}

impl Instrument for DnsPoisonInstrument {
    type Signal = Distress;

    open spec fn public_name() -> Seq<char> {
        "dns_poison"@
    }

    fn sheet() -> (r: Sheet) {
        let protocols: &'static [Protocol] = &[Protocol::Udp];
        assert(protocols@ =~= seq![Protocol::Udp]);
        Sheet {
            instrument: "dns_poison",
            subject: Subject::World,
            layer: Layer::Session,
            protocols,
            type_path: "reflex_instrument::poison::DnsPoisonInstrument",
            rung: None,
            cadence: Cadence::Foreign,
            shape: Shape::Event,
            silence: Some(Silence::Nothing),
            lies: &[
        "НЕ РАЗЛИЧАЕТ ИНЖЕКТ ОТ ЛЕГИТИМНОГО `NXDOMAIN`. Несуществующее имя (опечатка, снятый домен) \
         даёт ровно тот же отказ. Показание — ПОДОЗРЕНИЕ; приговор требует оракула или кросс-\
         резолвера (тот же запрос к другому DNS даёт адрес).",
        "ПАССИВНОГО ПРИЗНАКА ДВОЙНОГО ОТВЕТА НЕ ИСПОЛЬЗУЕТ. Канонический oracle-free признак инжекта \
         — второй ответ на один запрос — на вантаже подавлен (настоящий ответ не доходит), потому \
         прибор судит по одиночному отказу.",
    ],
            oracles: &["dns_nxdomain(nnmclub.to)", "pass"],
            death: "заведён кросс-резолвер либо оракул адреса; подозрение об инжекте стало приговором",
            events: &["poisoned"],
        }
    }

    fn name(signal: &Distress) -> (r: &'static str)
        ensures
            r@ == name_of(*signal),
    {
        signal.name()
    }

    fn alarming(signal: &Distress) -> (r: bool)
        ensures
            r,
    {
        signal.alarming()
    }
}

} // verus!
