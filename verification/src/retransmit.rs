//! A repeat without an answer: the earliest evidence of a silent drop, the only instrument of the
//! fleet without a clock. The threshold is not ours: the client's kernel has already measured the
//! RTO for the RTT of this very path. The author is not named: ordinary loss gives the same repeat.
use vstd::prelude::*;

use crate::detect::{delivered, elapsed};
use crate::distress::{detail_of, name_of, Distress};
use crate::event::DetectorEvent;
use crate::said::{distress_said, seq_of, Said};
use crate::wire::Seen;
use crate::{Cadence, Instrument, Layer, Protocol, Rung, Shape, Sheet, Silence, Subject};

verus! {

/// The instrument of the unanswered repeat: when the client first asked, how much the target gave
/// (nonzero lifts the suspicion), whether it complained.
#[derive(Debug, Clone, Copy)]
pub struct RetransmitInstrument {
    /// When the client first asked; `None` — no request seen.
    first_asked: Option<u64>,
    /// Bytes from the target down.
    down: u32,
    fired: bool,
}

/// A request of the client: bytes up, or the first bytes of its stream.
pub open spec fn opens(seen: Seen) -> bool {
    match seen {
        Seen::Sent { .. } => true,
        Seen::Payload { from_client, .. } => from_client,
        _ => false,
    }
}

impl RetransmitInstrument {
    pub closed spec fn first_asked(&self) -> Option<u64> { self.first_asked }
    pub closed spec fn down(&self) -> u32 { self.down }
    pub closed spec fn fired(&self) -> bool { self.fired }

    pub fn new() -> (r: RetransmitInstrument)
        ensures
            r.first_asked() == None::<u64> && r.down() == 0 && !r.fired(),
    {
        RetransmitInstrument { first_asked: None, down: 0, fired: false }
    }

    /// Whether a letter names the unanswered repeat: a repeat, nothing down, a request seen, not
    /// yet said.
    pub open spec fn accuses(&self, seen: Seen) -> bool {
        seen is Resent && !self.fired() && self.down() == 0 && self.first_asked() is Some
    }

    /// One letter of the wire. Ticks, letters not understood and tears change nothing.
    pub fn step(self, event: DetectorEvent<Seen>) -> (r: (RetransmitInstrument, Said<Distress>, ()))
        requires
            event matches DetectorEvent::Packet { input, .. } ==> self.down() + delivered(input) <= u32::MAX,
        ensures
            // Said once: after it has spoken, it stays silent.
            self.fired() ==> r.0.fired() && distress_said(r.1).len() == 0,
            match event {
                DetectorEvent::Packet { input, at } => {
                    &&& r.0.first_asked() == (if opens(input) && self.first_asked() is None { Some(at) } else { self.first_asked() })
                    &&& r.0.down() == self.down() + delivered(input)
                    &&& r.0.fired() == (self.fired() || self.accuses(input))
                    &&& distress_said(r.1) == seq_of(if self.accuses(input) {
                        Some(Distress::Retransmit { after_ms: elapsed(self.first_asked().unwrap(), at) as u32 })
                    } else {
                        None
                    })
                },
                _ => {
                    &&& r.0 == self
                    &&& distress_said(r.1) == Seq::<Distress>::empty()
                },
            },
    {
        let (state, said) = match event {
            DetectorEvent::Packet { input, at } => match input {
                Seen::Sent { .. } => (
                    RetransmitInstrument {
                        first_asked: match self.first_asked {
                            Some(a) => Some(a),
                            None => Some(at),
                        },
                        ..self
                    },
                    None,
                ),
                Seen::Payload { head, from_client } => {
                    if from_client {
                        (
                            RetransmitInstrument {
                                first_asked: match self.first_asked {
                                    Some(a) => Some(a),
                                    None => Some(at),
                                },
                                ..self
                            },
                            None,
                        )
                    } else {
                        (RetransmitInstrument { down: self.down + head.len() as u32, ..self }, None)
                    }
                },
                Seen::Received { count } => (RetransmitInstrument { down: self.down + count, ..self }, None),
                Seen::Resent { .. } => match (self.fired, self.down, self.first_asked) {
                    (false, 0, Some(asked)) => (
                        RetransmitInstrument { fired: true, ..self },
                        Some(Distress::Retransmit { after_ms: at.saturating_sub(asked) as u32 }),
                    ),
                    _ => (self, None),
                },
                Seen::Restated { .. } | Seen::Closed { .. } => (self, None),
            },
            _ => (self, None),
        };
        (state, Said::of(said), ())
    }
}

impl Instrument for RetransmitInstrument {
    type Signal = Distress;

    open spec fn public_name() -> Seq<char> {
        "retransmit"@
    }

    fn sheet() -> (r: Sheet) {
        let protocols: &'static [Protocol] = &[Protocol::Tcp];
        assert(protocols@ =~= seq![Protocol::Tcp]);
        Sheet {
            instrument: "retransmit",
            subject: Subject::World,
            layer: Layer::Transport,
            protocols,
            type_path: "reflex_instrument::retransmit::RetransmitInstrument",
            rung: Some(Rung::Answered),
            cadence: Cadence::Foreign,
            shape: Shape::Event,
            silence: Some(Silence::Nothing),
            lies: &[
        "НЕ РАЗЛИЧАЕТ БЛОКИРОВКУ ОТ ОБЫЧНОЙ ПОТЕРИ ПАКЕТА, и это главный его режим лжи. \
         Перегруженный канал даёт ровно тот же повтор при нулевом ответе. Отсюда следует, что \
         показание есть ПОДОЗРЕНИЕ, а не приговор: действие по нему (обрыв) обязано иметь \
         собственное предусловие, а не опираться на эту улику одну.",
        "ПОВТОР ЛЮБОГО СЕГМЕНТА, А НЕ ТОЛЬКО ПРИВЕТСТВИЯ. На нашем вантаже дропается `ClientHello` \
         (замер 04.09.2026, 9 целей), но прибор не проверяет, ЧТО повторили: повтор середины \
         запроса при нулевом ответе он назовёт тем же словом.",
        "ПОТОК, ПОДХВАЧЕННЫЙ С СЕРЕДИНЫ, ОСТАЁТСЯ НЕВИДИМЫМ. Просьбы прибор не видел, величины у \
         показания нет, и он молчит — это `Blind`, а не `Nothing`, и лечится оно другим прибором, \
         а не понижением порога здесь.",
        "ЧУЖИЕ ЧАСЫ НЕ НАБЛЮДАЕМЫ. Величина показания есть ожидание человека, но САМ RTO (когда \
         клиентское ядро решило повторить) нам не виден: два клиента с разной настройкой дадут \
         разные величины на одной и той же беде.",
    ],
            oracles: &["sni_drop(rutracker.org)", "pass"],
            death: "заведён различитель «дроп цензора против потери в канале»; подозрение стало приговором",
            events: &["retransmit"],
        }
    }

    fn name(signal: &Distress) -> (r: &'static str)
        ensures
            r@ == name_of(*signal),
    {
        signal.name()
    }

    fn alarming(signal: &Distress) -> (r: bool)
        ensures
            r,
    {
        signal.alarming()
    }

    fn detail(signal: &Distress) -> (r: String)
        ensures
            r@ == detail_of(*signal),
    {
        signal.detail()
    }
}

} // verus!
