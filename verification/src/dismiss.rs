//! THE TARGET CLOSED THE CONVERSATION WITHOUT A BYTE: a refusal that looks like an ordinary end.
//! The greeting went up, the target answered with a `FIN` and no data; no reset anywhere. The
//! subject is not a letter but the PAIR "a goodbye · nothing said": a goodbye after bytes were given
//! is the normal end of a conversation, and the instrument stays silent there.
use vstd::prelude::*;

use crate::detect::elapsed;
use crate::distress::{name_of, Distress};
use crate::event::DetectorEvent;
use crate::said::{distress_said, seq_of, Said};
use crate::wire::Seen;
use crate::{Cadence, Instrument, Layer, Protocol, Rung, Shape, Sheet, Silence, Subject};

verus! {

/// The instrument of the polite refusal: the target closed without giving data.
#[derive(Debug, Clone, Copy, Default)]
pub struct DismissInstrument {
    /// When the client asked: the person's wait is measured from it.
    asked: Option<u64>,
    /// Whether the target gave a byte of DATA; acknowledgements do not count.
    spoke: bool,
    /// Blinded by a letter that hides observations: the target's bytes may have passed us by.
    blinded: bool,
    /// Already said.
    fired: bool,
}

/// The client's request: bytes up, a repeat, or the first bytes of the stream.
pub open spec fn asks(seen: Seen) -> bool {
    match seen {
        Seen::Sent { .. } | Seen::Resent { .. } => true,
        Seen::Payload { from_client, .. } => from_client,
        _ => false,
    }
}

/// The target's data: fresh bytes, its repeat, or the first bytes of its stream.
pub open spec fn target_data(seen: Seen) -> bool {
    match seen {
        Seen::Received { .. } | Seen::Restated { .. } => true,
        Seen::Payload { from_client, .. } => !from_client,
        _ => false,
    }
}

impl DismissInstrument {
    pub closed spec fn asked(&self) -> Option<u64> { self.asked }
    pub closed spec fn spoke(&self) -> bool { self.spoke }
    pub closed spec fn blinded(&self) -> bool { self.blinded }
    pub closed spec fn fired(&self) -> bool { self.fired }

    pub fn new() -> (r: DismissInstrument)
        ensures
            r.asked() == None::<u64> && !r.spoke() && !r.blinded() && !r.fired(),
    {
        DismissInstrument { asked: None, spoke: false, blinded: false, fired: false }
    }

    /// Whether a goodbye names the refusal: it comes from the TARGET, a request is alive, the
    /// target said nothing (and we did not go blind), and nothing was said yet.
    pub open spec fn accuses(&self, seen: Seen) -> bool {
        &&& seen matches Seen::Closed { by_client } && !by_client
        &&& !(self.spoke() || self.blinded())
        &&& self.asked() is Some
        &&& !self.fired()
    }

    /// One letter of the wire.
    pub fn step(self, event: DetectorEvent<Seen>) -> (r: (DismissInstrument, Said<Distress>, ()))
        ensures
            // Said once: after it has spoken, it stays silent.
            self.fired() ==> r.0.fired() && distress_said(r.1).len() == 0,
            match event {
                DetectorEvent::Torn { .. } => {
                    &&& r.0.asked() == self.asked() && r.0.spoke() == self.spoke()
                    &&& r.0.fired() == self.fired() && r.0.blinded()
                    &&& distress_said(r.1) == Seq::<Distress>::empty()
                },
                DetectorEvent::Packet { input, at } => {
                    &&& r.0.asked() == (if asks(input) && self.asked() is None { Some(at) } else { self.asked() })
                    &&& r.0.spoke() == (self.spoke() || target_data(input))
                    &&& r.0.blinded() == self.blinded()
                    &&& r.0.fired() == (self.fired() || self.accuses(input))
                    &&& distress_said(r.1) == seq_of(if self.accuses(input) {
                        Some(Distress::Dismissed { after_ms: elapsed(self.asked().unwrap(), at) as u32 })
                    } else {
                        None
                    })
                },
                _ => {
                    &&& r.0 == self
                    &&& distress_said(r.1) == Seq::<Distress>::empty()
                },
            },
    {
        if event.hides_observation() {
            return (DismissInstrument { blinded: true, ..self }, Said::of(None), ());
        }
        let (input, at) = match event {
            DetectorEvent::Packet { input, at } => (input, at),
            _ => return (self, Said::of(None), ()),
        };
        match input {
            Seen::Sent { .. } | Seen::Resent { .. } | Seen::Payload { from_client: true, .. } => (
                DismissInstrument {
                    asked: match self.asked {
                        Some(a) => Some(a),
                        None => Some(at),
                    },
                    ..self
                },
                Said::of(None),
                (),
            ),
            Seen::Received { .. } | Seen::Restated { .. } | Seen::Payload { from_client: false, .. } => {
                (DismissInstrument { spoke: true, ..self }, Said::of(None), ())
            },
            Seen::Closed { by_client } => {
                match (by_client, self.spoke || self.blinded, self.asked, self.fired) {
                    (false, false, Some(asked), false) => (
                        DismissInstrument { fired: true, ..self },
                        Said::of(Some(Distress::Dismissed { after_ms: at.saturating_sub(asked) as u32 })),
                        (),
                    ),
                    _ => (self, Said::of(None), ()),
                }
            },
        }
    }
}

impl Instrument for DismissInstrument {
    type Signal = Distress;

    open spec fn public_name() -> Seq<char> {
        "dismiss"@
    }

    fn sheet() -> (r: Sheet) {
        let protocols: &'static [Protocol] = &[Protocol::Tcp];
        assert(protocols@ =~= seq![Protocol::Tcp]);
        Sheet {
            instrument: "dismiss",
            subject: Subject::World,
            layer: Layer::Transport,
            protocols,
            type_path: "reflex_instrument::dismiss::DismissInstrument",
            rung: None,
            cadence: Cadence::Foreign,
            shape: Shape::Event,
            silence: Some(Silence::Nothing),
            lies: &[
        "ПРИЧИНЫ НЕ ЗНАЕТ. Отказ по SNI, исчерпание ресурсов у сервера, ошибка приложения до \
         первого байта ответа — дают ОДНУ картину: приветствие принято, данных нет, соединение \
         закрыто вежливо. Прибор говорит «цель ушла, не сказав», и это всё.",
        "ПОДТВЕРЖДЕНИЯ ЗА ОТВЕТ НЕ СЧИТАЮТСЯ, и это выбор, а не упущение: `ACK` есть согласие ядра \
         принять байты, а не слово собеседника. Сервер, успевший отдать хоть байт и закрывшийся, \
         прибору не предмет — там обычное завершение.",
        "СЛЕПОТА ГАСИТ ОБВИНЕНИЕ НАВСЕГДА. Прячущая буква могла унести те самые байты, что сняли \
         бы подозрение, и снять слепоту нечем: утверждение историческое. Цена — пропущенный \
         отказ на потоке, где была дыра; обратное дало бы обвинение цели за нашу потерю.",
    ],
            oracles: &["dismiss(sni,fin)", "keepalive(close_after_bytes)"],
            death: "вежливый отказ получил причину: прибор отличает отказ по имени от исчерпания сервера",
            events: &["dismissed"],
        }
    }

    fn name(signal: &Distress) -> (r: &'static str)
        ensures
            r@ == name_of(*signal),
    {
        signal.name()
    }

    fn alarming(signal: &Distress) -> (r: bool)
        ensures
            r,
    {
        true
    }
}

} // verus!
