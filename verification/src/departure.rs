//! The person's leaving, and the pattern of the inverted dependency: the instrument ASKS (the
//! questions of `ask`), the domain ANSWERS. Whoever answers is indifferent to it.
use vstd::prelude::*;

use crate::ask::{SeveredByPerson, TargetDelivered};
use crate::event::DetectorEvent;
use crate::said::{left_said, seq_of, Said};
use crate::{Cadence, Instrument, Layer, Protocol, Rung, Shape, Sheet, Silence, Subject};

verus! {

/// How the person left.
#[derive(Debug, Clone, Copy, PartialEq, Eq, Structural)]
pub enum Left {
    /// Left with nothing: trouble in a person's units.
    Unserved,
    /// Left having got what they came for: the end of a conversation, not a breakage.
    Served,
}

/// The instrument of leaving, parameterised by what it is given.
pub struct DepartureInstrument<S> {
    given: core::marker::PhantomData<S>,
}

/// What the answers to the two questions mean: nobody left — nothing; the person left — served or
/// not, by whether the target delivered.
pub open spec fn left_of(severed: bool, delivered: bool) -> Option<Left> {
    if !severed {
        None
    } else if delivered {
        Some(Left::Served)
    } else {
        Some(Left::Unserved)
    }
}

/// What the answers to the two questions mean.
pub fn judge(severed: bool, delivered: bool) -> (r: Option<Left>)
    ensures
        r == left_of(severed, delivered),
{
    if !severed {
        None
    } else if delivered {
        Some(Left::Served)
    } else {
        Some(Left::Unserved)
    }
}

impl<S> DepartureInstrument<S> {
    pub fn new() -> Self {
        DepartureInstrument { given: core::marker::PhantomData }
    }
}

impl<S: SeveredByPerson + TargetDelivered> DepartureInstrument<S> {
    /// Asks the observation both questions and judges the answers (`judge`).
    pub fn read(&self, observation: &S, now_ms: u64) -> (r: Option<Left>)
        ensures
            r == left_of(observation.severed(), observation.delivered()),
    {
        let severed = observation.severed_by_person();
        let delivered = observation.target_delivered();
        judge(severed, delivered)
    }

    /// One letter: an observation is read; the rest says nothing.
    pub fn step(self, event: DetectorEvent<S>) -> (r: (Self, Said<Left>, ()))
        ensures
            match event {
                DetectorEvent::Packet { input, .. } =>
                    left_said(r.1) == seq_of(left_of(input.severed(), input.delivered())),
                _ => left_said(r.1) == Seq::<Left>::empty(),
            },
    {
        match event {
            DetectorEvent::Packet { input, .. } => {
                let reading = self.read(&input, 0);
                (self, Said::of_left(reading), ())
            },
            _ => (self, Said::of_left(None), ()),
        }
    }
}

impl<S: SeveredByPerson + TargetDelivered> Instrument for DepartureInstrument<S> {
    type Signal = Left;

    open spec fn public_name() -> Seq<char> {
        "departure"@
    }

    fn sheet() -> (r: Sheet) {
        let protocols: &'static [Protocol] = &[Protocol::Tcp];
        assert(protocols@ =~= seq![Protocol::Tcp]);
        Sheet {
            instrument: "departure",
            subject: Subject::Person,
            layer: Layer::Session,
            protocols,
            type_path: "reflex_instrument::departure::DepartureInstrument",
            rung: None,
            cadence: Cadence::Foreign,
            shape: Shape::Event,
            silence: Some(Silence::Nothing),
            lies: &[
        "«ПОЛУЧИЛ СВОЁ» ЗНАЧИТ ЛИШЬ «ПОЛУЧИЛ БАЙТЫ». Заглушка «недоступно в вашей стране» тоже \
         байты, и прибор назовёт такой уход обслуженным. Различает их содержимое, а это другой \
         уровень и другой прибор.",
        "УХОД БЕЗ СБРОСА НЕ ВИДЕН. Человек, закрывший вкладку молча (соединение доживает по \
         таймауту), не даёт события вовсе — прибор промолчит, и молчание будет означать «не \
         видели», а не «не уходил».",
    ],
            oracles: &["abandon(rutracker.org,3)", "pass"],
            death: "содержимое проверяется; обслуженность не равна наличию байтов",
            events: &["left_served", "left_unserved"],
        }
    }

    fn name(signal: &Left) -> (r: &'static str)
        ensures
            r@ == (match *signal {
                Left::Served => "left_served"@,
                Left::Unserved => "left_unserved"@,
            }),
    {
        match signal {
            Left::Served => "left_served",
            Left::Unserved => "left_unserved",
        }
    }

    fn alarming(signal: &Left) -> (r: bool)
        ensures
            r == (*signal == Left::Unserved),
    {
        match signal {
            Left::Unserved => true,
            Left::Served => false,
        }
    }
}

} // verus!
