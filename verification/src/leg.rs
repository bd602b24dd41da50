//! A link chokes: the share of stalled conversations in a window. The only instrument that answers
//! "is it not us who are to blame for the sag": under congestion ALL sag, under censorship only
//! some. The discriminator is proportional.
use vstd::prelude::*;

use crate::ask::{Carrying, Stalled};
use crate::event::DetectorEvent;
use crate::said::{leg_said, seq_of, Said};
use crate::{Cadence, Instrument, Layer, Protocol, Rung, Shape, Sheet, Silence, Subject};

verus! {

/// A link (a leg of the path): an area of its own outside the conversation, which outlives every
/// conversation over it and can be spoken about when there are none.
pub struct Link;

/// Whether the link choked.
#[derive(Debug, Clone, Copy, PartialEq, Eq, Structural)]
pub enum Leg {
    /// Half of the conversations or more stand still: the link is congested.
    Stalled,
    /// No congestion.
    Healthy,
}

/// The observer of a link, parameterised by what it is given.
pub struct LinkInstrument<L> {
    given: core::marker::PhantomData<L>,
}

/// What the counts of a window mean: an empty window is not judged (no share without a
/// denominator); half stalled or more is a stalled link.
pub open spec fn leg_of(carrying: usize, stalled: usize) -> Option<Leg> {
    if carrying == 0 {
        None
    } else if 2 * stalled >= carrying {
        Some(Leg::Stalled)
    } else {
        Some(Leg::Healthy)
    }
}

/// What the counts of a window mean.
pub fn judge_leg(carrying: usize, stalled: usize) -> (r: Option<Leg>)
    ensures
        r == leg_of(carrying, stalled),
{
    if carrying == 0 {
        None
    } else if stalled >= carrying || stalled >= carrying - stalled {
        Some(Leg::Stalled)
    } else {
        Some(Leg::Healthy)
    }
}

impl<L> LinkInstrument<L> {
    pub fn new() -> Self {
        LinkInstrument { given: core::marker::PhantomData }
    }
}

impl<L: Carrying + Stalled> LinkInstrument<L> {
    /// Asks the window both counts and judges them (`judge_leg`).
    pub fn read(&self, link: &L, now_ms: u64) -> (r: Option<Leg>)
        ensures
            r == leg_of(link.carried(), link.stalled_count()),
    {
        let carrying = link.carrying();
        if carrying == 0 {
            assert(leg_of(0, 0) is None);
            return None;
        }
        let stalled = link.stalled();
        judge_leg(carrying, stalled)
    }

    /// One letter: a window is read; the rest says nothing.
    pub fn step(self, event: DetectorEvent<L>) -> (r: (Self, Said<Leg>, ()))
        ensures
            match event {
                DetectorEvent::Packet { input, .. } =>
                    leg_said(r.1) == seq_of(leg_of(input.carried(), input.stalled_count())),
                _ => leg_said(r.1) == Seq::<Leg>::empty(),
            },
    {
        match event {
            DetectorEvent::Packet { input, .. } => {
                let reading = self.read(&input, 0);
                (self, Said::of_leg(reading), ())
            },
            _ => (self, Said::of_leg(None), ()),
        }
    }
}

impl<L: Carrying + Stalled> Instrument for LinkInstrument<L> {
    type Signal = Leg;

    open spec fn public_name() -> Seq<char> {
        "leg"@
    }

    fn sheet() -> (r: Sheet) {
        let protocols: &'static [Protocol] = &[];
        assert(protocols@ =~= Seq::<Protocol>::empty());
        Sheet {
            instrument: "leg",
            subject: Subject::World,
            layer: Layer::Network,
            protocols,
            type_path: "reflex_instrument::leg::LinkInstrument",
            rung: None,
            cadence: Cadence::Foreign,
            shape: Shape::State,
            silence: Some(Silence::Nothing),
            lies: &[
        "ПОСТРОЕН И ЖИВЁТ В СОБСТВЕННЫХ ТЕСТАХ. `link::saturation` не зовётся ни одним живым \
         входом — назван в `pipe.rs` в одном ряду с `Offers` как известный ноль. При этом он есть \
         прямой ответ на режим лжи детектора троттлинга («медленный канал неотличим от цензуры»): \
         прибор, лечащий чужую слепоту, лежит рядом невостребованным.",
        "СЛАБЫЙ ПРИЗНАК ВЗЯТ У НЕВОДА 1 ВМЕСТЕ С ЕГО ЦЕНОЙ: «канал занят» срабатывает, когда \
         человек качает файл И его в это же время душат. Подавлять обвинение по такому признаку \
         значит терять лечение настоящей цензуры ровно тогда, когда канал занят. Оттого решений по \
         нему не принимают — только называют совпадение.",
        "ПРОПОРЦИЯ ТРЕБУЕТ ЧИСЛА РАЗГОВОРОВ. На одном-двух она не значит ничего, и порог этого \
         числа здесь не назван — он живёт у потребителя, которого нет.",
    ],
            oracles: &["throttle(250kbit,6%)", "pass"],
            death: "живой вход читает наблюдателя канала; вердикт входит в решение",
            events: &["leg_stalled", "leg_healthy"],
        }
    }

    fn name(signal: &Leg) -> (r: &'static str)
        ensures
            r@ == (match *signal {
                Leg::Stalled => "leg_stalled"@,
                Leg::Healthy => "leg_healthy"@,
            }),
    {
        match signal {
            Leg::Stalled => "leg_stalled",
            Leg::Healthy => "leg_healthy",
        }
    }

    fn alarming(signal: &Leg) -> (r: bool)
        ensures
            r == (*signal == Leg::Stalled),
    {
        match signal {
            Leg::Stalled => true,
            Leg::Healthy => false,
        }
    }
}

} // verus!
