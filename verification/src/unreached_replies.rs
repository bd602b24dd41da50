//! THE TARGET ANSWERS, AND THE ANSWERS DO NOT ARRIVE: the instrument of the filter in the other
//! direction. The target sends one and the same segment again and again (its RTO) while nothing
//! moves. A single repeat is ordinary loss; a RUN of repeats without progress is a statement of the
//! side. Fresh bytes of the target reset the count (answers arrive), and so does our own blindness:
//! a hiding letter may have taken exactly the bytes that would have lifted the suspicion.
use vstd::prelude::*;

use crate::distress::{detail_of, name_of, Distress};
use crate::event::DetectorEvent;
use crate::said::{distress_said, seq_of, Said};
use crate::wire::Seen;
use crate::{Cadence, Instrument, Layer, Protocol, Rung, Shape, Sheet, Silence, Subject};

verus! {

/// How many repeats in a row without progress are a statement of the side.
pub const ENOUGH: u32 = 2;

/// The instrument: the target repeats its answer, no progress.
#[derive(Debug, Clone, Copy, Default)]
pub struct UnreachedInstrument {
    /// The target's repeats in a row, without fresh bytes between them.
    retries: u32,
    /// Already said.
    fired: bool,
}

/// Progress: fresh bytes of the target.
pub open spec fn progress(seen: Seen) -> bool {
    match seen {
        Seen::Received { .. } => true,
        Seen::Payload { from_client, .. } => !from_client,
        _ => false,
    }
}

impl UnreachedInstrument {
    pub closed spec fn retries(&self) -> u32 { self.retries }
    pub closed spec fn fired(&self) -> bool { self.fired }

    pub fn new() -> (r: UnreachedInstrument)
        ensures
            r.retries() == 0 && !r.fired(),
    {
        UnreachedInstrument { retries: 0, fired: false }
    }

    /// The count after one more repeat.
    pub open spec fn next_retries(&self) -> u32 {
        if self.retries() == u32::MAX { u32::MAX } else { (self.retries() + 1) as u32 }
    }

    /// Whether a repeat names the unreached answers.
    pub open spec fn accuses(&self) -> bool {
        self.next_retries() >= ENOUGH && !self.fired()
    }

    /// One letter of the wire.
    pub fn step(self, event: DetectorEvent<Seen>) -> (r: (UnreachedInstrument, Said<Distress>, ()))
        ensures
            // Said once: after it has spoken, it stays silent.
            self.fired() ==> r.0.fired() && distress_said(r.1).len() == 0,
            match event {
                DetectorEvent::Torn { .. } => {
                    &&& r.0.retries() == 0 && r.0.fired() == self.fired()
                    &&& distress_said(r.1) == Seq::<Distress>::empty()
                },
                DetectorEvent::Packet { input: Seen::Restated { .. }, .. } => {
                    &&& r.0.retries() == self.next_retries()
                    &&& r.0.fired() == (self.fired() || self.accuses())
                    &&& distress_said(r.1) == seq_of(if self.accuses() {
                        Some(Distress::Unreached { retries: self.next_retries() })
                    } else {
                        None
                    })
                },
                DetectorEvent::Packet { input, .. } => {
                    &&& r.0.retries() == (if progress(input) { 0 } else { self.retries() })
                    &&& r.0.fired() == self.fired()
                    &&& distress_said(r.1) == Seq::<Distress>::empty()
                },
                _ => {
                    &&& r.0 == self
                    &&& distress_said(r.1) == Seq::<Distress>::empty()
                },
            },
    {
        if event.hides_observation() {
            return (UnreachedInstrument { retries: 0, ..self }, Said::of(None), ());
        }
        match event {
            DetectorEvent::Packet { input, .. } => match input {
                Seen::Restated { .. } => {
                    let retries = self.retries.saturating_add(1);
                    if retries >= ENOUGH && !self.fired {
                        (
                            UnreachedInstrument { retries, fired: true },
                            Said::of(Some(Distress::Unreached { retries })),
                            (),
                        )
                    } else {
                        (UnreachedInstrument { retries, ..self }, Said::of(None), ())
                    }
                },
                Seen::Received { .. } | Seen::Payload { from_client: false, .. } => {
                    (UnreachedInstrument { retries: 0, ..self }, Said::of(None), ())
                },
                Seen::Sent { .. } | Seen::Resent { .. } | Seen::Closed { .. } | Seen::Payload { from_client: true, .. } => {
                    (self, Said::of(None), ())
                },
            },
            _ => (self, Said::of(None), ()),
        }
    }
}

impl Instrument for UnreachedInstrument {
    type Signal = Distress;

    open spec fn public_name() -> Seq<char> {
        "unreached"@
    }

    fn sheet() -> (r: Sheet) {
        let protocols: &'static [Protocol] = &[Protocol::Tcp];
        assert(protocols@ =~= seq![Protocol::Tcp]);
        Sheet {
            instrument: "unreached",
            subject: Subject::World,
            layer: Layer::Transport,
            protocols,
            type_path: "reflex_instrument::unreached_replies::UnreachedInstrument",
            rung: Some(Rung::Answered),
            cadence: Cadence::Foreign,
            shape: Shape::Event,
            silence: Some(Silence::Nothing),
            lies: &[
        "НЕ РАЗЛИЧАЕТ БЛОКИРОВКУ ОТВЕТОВ ОТ ОБЫЧНЫХ ПОТЕРЬ НА ОБРАТНОМ ПУТИ — зеркальный близнец          главной лжи прибора повтора клиента. Канал с потерями даёт тот же ряд повторов цели без          продвижения. Показание есть ПОДОЗРЕНИЕ, и действие по нему обязано иметь своё предусловие.",
        "ПОРОГ В ДВА ПОВТОРА НЕ ИЗМЕРЕН КАК ОПТИМУМ. Он взят по доводу соседа (прибор просадки ждёт          двух окон подряд): одиночный повтор бывает от обычной потери. Записи, на которой порог          сверялся бы с землёй, у этой константы нет.",
        "СЛЕПОТА И ПРОДВИЖЕНИЕ СБРАСЫВАЮТ СЧЁТ ОДИНАКОВО, а причины у них разные. Прячущая буква          могла забрать ровно те свежие байты, что сняли бы подозрение, — и прибор, сбросив счёт,          молчит там, где беда была. Это сознательный выбор (§7: обвинять цель за НАШ пропуск          дороже), но пропуск он и есть.",
    ],
            oracles: &[],
            death: "цель перестала повторять один и тот же сегмент — либо ответы дошли, либо разговор кончился",
            events: &["unreached"],
        }
    }

    fn name(signal: &Distress) -> (r: &'static str)
        ensures
            r@ == name_of(*signal),
    {
        signal.name()
    }

    fn alarming(signal: &Distress) -> (r: bool)
        ensures
            r,
    {
        signal.alarming()
    }

    fn detail(signal: &Distress) -> (r: String)
        ensures
            r@ == detail_of(*signal),
    {
        signal.detail()
    }
}

} // verus!
