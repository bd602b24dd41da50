//! The sag of a channel: "it started to download badly", not "it downloaded slowly". Only the
//! series tells them apart: the moment until which it was good. Three traps, each measured: the
//! flywheel (the first window is incomplete, TCP accelerates), the tail (the last is incomplete,
//! the file ended), burstiness (windows shorter than a burst give zeros between them). The factor
//! two lies in the gap of the measurement.
use vstd::prelude::*;

use crate::event::DetectorEvent;
use crate::said::{sag_said, seq_of, Said};
use crate::{Cadence, Instrument, Layer, Protocol, Rung, Shape, Sheet, Silence, Subject};

verus! {

/// The instrument of the sag. It has no state.
pub struct SagInstrument;

/// What sagged and when.
#[derive(Debug, Clone, Copy, PartialEq, Eq, Structural)]
pub struct Sag {
    /// The number of the window in which the pace fell, counted in the whole series.
    pub at_window: usize,
    /// Bytes per second BEFORE the sag: the bar the target proved.
    pub before_bps: u64,
    /// Bytes per second AFTER.
    pub after_bps: u64,
}

/// A window sank below half of the bar.
pub open spec fn sunk(bps: u64, baseline: u64) -> bool {
    2 * bps < baseline
}

/// The first pair of sunk windows from `i` on, named by its first window.
pub open spec fn first_pair(w: Seq<u64>, baseline: u64, i: int) -> Option<Sag>
    decreases w.len() - i,
{
    if i < 0 || i + 1 >= w.len() {
        None
    } else if sunk(w[i], baseline) && sunk(w[i + 1], baseline) {
        Some(Sag { at_window: (i + 1) as usize, before_bps: baseline, after_bps: w[i] })
    } else {
        first_pair(w, baseline, i + 1)
    }
}

/// The sag of a series of windows (bytes per second): the flywheel and the tail are dropped, the
/// bar is the first window after the flywheel, and the sag is the first pair of windows in a row
/// below half the bar. Fewer than four windows say nothing.
pub open spec fn sag_of(series: Seq<u64>) -> Option<Sag> {
    if series.len() <= 3 {
        None
    } else {
        let w = series.subrange(1, series.len() - 1);
        first_pair(w, w[0], 0)
    }
}

fn below_half(bps: u64, baseline: u64) -> (r: bool)
    ensures
        r == sunk(bps, baseline),
{
    baseline > 0 && bps <= (baseline - 1) / 2
}

impl SagInstrument {
    /// The sag of a series (see `sag_of`).
    pub fn read(&self, observation: &Vec<u64>, now_ms: u64) -> (r: Option<Sag>)
        ensures
            r == sag_of(observation@),
    {
        let n = observation.len();
        if n <= 3 {
            return None;
        }
        let ghost w = observation@.subrange(1, n - 1);
        let baseline = observation[1];
        let mut i: usize = 0;
        while i + 2 < n - 1
            invariant
                n == observation@.len(),
                n > 3,
                w == observation@.subrange(1, n - 1),
                baseline == w[0],
                0 <= i <= n - 3,
                first_pair(w, baseline, 0) == first_pair(w, baseline, i as int),
            decreases n - i,
        {
            let a = observation[i + 1];
            let b = observation[i + 2];
            assert(a == w[i as int] && b == w[i + 1]);
            if below_half(a, baseline) && below_half(b, baseline) {
                return Some(Sag { at_window: i + 1, before_bps: baseline, after_bps: a });
            }
            i += 1;
        }
        None
    }

    /// One letter: a series is read; the rest says nothing.
    pub fn step(self, event: DetectorEvent<Vec<u64>>) -> (r: (SagInstrument, Said<Sag>, ()))
        ensures
            sag_said(r.1) == (match event {
                DetectorEvent::Packet { input, .. } => seq_of(sag_of(input@)),
                _ => Seq::<Sag>::empty(),
            }),
    {
        match event {
            DetectorEvent::Packet { input, .. } => {
                let reading = self.read(&input, 0);
                (self, Said::of_sag(reading), ())
            },
            _ => (self, Said::of_sag(None), ()),
        }
    }
}

impl Instrument for SagInstrument {
    type Signal = Sag;

    open spec fn public_name() -> Seq<char> {
        "sag"@
    }

    fn sheet() -> (r: Sheet) {
        let protocols: &'static [Protocol] = &[Protocol::Tcp, Protocol::Udp];
        assert(protocols@ =~= seq![Protocol::Tcp, Protocol::Udp]);
        Sheet {
            instrument: "sag",
            subject: Subject::World,
            layer: Layer::Transport,
            protocols,
            type_path: "reflex_instrument::sag::SagInstrument",
            rung: None,
            cadence: Cadence::Own { step_ms: 1_000 },
            shape: Shape::Series,
            silence: Some(Silence::Blind),
            lies: &[
        "ПРИЧИНЫ НЕ ЗНАЕТ. Просадка от инфраструктурной фильтрации, от переполненного Wi-Fi и от того, что цель отдаёт \
         остаток файла с диска, дают ОДИН ряд. Прибор говорит «стало хуже вот здесь», и это всё, \
         что он устанавливает.",
        "ПЛАНКА ИЗ НАЧАЛА ЗАГРУЗКИ. Если канал был плох С САМОГО НАЧАЛА, планка запомнит плохое, \
         и просадка от неё не отсчитается никогда — ровно как у соседа по парку (`ThrottledInstrument`, \
         огибающая храповиком). Клетка `steady_slow` показывает это прямо: там прибор МОЛЧИТ, и \
         молчание верно, хотя человеку медленно.",
        "ПРОСАДКА В КОНЦЕ ЗАГРУЗКИ НЕ ВИДНА. Последнее окно отброшено намеренно, и цена названа: \
         беда, случившаяся в последнюю секунду, останется незамеченной. Обратное дало бы тревогу \
         на каждой нормальной загрузке.",
    ],
            oracles: &["sag(10mbit,2mbit,3)", "throttle(2mbit,0)"],
            death: "просадка получила причину: прибор различает наведённую просадку и узкий канал",
            events: &["sag"],
        }
    }

    fn name(signal: &Sag) -> (r: &'static str)
        ensures
            r@ == "sag"@,
    {
        "sag"
    }

    fn alarming(signal: &Sag) -> (r: bool)
        ensures
            r,
    {
        true
    }
}

} // verus!
