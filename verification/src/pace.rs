//! The pace of serving: how long the person waited for what they ASKED. Not "how many bytes" but
//! "how long waited": a flow that gave a megabyte in two minutes and one that froze for two seconds
//! are indistinguishable by volume and lived as opposites.
use vstd::prelude::*;

use crate::event::DetectorEvent;
use crate::said::{seq_of, waited_said, Said};
use crate::{Cadence, Instrument, Layer, Protocol, Rung, Shape, Sheet, Silence, Subject};

verus! {

/// How long the person waited for what they asked, in milliseconds: a named wait, not a bare
/// duration.
#[derive(Debug, Clone, Copy, PartialEq, Eq, Structural)]
pub struct Waited(pub u64);

/// The instrument of pace. It has no state.
pub struct PaceInstrument;

impl PaceInstrument {
    /// A wait is said as it is; no wait is silence, not a zero.
    pub fn read(&self, waited: &u64, now_ms: u64) -> (r: Option<Waited>)
        ensures
            r == (if *waited == 0 { None } else { Some(Waited(*waited)) }),
    {
        if *waited == 0 {
            None
        } else {
            Some(Waited(*waited))
        }
    }

    /// One letter: a wait is read; the rest says nothing and changes nothing.
    pub fn step(self, event: DetectorEvent<u64>) -> (r: (PaceInstrument, Said<Waited>, ()))
        ensures
            waited_said(r.1) == (match event {
                DetectorEvent::Packet { input, .. } => seq_of(if input == 0 { None } else { Some(Waited(input)) }),
                _ => Seq::<Waited>::empty(),
            }),
    {
        match event {
            DetectorEvent::Packet { input, .. } => {
                let reading = self.read(&input, 0);
                (self, Said::of_waited(reading), ())
            },
            _ => (self, Said::of_waited(None), ()),
        }
    }
}

impl Instrument for PaceInstrument {
    type Signal = Waited;

    open spec fn public_name() -> Seq<char> {
        "pace"@
    }

    fn sheet() -> (r: Sheet) {
        let protocols: &'static [Protocol] = &[Protocol::Tcp, Protocol::Udp];
        assert(protocols@ =~= seq![Protocol::Tcp, Protocol::Udp]);
        Sheet {
            instrument: "pace",
            subject: Subject::Person,
            layer: Layer::Transport,
            protocols,
            type_path: "reflex_instrument::pace::PaceInstrument",
            rung: None,
            cadence: Cadence::Foreign,
            shape: Shape::Quantity,
            silence: Some(Silence::Nothing),
            lies: &[
        "ПОРОГА ТЕРПЕНИЯ ЗДЕСЬ НЕТ, И ЭТО ВАЖНЕЕ, ЧЕМ КАЖЕТСЯ. Прибор говорит ВЕЛИЧИНУ ожидания и \
         не помнит ничего — состояния у него ноль. Прошлая беда, за которую заплачено: \
         `redirector.googlevideo.com` отдал 5404 байта (адреса узлов), после чего жил в HTTP/2 со \
         служебными фреймами вверх — и общий порог в шесть секунд оборвал ЖИВОГО переговорщика. \
         Вывод сделан ровно противоположный тому, что стоял здесь прежде: порог и память об \
         ответе — НЕ ДЕЛО ПРИБОРА, они у того, кто слушает. Докблок обещал память, которой в \
         машине нет; обещание снято прогоном (`tests`), а не правкой слов.",
        "ОЖИДАНИЕ МЕЖДУ СОЕДИНЕНИЯМИ ЭТОМУ ПРИБОРУ НЕВИДИМО. Он живёт внутри одного разговора, а \
         человек ждёт и в промежутках, где нашего трафика нет вовсе. Ровно поэтому рядом заведён \
         `time_to_content` в сводке эпизода: 4,2 с внутри соединений против 62 с у человека.",
    ],
            oracles: &["fatflow(1.2.3.4,16,reply,drop)", "throttle(250kbit,6%)"],
            death: "ожидание МЕЖДУ соединениями видно этому прибору, а не только сводке",
            events: &["idle"],
        }
    }

    fn name(signal: &Waited) -> (r: &'static str)
        ensures
            r@ == "idle"@,
    {
        "idle"
    }

    fn alarming(signal: &Waited) -> (r: bool)
        ensures
            r,
    {
        true
    }
}

} // verus!
