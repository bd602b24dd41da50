//! The fate of a target: the typology shared by the instrument and both engines. Two axes not to be
//! confused: `Fate` is the hidden truth, not given to observation; `Observed` is what the observer
//! established (it does not name the fate, it NARROWS the circle of possible ones, `admits`).
use vstd::prelude::*;

use crate::event::DetectorEvent;
use crate::said::{admits_said, seq_of, Said};
use crate::{Cadence, Instrument, Layer, Protocol, Rung, Shape, Sheet, Silence, Subject};

verus! {

/// The hidden truth about a target. Five fates, each with its own cure.
#[derive(Debug, Clone, Copy, PartialEq, Eq, Structural)]
pub enum Fate {
    /// The server did not answer: the handshake did not form.
    Dead,
    /// A handshake, no bytes: greeted in vain.
    Trap,
    /// Bytes flow, the resource is not there: a CDN stub, a parking page, a foreign certificate.
    Mirage,
    /// The very resource, but got by repeats: paid for with the person's time.
    Grinding,
    /// The very resource, bytes whole, nothing extra paid.
    Good,
}

/// All fates: the circle narrowed by nothing.
pub open spec fn all_fates() -> Seq<Fate> {
    seq![Fate::Dead, Fate::Trap, Fate::Mirage, Fate::Grinding, Fate::Good]
}

/// All fates: the circle narrowed by nothing.
pub fn all() -> (r: &'static [Fate])
    ensures
        r@ == all_fates(),
{
    let r: &'static [Fate] = &[Fate::Dead, Fate::Trap, Fate::Mirage, Fate::Grinding, Fate::Good];
    assert(r@ =~= all_fates());
    r
}

/// What the passive observation of one arm established: a reading, not a fate.
#[derive(Debug, Clone, Copy, PartialEq, Eq, Structural)]
pub enum Observed {
    /// TCP did not stand up: the server did not greet.
    NoConnect,
    /// Stood up and keeps silent.
    Mute,
    /// Bytes came, and that is all that was established.
    Bytes,
    /// The arm was abandoned: we stopped waiting ourselves. Nothing about the fate.
    Unobserved,
    /// Bytes without a connection: the observation contradicts itself. A fact about the INSTRUMENT.
    Inconsistent,
}

/// The circle of fates compatible with a reading.
pub open spec fn admits_of(o: Observed) -> Seq<Fate> {
    match o {
        Observed::NoConnect => seq![Fate::Dead],
        Observed::Mute => seq![Fate::Trap],
        Observed::Bytes => seq![Fate::Mirage, Fate::Grinding, Fate::Good],
        Observed::Unobserved | Observed::Inconsistent => all_fates(),
    }
}

impl Observed {
    /// The circle of fates compatible with the reading. The law `Sound`: the true fate is always
    /// inside the circle.
    pub fn admits(self) -> (r: &'static [Fate])
        ensures
            r@ == admits_of(self),
    {
        match self {
            Observed::NoConnect => {
                let r: &'static [Fate] = &[Fate::Dead];
                assert(r@ =~= admits_of(self));
                r
            },
            Observed::Mute => {
                let r: &'static [Fate] = &[Fate::Trap];
                assert(r@ =~= admits_of(self));
                r
            },
            Observed::Bytes => {
                let r: &'static [Fate] = &[Fate::Mirage, Fate::Grinding, Fate::Good];
                assert(r@ =~= admits_of(self));
                r
            },
            Observed::Unobserved | Observed::Inconsistent => all(),
        }
    }

    /// The name for a witness: a low-cardinality attribute.
    pub fn name(self) -> (r: &'static str)
        ensures
            r@ == (match self {
                Observed::NoConnect => "NoConnect"@,
                Observed::Mute => "Mute"@,
                Observed::Bytes => "Bytes"@,
                Observed::Unobserved => "Unobserved"@,
                Observed::Inconsistent => "Inconsistent"@,
            }),
    {
        match self {
            Observed::NoConnect => "NoConnect",
            Observed::Mute => "Mute",
            Observed::Bytes => "Bytes",
            Observed::Unobserved => "Unobserved",
            Observed::Inconsistent => "Inconsistent",
        }
    }

    /// Whether the person paid with a wait that brought nothing AND was forced by the server.
    pub fn wasted_the_wait(self) -> (r: bool)
        ensures
            r == (self == Observed::NoConnect || self == Observed::Mute),
    {
        match self {
            Observed::NoConnect => true,
            Observed::Mute => true,
            Observed::Bytes => false,
            Observed::Unobserved => false,
            Observed::Inconsistent => false,
        }
    }
}

/// What happened with the bytes on an arm: an axis apart from the connection.
#[derive(Debug, Clone, Copy, PartialEq, Eq, Structural)]
pub enum Delivery {
    /// The arm delivered bytes.
    Delivered,
    /// The whole window was watched and kept silent.
    Silent,
    /// Abandoned: we stopped waiting ourselves. Nothing about the path.
    Abandoned,
}

/// What the observation of an arm established, on both axes.
pub open spec fn observe_of(connected: bool, delivery: Delivery) -> Observed {
    match delivery {
        Delivery::Abandoned => Observed::Unobserved,
        Delivery::Silent => if connected { Observed::Mute } else { Observed::NoConnect },
        Delivery::Delivered => if connected { Observed::Bytes } else { Observed::Inconsistent },
    }
}

/// What the observation of an arm established. Bytes without a connection are the instrument's
/// flaw, not the target's fate.
pub fn observe(connected: bool, delivery: Delivery) -> (r: Observed)
    ensures
        r == observe_of(connected, delivery),
{
    match (connected, delivery) {
        (false, Delivery::Abandoned) => Observed::Unobserved,
        (true, Delivery::Abandoned) => Observed::Unobserved,
        (false, Delivery::Silent) => Observed::NoConnect,
        (true, Delivery::Silent) => Observed::Mute,
        (false, Delivery::Delivered) => Observed::Inconsistent,
        (true, Delivery::Delivered) => Observed::Bytes,
    }
}

/// What an arm shows under each hidden fate: a dead target never connects and keeps silent; a trap
/// connects and keeps silent; the three others connect and deliver.
pub open spec fn shown_by(f: Fate) -> (bool, Delivery) {
    match f {
        Fate::Dead => (false, Delivery::Silent),
        Fate::Trap => (true, Delivery::Silent),
        Fate::Mirage | Fate::Grinding | Fate::Good => (true, Delivery::Delivered),
    }
}

/// `Sound`: the truth always lies inside the circle. Whatever the hidden fate, the reading of the
/// arm that fate shows admits it.
pub proof fn every_fate_lies_inside_its_own_circle(f: Fate)
    ensures
        admits_of(observe_of(shown_by(f).0, shown_by(f).1)).contains(f),
{
    let circle = admits_of(observe_of(shown_by(f).0, shown_by(f).1));
    match f {
        Fate::Dead => assert(circle[0] == f),
        Fate::Trap => assert(circle[0] == f),
        Fate::Mirage => assert(circle[0] == f),
        Fate::Grinding => assert(circle[1] == f),
        Fate::Good => assert(circle[2] == f),
    }
}

/// A reading narrows the circle but never empties it; an abandoned arm, or a contradiction, narrows
/// nothing; silence after a handshake never admits death.
pub proof fn circles_are_honest(connected: bool, delivery: Delivery)
    ensures
        admits_of(observe_of(connected, delivery)).len() >= 1,
        delivery == Delivery::Abandoned ==> admits_of(observe_of(connected, delivery)) == all_fates(),
        (!connected && delivery == Delivery::Delivered) ==> admits_of(observe_of(connected, delivery)) == all_fates(),
        (connected && delivery == Delivery::Silent) ==> !admits_of(observe_of(connected, delivery)).contains(Fate::Dead),
{
    if connected && delivery == Delivery::Silent {
        assert(admits_of(observe_of(connected, delivery)) =~= seq![Fate::Trap]);
        assert(seq![Fate::Trap][0] != Fate::Dead);
    }
}

/// The circle of admitted fates, named: the slice is not a value of the instrument.
#[derive(Debug, Clone, Copy)]
pub struct Admits(pub &'static [Fate]);

/// The instrument of the passive observation of fate.
pub struct ObservedInstrument;

impl ObservedInstrument {
    /// A reading into its circle of fates.
    pub fn read(&self, observation: &Observed, now_ms: u64) -> (r: &'static [Fate])
        ensures
            r@ == admits_of(*observation),
    {
        observation.admits()
    }

    /// One letter: a reading is turned into its circle; the rest says nothing.
    pub fn step(self, event: DetectorEvent<Observed>) -> (r: (ObservedInstrument, Said<Admits>, ()))
        ensures
            match event {
                DetectorEvent::Packet { input, .. } => admits_said(r.1).len() == 1 && admits_said(r.1)[0].0@ == admits_of(input),
                _ => admits_said(r.1).len() == 0,
            },
    {
        match event {
            DetectorEvent::Packet { input, .. } => {
                let reading = self.read(&input, 0);
                (self, Said::of_admits(Some(Admits(reading))), ())
            },
            _ => (self, Said::of_admits(None), ()),
        }
    }
}

impl Instrument for ObservedInstrument {
    type Signal = Admits;

    open spec fn public_name() -> Seq<char> {
        "observed"@
    }

    fn sheet() -> (r: Sheet) {
        let protocols: &'static [Protocol] = &[Protocol::Tcp, Protocol::Udp];
        assert(protocols@ =~= seq![Protocol::Tcp, Protocol::Udp]);
        Sheet {
            instrument: "observed",
            subject: Subject::World,
            layer: Layer::Transport,
            protocols,
            type_path: "reflex_instrument::fate::ObservedInstrument",
            rung: Some(Rung::Answered),
            cadence: Cadence::Foreign,
            shape: Shape::Verdict,
            silence: Some(Silence::Blind),
            lies: &[
        "КРУГ НЕ РАЗВОРАЧИВАЕТ НИКТО. `admits()` вызывается ТОЛЬКО внутри `#[cfg(test)]` — в \
         `zond/src/fate.rs` граница на строке 151, все семь вызовов ниже; то же в неводе 1. Закон \
         `PassiveFate::Sound` исполняется собственным тестом и больше ничем. Различение здесь \
         максимальное, подключённость нулевая — два разных множителя, и лечатся они по-разному: \
         первое доводкой алфавита, второе ПОТРЕБИТЕЛЕМ ЗАКОНА.",
        "`Observed` ЖИВОЙ, А КРУГ МЁРТВЫЙ. Сам вариант читают `domain::flow` и `domain::session`, \
         пользуясь `Mute`, `NoConnect`, `Unobserved`, `Bytes`. То есть продукт ХРАНИТ показание и \
         никогда не спрашивает, что оно допускает.",
        "РЕЗКОСТЬ ТЕРЯЕТСЯ НА ПЕЧАТИ. Различие `NoConnect` против `Mute` в типе ЕСТЬ, а вывод \
         `zond-probe` сводит оба в «пробито 0/5»: разрешение выхода ниже разрешения алфавита, и \
         расходятся они молча. Замерено поверочным стендом — резкость 0,75 против 1,00 у чужого \
         прибора на тех же клетках.",
    ],
            oracles: &[
        "syn_drop(1.2.3.4)",
        "sni_drop(rutracker.org)",
        "mirage(1.2.3.4)",
        "fatflow(1.2.3.4,16,reply,drop)",
    ],
            death: "`admits()` вызывается в живом входе, а не только в тестах",
            events: &["fates_admitted"],
        }
    }

    fn name(signal: &Admits) -> (r: &'static str)
        ensures
            r@ == "fates_admitted"@,
    {
        "fates_admitted"
    }

    fn alarming(signal: &Admits) -> (r: bool)
        ensures
            !r,
    {
        false
    }
}

} // verus!
