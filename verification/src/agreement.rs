//! The agreement of the kernel: did what we ordered apply. An instrument about us, answered by the
//! KERNEL (a rule's counter), not by the journal (the journal says what we ordered).
use vstd::prelude::*;

use crate::event::DetectorEvent;
use crate::said::{agreement_said, seq_of, Said};
use crate::{Cadence, Instrument, Layer, Protocol, Rung, Shape, Sheet, Silence, Subject};

verus! {

/// Whether two points of observation of one path agree. The sign of the difference is a diagnosis.
#[derive(Debug, Clone, Copy, PartialEq, Eq, Structural)]
pub enum Agreement {
    /// As many marked as the kernel steered.
    Agreed { both: u64 },
    /// Marked, not steered: the order was applied by us and lost by the kernel.
    MarkedNotSteered { ours: u64, kernel: u64 },
    /// Steered more than marked: foreign traffic goes through the chain.
    SteeredNotMarked { ours: u64, kernel: u64 },
    /// No witness: nothing to compare with.
    NoWitness { ours: u64 },
}

/// What our count and the kernel's say together.
pub open spec fn agreement_of(ours: u64, kernel: Option<u64>) -> Agreement {
    match kernel {
        None => Agreement::NoWitness { ours },
        Some(k) => if ours == k {
            Agreement::Agreed { both: ours }
        } else if ours > k {
            Agreement::MarkedNotSteered { ours, kernel: k }
        } else {
            Agreement::SteeredNotMarked { ours, kernel: k }
        },
    }
}

/// The instrument of agreement. It has no state.
pub struct AgreementInstrument;

impl AgreementInstrument {
    /// What our count and the kernel's say together.
    pub fn read(&self, observation: &(u64, Option<u64>), now_ms: u64) -> (r: Agreement)
        ensures
            r == agreement_of(observation.0, observation.1),
    {
        let (ours, kernel) = *observation;
        match kernel {
            None => Agreement::NoWitness { ours },
            Some(kernel) => {
                if ours == kernel {
                    Agreement::Agreed { both: ours }
                } else if ours > kernel {
                    Agreement::MarkedNotSteered { ours, kernel }
                } else {
                    Agreement::SteeredNotMarked { ours, kernel }
                }
            },
        }
    }

    /// One letter: an observation is read and its reading goes to the log (there is nothing to say
    /// to a neighbour); the rest says nothing.
    pub fn step(self, event: DetectorEvent<(u64, Option<u64>)>) -> (r: (AgreementInstrument, (), Said<Agreement>))
        ensures
            agreement_said(r.2) == (match event {
                DetectorEvent::Packet { input, .. } => seq![agreement_of(input.0, input.1)],
                _ => Seq::<Agreement>::empty(),
            }),
    {
        match event {
            DetectorEvent::Packet { input, .. } => {
                let reading = self.read(&input, 0);
                (self, (), Said::of_agreement(Some(reading)))
            },
            _ => (self, (), Said::of_agreement(None)),
        }
    }
}

impl Instrument for AgreementInstrument {
    type Signal = Agreement;

    open spec fn public_name() -> Seq<char> {
        "agreement"@
    }

    fn sheet() -> (r: Sheet) {
        let protocols: &'static [Protocol] = &[];
        assert(protocols@ =~= Seq::<Protocol>::empty());
        Sheet {
            instrument: "agreement",
            subject: Subject::Ourselves,
            layer: Layer::Network,
            protocols,
            type_path: "reflex_instrument::agreement::AgreementInstrument",
            rung: None,
            cadence: Cadence::Own { step_ms: 2_000 },
            shape: Shape::State,
            silence: Some(Silence::Blind),
            lies: &[
        "ПОСТРОЕН И НЕ ПОДКЛЮЧЁН. Единственный читатель — пример потребителя, \
         то есть ПРИМЕР, а не живой вход. Прибор, свидетельствующий применение приказов, сам не \
         применён.",
        "ЦЕНА ОПРОСА ЗАМЕРЕНА И ВЫСОКА: `/proc` ×4,6 к стоимости вердикта, `nft` ×760. Поэтому \
         решётка — свои часы с шагом 2 с, а не пакет; на горячий путь этот прибор ставить нельзя.",
        "СЧЁТЧИК ЯДРА МОНОТОНЕН И ПЕРЕЖИВАЕТ НАС. После перезапуска процесса `ours` начинается с \
         нуля, а `kernel` продолжает расти — и `SteeredNotMarked` наступит на ровном месте. \
         Сверять нужно ПРИРАЩЕНИЯ, а не значения; сегодня это на совести потребителя.",
    ],
            oracles: &["pass", "sni_drop(rutracker.org)"],
            death: "живой вход читает свидетельство и сверяет приращения, а не значения",
            events: &[
        "agreed",
        "marked_not_steered",
        "steered_not_marked",
        "no_witness",
    ],
        }
    }

    fn name(signal: &Agreement) -> (r: &'static str)
        ensures
            r@ == (match *signal {
                Agreement::Agreed { .. } => "agreed"@,
                Agreement::MarkedNotSteered { .. } => "marked_not_steered"@,
                Agreement::SteeredNotMarked { .. } => "steered_not_marked"@,
                Agreement::NoWitness { .. } => "no_witness"@,
            }),
    {
        match signal {
            Agreement::Agreed { .. } => "agreed",
            Agreement::MarkedNotSteered { .. } => "marked_not_steered",
            Agreement::SteeredNotMarked { .. } => "steered_not_marked",
            Agreement::NoWitness { .. } => "no_witness",
        }
    }

    fn alarming(signal: &Agreement) -> (r: bool)
        ensures
            r == !(*signal is Agreed),
    {
        match signal {
            Agreement::Agreed { .. } => false,
            _ => true,
        }
    }
}

} // verus!
