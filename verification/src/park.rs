//! The registry of the fleet: a passport taken off a type into a VALUE (types cannot be enumerated,
//! values can). Only the snapshot and its type live here.
use vstd::prelude::*;

use crate::agreement::AgreementInstrument;
use crate::detect::{ChokedInstrument, RstInstrument, SilenceInstrument, SynDropInstrument, ThrottledInstrument};
use crate::drift::HistoryInstrument;
use crate::fate::ObservedInstrument;
use crate::pace::PaceInstrument;
use crate::poison::DnsPoisonInstrument;
use crate::resolve::ResolutionInstrument;
use crate::retransmit::RetransmitInstrument;
use crate::sag::SagInstrument;
use crate::trust::TrustInstrument;
use crate::{holds, Cadence, Instrument, Layer, Protocol, Rung};

verus! {

/// A passport taken off a type: exactly the axes the fleet is asked about.
#[derive(Debug, Clone, Copy)]
pub struct Passport {
    /// The public name of the instrument: its readings are signed with it.
    pub instrument: &'static str,
    /// The level at which the evidence lies.
    pub layer: Layer,
    /// The protocols on which the evidence exists; empty — no evidence on the wire.
    pub protocols: &'static [Protocol],
    /// The question the instrument answers; `None` — not a rung detector.
    pub rung: Option<Rung>,
    /// The path of the instrument's type; readers are looked for by the part before `<`.
    pub type_path: &'static str,
    /// What makes the instrument speak.
    pub cadence: Cadence,
}

/// Take the passport off a type. Every passport taken agrees with the table of evidence: the sheet
/// of each instrument proves it.
pub fn of<I: Instrument>() -> (r: Passport)
    ensures
        r.instrument@ == I::public_name(),
        holds(r.rung, r.protocols@, r.layer),
{
    let sheet = I::sheet();
    Passport {
        instrument: sheet.instrument,
        layer: sheet.layer,
        protocols: sheet.protocols,
        rung: sheet.rung,
        type_path: sheet.type_path,
        cadence: sheet.cadence,
    }
}

/// The public names of the instruments `here` lists, in its order.
pub open spec fn names_here() -> Seq<Seq<char>> {
    seq![
        "rst"@, "silence"@, "throttled"@, "choked"@, "syn_drop"@, "dns_poison"@, "retransmit"@,
        "agreement"@, "history"@, "observed"@, "pace"@, "resolve"@, "sag"@, "trust"@,
    ]
}

/// The instruments of this crate whose passport is read here. No two share a name: two instruments
/// under one name are indistinguishable in the feed. Every passport agrees with the table of
/// evidence.
pub fn here() -> (r: Vec<Passport>)
    ensures
        r@.len() == names_here().len(),
        forall|i: int| 0 <= i < r@.len() ==> (#[trigger] r@[i]).instrument@ == names_here()[i],
        forall|i: int| 0 <= i < r@.len() ==> holds((#[trigger] r@[i]).rung, r@[i].protocols@, r@[i].layer),
        forall|i: int, j: int| 0 <= i < j < r@.len() ==> (#[trigger] r@[i]).instrument@ != (#[trigger] r@[j]).instrument@,
{
    let mut r: Vec<Passport> = Vec::new();
    r.push(of::<RstInstrument>());
    r.push(of::<SilenceInstrument>());
    r.push(of::<ThrottledInstrument>());
    r.push(of::<ChokedInstrument>());
    r.push(of::<SynDropInstrument>());
    r.push(of::<DnsPoisonInstrument>());
    r.push(of::<RetransmitInstrument>());
    r.push(of::<AgreementInstrument>());
    r.push(of::<HistoryInstrument>());
    r.push(of::<ObservedInstrument>());
    r.push(of::<PaceInstrument>());
    r.push(of::<ResolutionInstrument>());
    r.push(of::<SagInstrument>());
    r.push(of::<TrustInstrument>());
    proof {
        reveal_strlit("rst");
        reveal_strlit("silence");
        reveal_strlit("throttled");
        reveal_strlit("choked");
        reveal_strlit("syn_drop");
        reveal_strlit("dns_poison");
        reveal_strlit("retransmit");
        reveal_strlit("agreement");
        reveal_strlit("history");
        reveal_strlit("observed");
        reveal_strlit("pace");
        reveal_strlit("resolve");
        reveal_strlit("sag");
        reveal_strlit("trust");
        assert forall|i: int| 0 <= i < r@.len() implies (#[trigger] r@[i]).instrument@ == names_here()[i] by {}
        assert forall|i: int, j: int| 0 <= i < j < r@.len() implies (#[trigger] r@[i]).instrument@ != (#[trigger] r@[j]).instrument@ by {
            assert(names_here()[i] != names_here()[j]) by {
                lemma_names_differ(i, j);
            }
        }
    }
    r
}

proof fn lemma_names_differ(i: int, j: int)
    requires
        0 <= i < j < names_here().len(),
    ensures
        names_here()[i] != names_here()[j],
{
    reveal_strlit("rst");
    reveal_strlit("silence");
    reveal_strlit("throttled");
    reveal_strlit("choked");
    reveal_strlit("syn_drop");
    reveal_strlit("dns_poison");
    reveal_strlit("retransmit");
    reveal_strlit("agreement");
    reveal_strlit("history");
    reveal_strlit("observed");
    reveal_strlit("pace");
    reveal_strlit("resolve");
    reveal_strlit("sag");
    reveal_strlit("trust");
    let a = names_here()[i];
    let b = names_here()[j];
    assert(a.len() != b.len() || a[0] != b[0] || a[1] != b[1] || a[2] != b[2]);
}

/// The instruments parameterised by a domain type: their passport constants do not depend on the
/// parameter, but reading them needs a concrete type, which lives elsewhere.
pub fn parameterised() -> (r: [&'static str; 3])
    ensures
        r@.len() == 3,
        r@[0]@ == "departure"@ && r@[1]@ == "episode"@ && r@[2]@ == "leg"@,
{
    ["departure", "episode", "leg"]
}

} // verus!
