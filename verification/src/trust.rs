//! Trust in the target: tells a substituted identity from a slow channel. A substitution and a slow
//! path give one picture on the transport ("asked, answered, left"), but the client's TLS `Alert`
//! about the certificate is a statement of the side, and no evidence is stronger.
use vstd::prelude::*;

use crate::event::DetectorEvent;
use crate::said::{seq_of, trust_said, Said};
use crate::text::{decimal, push_decimal};
use crate::tls::{TlsContentType, TlsFragment, TlsRecord};
use crate::{Cadence, Instrument, Layer, Protocol, Rung, Shape, Sheet, Silence, Subject};

verus! {

/// How the handshake ended.
#[derive(Debug, Clone, Copy, PartialEq, Eq, Structural)]
pub enum Trust {
    /// The client rejected the certificate: so look a substitution and an honest misconfiguration.
    RefusedCertificate { alert: u8 },
    /// The client broke off for another reason: parameters did not match, the wrong version.
    RefusedOther { alert: u8 },
    /// The handshake reached application data: trust took place.
    Established,
}

/// The instrument of trust.
#[derive(Debug, Clone, Copy, Default)]
pub struct TrustInstrument {
    /// Already spoke: trust is settled once.
    settled: bool,
}

/// The alert codes about the certificate: bad, unsupported, revoked, expired, unknown, unknown CA,
/// and a decryption error (the server's signature did not verify). The list is closed.
pub open spec fn certificate_alerts() -> Seq<u8> {
    seq![42u8, 43, 44, 45, 46, 48, 51]
}

/// The verdict of an alert: about the certificate, or about something else.
pub open spec fn refusal(description: u8) -> Trust {
    if certificate_alerts().contains(description) {
        Trust::RefusedCertificate { alert: description }
    } else {
        Trust::RefusedOther { alert: description }
    }
}

/// What a record settles, if anything: application data establishes trust (an alert after it is
/// about the end of the conversation), an alert refuses it, the rest settles nothing.
pub open spec fn settles(record: TlsRecord) -> Option<Trust> {
    if record.content_type == TlsContentType::ApplicationData {
        Some(Trust::Established)
    } else {
        match record.fragment {
            TlsFragment::Alert { description, .. } => Some(refusal(description)),
            _ => None,
        }
    }
}

fn certificate_alert(description: u8) -> (r: bool)
    ensures
        r == certificate_alerts().contains(description),
{
    let alerts: [u8; 7] = [42, 43, 44, 45, 46, 48, 51];
    assert(alerts@ =~= certificate_alerts());
    let mut i: usize = 0;
    while i < 7
        invariant
            i <= 7,
            alerts@ == certificate_alerts(),
            forall|j: int| 0 <= j < i ==> alerts@[j] != description,
        decreases 7 - i,
    {
        if alerts[i] == description {
            assert(certificate_alerts()[i as int] == description);
            return true;
        }
        i += 1;
    }
    false
}

/// An alert about the certificate (bad 42, unsupported 43, revoked 44, expired 45, unknown 46,
/// unknown CA 48, decryption error 51) that settles trust refuses the certificate with that very
/// alert; every other alert is another refusal, with its alert.
pub proof fn certificate_alerts_refuse_the_certificate(record: TlsRecord, level: u8, description: u8)
    requires
        record.content_type != TlsContentType::ApplicationData,
        record.fragment == (TlsFragment::Alert { level, description }),
    ensures
        description == 42 || description == 43 || description == 44 || description == 45
            || description == 46 || description == 48 || description == 51
            ==> settles(record) == Some(Trust::RefusedCertificate { alert: description }),
        !(description == 42 || description == 43 || description == 44 || description == 45
            || description == 46 || description == 48 || description == 51)
            ==> settles(record) == Some(Trust::RefusedOther { alert: description }),
{
    let c = certificate_alerts();
    if description == 42 { assert(c[0] == description); }
    if description == 43 { assert(c[1] == description); }
    if description == 44 { assert(c[2] == description); }
    if description == 45 { assert(c[3] == description); }
    if description == 46 { assert(c[4] == description); }
    if description == 48 { assert(c[5] == description); }
    if description == 51 { assert(c[6] == description); }
}

impl TrustInstrument {
    pub closed spec fn settled(&self) -> bool {
        self.settled
    }

    pub fn new() -> (r: TrustInstrument)
        ensures
            !r.settled(),
    {
        TrustInstrument { settled: false }
    }

    /// What the next record gives. Once settled, nothing more.
    fn saw(self, record: TlsRecord) -> (r: (TrustInstrument, Option<Trust>))
        ensures
            r.1 == (if self.settled() { None } else { settles(record) }),
            r.0.settled() == (self.settled() || settles(record) is Some),
    {
        if self.settled {
            return (self, None);
        }
        match record.content_type {
            TlsContentType::ApplicationData => return (TrustInstrument { settled: true }, Some(Trust::Established)),
            _ => {},
        }
        match record.fragment {
            TlsFragment::Alert { description, .. } => {
                let verdict = if certificate_alert(description) {
                    Trust::RefusedCertificate { alert: description }
                } else {
                    Trust::RefusedOther { alert: description }
                };
                (TrustInstrument { settled: true }, Some(verdict))
            },
            _ => (self, None),
        }
    }

    /// One record. The instrument asserts only on the PRESENCE of a record, so a hiding letter can
    /// take an assertion away but never make one up.
    pub fn step(self, event: DetectorEvent<TlsRecord>) -> (r: (TrustInstrument, Said<Trust>, ()))
        ensures
            // Settled once: after it has spoken, it stays silent.
            self.settled() ==> r.0.settled() && trust_said(r.1).len() == 0,
            match event {
                DetectorEvent::Packet { input, .. } => {
                    &&& r.0.settled() == (self.settled() || settles(input) is Some)
                    &&& trust_said(r.1) == seq_of(if self.settled() { None } else { settles(input) })
                },
                _ => r.0 == self && trust_said(r.1).len() == 0,
            },
    {
        let (state, said) = match event {
            DetectorEvent::Packet { input, .. } => self.saw(input),
            _ => (self, None),
        };
        (state, Said::of_trust(said), ())
    }
}

/// The quantity of a verdict for a person.
pub open spec fn trust_detail(t: Trust) -> Seq<char> {
    match t {
        Trust::Established => Seq::empty(),
        Trust::RefusedCertificate { alert } => "клиент отверг сертификат (тревога "@ + decimal(alert as nat) + ")"@,
        Trust::RefusedOther { alert } => "рукопожатие оборвано (тревога "@ + decimal(alert as nat) + ")"@,
    }
}

impl Instrument for TrustInstrument {
    type Signal = Trust;

    open spec fn public_name() -> Seq<char> {
        "trust"@
    }

    fn sheet() -> (r: Sheet) {
        let protocols: &'static [Protocol] = &[Protocol::Tls];
        assert(protocols@ =~= seq![Protocol::Tls]);
        Sheet {
            instrument: "trust",
            subject: Subject::World,
            layer: Layer::Session,
            protocols,
            type_path: "reflex_instrument::trust::TrustInstrument",
            rung: Some(Rung::Authentic),
            cadence: Cadence::Foreign,
            shape: Shape::Verdict,
            silence: Some(Silence::Nothing),
            lies: &[
        "ПОДМЕНА И ЧЕСТНАЯ ОШИБКА ЦЕЛИ НЕРАЗЛИЧИМЫ. Просроченный сертификат у самой цели даёт тот \
         же `certificate_expired`, что и подставной. Прибор говорит «клиент не поверил», и это \
         всё, что он устанавливает; кто виноват — вопрос расследования.",
        "TLS 1.3 ШИФРУЕТ ЧАСТЬ РУКОПОЖАТИЯ. Тревоги ПОСЛЕ `ChangeCipherSpec` едут внутри \
         `ApplicationData` и снаружи неотличимы от данных. Прибор видит только те, что пришли \
         открытым текстом, — на замеренной записи это так, но гарантией не является.",
        "ОТСУТСТВИЕ ТРЕВОГИ НЕ ЕСТЬ ДОВЕРИЕ. Клиент, оборвавший соединение молча (`RST` без \
         `Alert`), даёт `None`, а не `Established`; отличить «поверил» от «ушёл, не сказав» может \
         только наличие прикладных данных, и потому `Established` требует именно их.",
    ],
            oracles: &["mirage(104.21.32.39)", "pass"],
            death: "тревоги TLS 1.3 читаются; молчание прибора значит отсутствие беды",
            events: &[
        "trust_established",
        "trust_refused_certificate",
        "trust_refused_other",
    ],
        }

    }

    fn name(signal: &Trust) -> (r: &'static str)
        ensures
            r@ == (match *signal {
                Trust::Established => "trust_established"@,
                Trust::RefusedCertificate { .. } => "trust_refused_certificate"@,
                Trust::RefusedOther { .. } => "trust_refused_other"@,
            }),
    {
        match signal {
            Trust::Established => "trust_established",
            Trust::RefusedCertificate { .. } => "trust_refused_certificate",
            Trust::RefusedOther { .. } => "trust_refused_other",
        }
    }

    fn alarming(signal: &Trust) -> (r: bool)
        ensures
            r == !(*signal is Established),
    {
        match signal {
            Trust::Established => false,
            Trust::RefusedCertificate { .. } | Trust::RefusedOther { .. } => true,
        }
    }

    fn detail(signal: &Trust) -> (r: String)
        ensures
            r@ == trust_detail(*signal),
    {
        proof {
            reveal_strlit("клиент отверг сертификат (тревога ");
            reveal_strlit("рукопожатие оборвано (тревога ");
            reveal_strlit(")");
        }
        let mut s = String::new();
        match *signal {
            Trust::Established => {},
            Trust::RefusedCertificate { alert } => {
                s.append("клиент отверг сертификат (тревога ");
                push_decimal(&mut s, alert as u64);
                s.append(")");
            },
            Trust::RefusedOther { alert } => {
                s.append("рукопожатие оборвано (тревога ");
                push_decimal(&mut s, alert as u64);
                s.append(")");
            },
        }
        assert(s@ =~= trust_detail(*signal));
        s
    }
}

} // verus!
