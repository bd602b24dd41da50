//! The resolution was led away: the instrument of DNS substitution. It reads the whole answer to a
//! question about an address and says what the name resolved to: honest addresses, a hijack to
//! private ones (with the honest ones kept beside it), or an erased name, and how it was erased.
use vstd::prelude::*;

use crate::dns::{DnsAnswer, DnsDirection, DnsMessage};
use crate::event::DetectorEvent;
use crate::said::{resolved_said, seq_of, Said};
use crate::text::{decimal, push_decimal};
use crate::{Cadence, Instrument, Layer, Protocol, Rung, Shape, Sheet, Silence, Subject};

verus! {

/// The record type `A`: an IPv4 address.
pub const A_RECORD: u16 = 1;

/// The code "the name does not exist".
pub const NXDOMAIN: u8 = 3;

/// HOW a name stopped resolving: two roads to one outcome, with different strength of evidence.
#[derive(Debug, Clone, Copy, PartialEq, Eq, Structural)]
pub enum Erasure {
    /// An answer came, with no `A` record in it.
    NoAddress,
    /// "The name does not exist", said in the name of the zone's owner the answering one is not.
    Denied,
}

/// Where the resolution was led, and whether it was.
#[derive(Debug, Clone, PartialEq, Eq)]
pub enum Resolved {
    /// The name resolved, and the addresses look real: ALL addresses of the answer.
    Honest { name: String, addrs: Vec<[u8; 4]> },
    /// A public name resolved to a PRIVATE address: `to` is where it was led, `alongside` what
    /// looks real in the same answer.
    Hijacked { name: String, to: Vec<[u8; 4]>, alongside: Vec<[u8; 4]> },
    /// The name did not resolve: the client is left without a target.
    Erased { name: String, how: Erasure },
}

/// What a reading says, by value: the name as characters, the addresses as their bytes.
pub enum ResolvedView {
    Honest { name: Seq<char>, addrs: Seq<Seq<u8>> },
    Hijacked { name: Seq<char>, to: Seq<Seq<u8>>, alongside: Seq<Seq<u8>> },
    Erased { name: Seq<char>, how: Erasure },
}

/// The bytes of each address.
pub open spec fn bytes_of(addrs: Seq<[u8; 4]>) -> Seq<Seq<u8>> {
    addrs.map_values(|a: [u8; 4]| a@)
}

impl View for Resolved {
    type V = ResolvedView;

    open spec fn view(&self) -> ResolvedView {
        match self {
            Resolved::Honest { name, addrs } => ResolvedView::Honest { name: name@, addrs: bytes_of(addrs@) },
            Resolved::Hijacked { name, to, alongside } => ResolvedView::Hijacked {
                name: name@,
                to: bytes_of(to@),
                alongside: bytes_of(alongside@),
            },
            Resolved::Erased { name, how } => ResolvedView::Erased { name: name@, how: *how },
        }
    }
}

/// A private range: could a public site live at this address? 10/8, 172.16/12, 192.168/16,
/// loopback and the zero network.
pub open spec fn private_target(a: Seq<u8>) -> bool {
    ||| a[0] == 10
    ||| a[0] == 172 && 16 <= a[1] < 32
    ||| a[0] == 192 && a[1] == 168
    ||| a[0] == 127
    ||| a[0] == 0
}

/// Whether `s` ends with `suffix`.
pub open spec fn ends_with(s: Seq<char>, suffix: Seq<char>) -> bool {
    s.len() >= suffix.len() && s.subrange(s.len() - suffix.len(), s.len() as int) == suffix
}

/// A name that lawfully lives inside: `.local`, `.lan`, `.internal`, or a name without a dot.
pub open spec fn internal_name_of(name: Seq<char>) -> bool {
    ||| ends_with(name, ".local"@)
    ||| ends_with(name, ".lan"@)
    ||| ends_with(name, ".internal"@)
    ||| !name.contains('.')
}

/// Whether an answer is an `A` record holding four bytes.
pub open spec fn is_a(a: DnsAnswer) -> bool {
    a.rtype == A_RECORD && a.rdata@.len() == 4
}

/// The addresses of the `A` records of an answer, in the order of the answer.
pub open spec fn a_records(answers: Seq<DnsAnswer>) -> Seq<Seq<u8>>
    decreases answers.len(),
{
    if answers.len() == 0 {
        Seq::empty()
    } else {
        a_records(answers.drop_last()) + if is_a(answers.last()) {
            seq![answers.last().rdata@]
        } else {
            Seq::empty()
        }
    }
}

/// The addresses that are private (`want`) or not (`!want`), in order.
pub open spec fn kept(addrs: Seq<Seq<u8>>, want: bool) -> Seq<Seq<u8>>
    decreases addrs.len(),
{
    if addrs.len() == 0 {
        Seq::empty()
    } else {
        kept(addrs.drop_last(), want) + if private_target(addrs.last()) == want {
            seq![addrs.last()]
        } else {
            Seq::empty()
        }
    }
}

/// What a message says about the name it asks: nothing for a query, for a question that is not
/// about an address, or for an honest "no such name"; an erasure for a denial with an authority
/// the answering one claims, or for an answer without address; otherwise the addresses, split by
/// whether a public site could live there (an internal name is judged honest whole).
pub open spec fn read_of(m: DnsMessage) -> Option<ResolvedView> {
    if m.direction == DnsDirection::Query || m.queries@.len() == 0 || m.queries@[0].qtype != A_RECORD {
        None
    } else {
        let name = m.queries@[0].name@;
        let internal = internal_name_of(name);
        if m.rcode == NXDOMAIN {
            if m.authoritative && !internal {
                Some(ResolvedView::Erased { name, how: Erasure::Denied })
            } else {
                None
            }
        } else {
            let addrs = a_records(m.answers@);
            if addrs.len() == 0 {
                Some(ResolvedView::Erased { name, how: Erasure::NoAddress })
            } else if internal {
                Some(ResolvedView::Honest { name, addrs })
            } else if kept(addrs, true).len() == 0 {
                Some(ResolvedView::Honest { name, addrs: kept(addrs, false) })
            } else {
                Some(ResolvedView::Hijacked { name, to: kept(addrs, true), alongside: kept(addrs, false) })
            }
        }
    }
}

/// Whether four address bytes lie in a block no public site lives in: 10/8, 172.16/12,
/// 192.168/16, loopback 127/8, "this network" 0/8.
pub open spec fn reserved_block(a: Seq<u8>) -> bool {
    a[0] == 10 || (a[0] == 172 && 16 <= a[1] < 32) || (a[0] == 192 && a[1] == 168) || a[0] == 127 || a[0] == 0
}

proof fn lemma_a_records_hold(answers: Seq<DnsAnswer>, k: int)
    requires
        0 <= k < answers.len(),
        is_a(answers[k]),
    ensures
        a_records(answers).contains(answers[k].rdata@),
    decreases answers.len(),
{
    if k < answers.len() - 1 {
        lemma_a_records_hold(answers.drop_last(), k);
        let x = answers[k].rdata@;
        let w = choose|w: int| 0 <= w < a_records(answers.drop_last()).len() && a_records(answers.drop_last())[w] == x;
        assert(a_records(answers)[w] == x);
    } else {
        let a = a_records(answers);
        assert(a[a.len() - 1] == answers[k].rdata@);
    }
}

proof fn lemma_kept_from(addrs: Seq<Seq<u8>>, want: bool)
    ensures
        forall|x: Seq<u8>| #[trigger] kept(addrs, want).contains(x) ==> addrs.contains(x) && private_target(x) == want,
    decreases addrs.len(),
{
    if addrs.len() > 0 {
        let init = addrs.drop_last();
        lemma_kept_from(init, want);
        let tail: Seq<Seq<u8>> = if private_target(addrs.last()) == want { seq![addrs.last()] } else { Seq::empty() };
        assert(kept(addrs, want) == kept(init, want) + tail);
        assert forall|x: Seq<u8>| #[trigger] kept(addrs, want).contains(x) implies addrs.contains(x) && private_target(x) == want by {
            let w = choose|w: int| 0 <= w < kept(addrs, want).len() && kept(addrs, want)[w] == x;
            if w < kept(init, want).len() {
                assert(kept(init, want)[w] == x);
                assert(kept(init, want).contains(x));
                let v = choose|v: int| 0 <= v < init.len() && init[v] == x;
                assert(addrs[v] == x);
            } else {
                assert(addrs[addrs.len() - 1] == x);
            }
        }
    } else {
        assert(kept(addrs, want) =~= Seq::<Seq<u8>>::empty());
    }
}

proof fn lemma_kept_has(addrs: Seq<Seq<u8>>, want: bool)
    ensures
        forall|k: int| 0 <= k < addrs.len() && private_target(addrs[k]) == want
            ==> kept(addrs, want).contains(#[trigger] addrs[k]),
    decreases addrs.len(),
{
    if addrs.len() > 0 {
        let init = addrs.drop_last();
        lemma_kept_has(init, want);
        let tail: Seq<Seq<u8>> = if private_target(addrs.last()) == want { seq![addrs.last()] } else { Seq::empty() };
        assert(kept(addrs, want) == kept(init, want) + tail);
        assert forall|k: int| 0 <= k < addrs.len() && private_target(addrs[k]) == want
            implies kept(addrs, want).contains(#[trigger] addrs[k]) by {
            if k < addrs.len() - 1 {
                assert(init[k] == addrs[k]);
                let w = choose|w: int| 0 <= w < kept(init, want).len() && kept(init, want)[w] == addrs[k];
                assert(kept(addrs, want)[w] == addrs[k]);
            } else {
                assert(kept(addrs, want)[kept(addrs, want).len() - 1] == addrs[k]);
            }
        }
    }
}

/// A public name whose answer holds an `A` record in a reserved block reads as a hijack: that
/// address is among those it was led to, and everything it was led to lies in a reserved block.
pub proof fn a_reserved_address_of_a_public_name_is_a_hijack(m: DnsMessage, k: int)
    requires
        m.direction == DnsDirection::Response,
        m.queries@.len() > 0,
        m.queries@[0].qtype == A_RECORD,
        m.rcode != NXDOMAIN,
        !internal_name_of(m.queries@[0].name@),
        0 <= k < m.answers@.len(),
        m.answers@[k].rtype == A_RECORD,
        m.answers@[k].rdata@.len() == 4,
        reserved_block(m.answers@[k].rdata@),
    ensures
        read_of(m) matches Some(ResolvedView::Hijacked { to, .. }) && to.contains(m.answers@[k].rdata@)
            && forall|x: Seq<u8>| to.contains(x) ==> reserved_block(x),
{
    let addrs = a_records(m.answers@);
    lemma_a_records_hold(m.answers@, k);
    let x = m.answers@[k].rdata@;
    let w = choose|w: int| 0 <= w < addrs.len() && addrs[w] == x;
    lemma_kept_from(addrs, true);
    lemma_kept_has(addrs, true);
    assert(kept(addrs, true).contains(addrs[w]));
    let kx = choose|v: int| 0 <= v < kept(addrs, true).len() && kept(addrs, true)[v] == x;
    assert(kept(addrs, true).len() > 0);
    assert(addrs.len() > 0);
    let to = kept(addrs, true);
    assert forall|y: Seq<u8>| to.contains(y) implies reserved_block(y) by {
        assert(private_target(y));
    }
    assert(read_of(m) == Some(ResolvedView::Hijacked { name: m.queries@[0].name@, to, alongside: kept(addrs, false) }));
}

fn private(addr: [u8; 4]) -> (r: bool)
    ensures
        r == private_target(addr@),
{
    let first = addr[0];
    let second = addr[1];
    first == 10 || (first == 172 && 16 <= second && second < 32) || (first == 192 && second == 168)
        || first == 127 || first == 0
}

fn ends_with_str(s: &str, suffix: &str) -> (r: bool)
    ensures
        r == ends_with(s@, suffix@),
{
    let n = s.unicode_len();
    let k = suffix.unicode_len();
    if n < k {
        return false;
    }
    let mut i: usize = 0;
    while i < k
        invariant
            n == s@.len(),
            k == suffix@.len(),
            k <= n,
            i <= k,
            forall|j: int| 0 <= j < i ==> s@[n - k + j] == suffix@[j],
        decreases k - i,
    {
        if s.get_char(n - k + i) != suffix.get_char(i) {
            assert(s@.subrange(n - k, n as int)[i as int] != suffix@[i as int]);
            return false;
        }
        i += 1;
    }
    assert(s@.subrange(n - k, n as int) =~= suffix@);
    true
}

fn has_dot(s: &str) -> (r: bool)
    ensures
        r == s@.contains('.'),
{
    let n = s.unicode_len();
    let mut i: usize = 0;
    while i < n
        invariant
            n == s@.len(),
            i <= n,
            forall|j: int| 0 <= j < i ==> s@[j] != '.',
        decreases n - i,
    {
        if s.get_char(i) == '.' {
            return true;
        }
        i += 1;
    }
    false
}

/// Whether a name lawfully lives inside. The list is incomplete: split-horizon DNS makes any name
/// internal.
pub fn internal_name(name: &str) -> (r: bool)
    ensures
        r == internal_name_of(name@),
{
    proof {
        reveal_strlit(".local");
        reveal_strlit(".lan");
        reveal_strlit(".internal");
    }
    ends_with_str(name, ".local") || ends_with_str(name, ".lan") || ends_with_str(name, ".internal")
        || !has_dot(name)
}

fn addresses(answers: &Vec<DnsAnswer>) -> (r: Vec<[u8; 4]>)
    ensures
        bytes_of(r@) == a_records(answers@),
{
    let mut out: Vec<[u8; 4]> = Vec::new();
    let mut i: usize = 0;
    while i < answers.len()
        invariant
            i <= answers@.len(),
            bytes_of(out@) == a_records(answers@.take(i as int)),
        decreases answers@.len() - i,
    {
        let answer = &answers[i];
        assert(answers@.take(i + 1).drop_last() =~= answers@.take(i as int));
        if answer.rtype == A_RECORD && answer.rdata.len() == 4 {
            let addr: [u8; 4] = [answer.rdata[0], answer.rdata[1], answer.rdata[2], answer.rdata[3]];
            assert(addr@ =~= answer.rdata@);
            let ghost before = out@;
            out.push(addr);
            assert(bytes_of(out@) =~= bytes_of(before) + seq![answer.rdata@]);
        } else {
            assert(!is_a(answers@.take(i + 1).last()));
        }
        i += 1;
    }
    assert(answers@.take(answers@.len() as int) =~= answers@);
    out
}

fn split(addrs: Vec<[u8; 4]>) -> (r: (Vec<[u8; 4]>, Vec<[u8; 4]>))
    ensures
        bytes_of(r.0@) == kept(bytes_of(addrs@), true),
        bytes_of(r.1@) == kept(bytes_of(addrs@), false),
{
    let mut to: Vec<[u8; 4]> = Vec::new();
    let mut alongside: Vec<[u8; 4]> = Vec::new();
    let mut i: usize = 0;
    while i < addrs.len()
        invariant
            i <= addrs@.len(),
            bytes_of(to@) == kept(bytes_of(addrs@).take(i as int), true),
            bytes_of(alongside@) == kept(bytes_of(addrs@).take(i as int), false),
        decreases addrs@.len() - i,
    {
        let addr = addrs[i];
        assert(bytes_of(addrs@).take(i + 1).drop_last() =~= bytes_of(addrs@).take(i as int));
        assert(bytes_of(addrs@).take(i + 1).last() == addr@);
        let ghost to_before = to@;
        let ghost along_before = alongside@;
        if private(addr) {
            to.push(addr);
            assert(bytes_of(to@) =~= bytes_of(to_before) + seq![addr@]);
        } else {
            alongside.push(addr);
            assert(bytes_of(alongside@) =~= bytes_of(along_before) + seq![addr@]);
        }
        i += 1;
    }
    assert(bytes_of(addrs@).take(addrs@.len() as int) =~= bytes_of(addrs@));
    (to, alongside)
}

/// An address the way a person reads it: four decimals with dots.
pub open spec fn dotted(a: Seq<u8>) -> Seq<char> {
    decimal(a[0] as nat) + "."@ + decimal(a[1] as nat) + "."@ + decimal(a[2] as nat) + "."@
        + decimal(a[3] as nat)
}

/// Addresses for a person: separated by a comma and a space.
pub open spec fn listed_of(addrs: Seq<Seq<u8>>) -> Seq<char>
    decreases addrs.len(),
{
    if addrs.len() == 0 {
        Seq::empty()
    } else if addrs.len() == 1 {
        dotted(addrs[0])
    } else {
        listed_of(addrs.drop_last()) + ", "@ + dotted(addrs.last())
    }
}

fn push_dotted(s: &mut String, a: [u8; 4])
    ensures
        final(s)@ == old(s)@ + dotted(a@),
{
    proof {
        reveal_strlit(".");
    }
    push_decimal(s, a[0] as u64);
    s.append(".");
    push_decimal(s, a[1] as u64);
    s.append(".");
    push_decimal(s, a[2] as u64);
    s.append(".");
    push_decimal(s, a[3] as u64);
    assert(final(s)@ =~= old(s)@ + dotted(a@));
}

fn push_listed(s: &mut String, addrs: &Vec<[u8; 4]>)
    ensures
        final(s)@ == old(s)@ + listed_of(bytes_of(addrs@)),
{
    proof {
        reveal_strlit(", ");
    }
    let ghost start = s@;
    let mut i: usize = 0;
    while i < addrs.len()
        invariant
            i <= addrs@.len(),
            s@ == start + listed_of(bytes_of(addrs@).take(i as int)),
        decreases addrs@.len() - i,
    {
        let ghost before = s@;
        assert(bytes_of(addrs@).take(i + 1).drop_last() =~= bytes_of(addrs@).take(i as int));
        assert(bytes_of(addrs@).take(i + 1).last() == addrs@[i as int]@);
        if i > 0 {
            s.append(", ");
        }
        push_dotted(s, addrs[i]);
        proof {
            if i == 0 {
                assert(bytes_of(addrs@).take(1) =~= seq![addrs@[0]@]);
                assert(s@ =~= start + listed_of(bytes_of(addrs@).take(1)));
            } else {
                assert(s@ =~= start + listed_of(bytes_of(addrs@).take(i + 1)));
            }
        }
        i += 1;
    }
    assert(bytes_of(addrs@).take(addrs@.len() as int) =~= bytes_of(addrs@));
}

/// Addresses for a person, through a comma.
pub fn listed(addrs: &Vec<[u8; 4]>) -> (r: String)
    ensures
        r@ == listed_of(bytes_of(addrs@)),
{
    let mut s = String::new();
    push_listed(&mut s, addrs);
    assert(s@ =~= listed_of(bytes_of(addrs@)));
    s
}

/// The instrument of name resolution. It has no state: its reading is a function of one message.
#[derive(Debug, Clone, Copy)]
pub struct ResolutionInstrument;

impl ResolutionInstrument {
    /// What a message says about the name it asks (see `read_of`).
    pub fn read(&self, message: &DnsMessage, now_ms: u64) -> (r: Option<Resolved>)
        ensures
            match r {
                Some(v) => read_of(*message) == Some(v@),
                None => read_of(*message) is None,
            },
    {
        match message.direction {
            DnsDirection::Query => return None,
            DnsDirection::Response => {},
        }
        if message.queries.len() == 0 {
            return None;
        }
        let query = &message.queries[0];
        if query.qtype != A_RECORD {
            return None;
        }
        let name = query.name.clone();
        let internal = internal_name(name.as_str());
        if message.rcode == NXDOMAIN {
            if message.authoritative && !internal {
                return Some(Resolved::Erased { name, how: Erasure::Denied });
            } else {
                return None;
            }
        }
        let addrs = addresses(&message.answers);
        if addrs.len() == 0 {
            return Some(Resolved::Erased { name, how: Erasure::NoAddress });
        }
        if internal {
            return Some(Resolved::Honest { name, addrs });
        }
        let ghost whole = bytes_of(addrs@);
        let (to, alongside) = split(addrs);
        if to.len() == 0 {
            Some(Resolved::Honest { name, addrs: alongside })
        } else {
            Some(Resolved::Hijacked { name, to, alongside })
        }
    }

    /// One message: a response is read; ticks, letters not understood and tears say nothing.
    pub fn step(self, event: DetectorEvent<DnsMessage>) -> (r: (ResolutionInstrument, Said<Resolved>, ()))
        ensures
            match event {
                DetectorEvent::Packet { input, .. } => match read_of(input) {
                    Some(v) => resolved_said(r.1).len() == 1 && resolved_said(r.1)[0]@ == v,
                    None => resolved_said(r.1).len() == 0,
                },
                _ => resolved_said(r.1).len() == 0,
            },
    {
        match event {
            DetectorEvent::Packet { input, .. } => {
                let reading = self.read(&input, 0);
                (self, Said::of_resolved(reading), ())
            },
            _ => (self, Said::of_resolved(None), ()),
        }
    }
}

/// The name a reading is about.
pub open spec fn name_about(v: ResolvedView) -> Seq<char> {
    match v {
        ResolvedView::Honest { name, .. } => name,
        ResolvedView::Hijacked { name, .. } => name,
        ResolvedView::Erased { name, .. } => name,
    }
}

/// The quantity of a reading for a person.
pub open spec fn resolved_detail(v: ResolvedView) -> Seq<char> {
    match v {
        ResolvedView::Honest { addrs, .. } => listed_of(addrs),
        ResolvedView::Hijacked { to, alongside, .. } => if alongside.len() == 0 {
            "уведён на "@ + listed_of(to)
        } else {
            "уведён на "@ + listed_of(to) + ", рядом настоящие "@ + listed_of(alongside)
        },
        ResolvedView::Erased { how, .. } => match how {
            Erasure::NoAddress => "адреса нет в ответе"@,
            Erasure::Denied => "отказ с присвоенной авторитетностью"@,
        },
    }
}

impl Instrument for ResolutionInstrument {
    type Signal = Resolved;

    open spec fn public_name() -> Seq<char> {
        "resolve"@
    }

    fn sheet() -> (r: Sheet) {
        let protocols: &'static [Protocol] = &[Protocol::Dns];
        assert(protocols@ =~= seq![Protocol::Dns]);
        Sheet {
            instrument: "resolve",
            subject: Subject::World,
            layer: Layer::Application,
            protocols,
            type_path: "reflex_instrument::resolve::ResolutionInstrument",
            rung: Some(Rung::Authentic),
            cadence: Cadence::Foreign,
            shape: Shape::Verdict,
            silence: Some(Silence::Nothing),
            lies: &[
        "АВТОРИТЕТНОСТЬ — УЛИКА, А НЕ ДОКАЗАТЕЛЬСТВО. Спросивший авторитетный сервер НАПРЯМУЮ \
         (`dig @ns1.зоны`) законно получает `aa` на несуществующее имя, и прибор объявит стирание. \
         Внутренние зоны выведены списком суффиксов, а список неполон по построению: split-horizon \
         делает внутренним любое имя. Цена выбрана сознательно — обратное (молчать на всякий \
         `NXDOMAIN`) не видит стирания ВООБЩЕ, а именно им клиента и держат вне сети.",
        "ПУСТОЙ ОТВЕТ ВМЕШАТЕЛЬСТВА НЕ ДОКАЗЫВАЕТ. Имя, у которого есть только `AAAA` или только \
         `MX`, честно отвечает `NOERROR` без записей `A`. Прибор говорит `Erasure::NoAddress` — \
         «цели нет», и это правда; читать это как «цель отняли» нельзя, и слово именно поэтому \
         несёт способ.",
        "УВОД НА ПУБЛИЧНЫЙ АДРЕС НЕ ЛОВИТСЯ. Признак увода — частный адрес у публичного имени, а \
         реальный перехват уводит на подставной резолвер, который ПУБЛИЧЕН. В положительном ответе \
         присвоенная авторитетность не смотрится: у домашних форвардеров она встречается и без \
         вмешательства, а цена ложного обвинения выше цены пропуска.",
        "ЧАСТНЫЙ АДРЕС БЫВАЕТ ЗАКОННЫМ. Внутренние имена компании, `*.local`, split-horizon DNS — \
         всё это честно разрешается в 10/8 и 192.168/16. Прибор объявит подмену, и будет неправ; \
         различает их только знание о том, чьё это имя, а такого знания у него нет.",
        "ОТВЕТ ОТ НЕ ТОГО РЕЗОЛВЕРА НЕ ПРОВЕРЯЕТСЯ. Классическая подмена приходит от адреса, \
         которого клиент не спрашивал, — здесь это не смотрится вовсе: прибор судит содержимое, \
         а не отправителя.",
    ],
            oracles: &["dns_spoof(rutracker.org,10.77.0.99)", "udp_dns"],
            death: "прибор видит увод на ПУБЛИЧНЫЙ адрес: улика увода перестала быть частностью адреса",
            events: &["resolve_honest", "resolve_hijacked", "resolve_erased"],
        }

    }

    fn name(signal: &Resolved) -> (r: &'static str)
        ensures
            r@ == (match *signal {
                Resolved::Honest { .. } => "resolve_honest"@,
                Resolved::Hijacked { .. } => "resolve_hijacked"@,
                Resolved::Erased { .. } => "resolve_erased"@,
            }),
    {
        match signal {
            Resolved::Honest { .. } => "resolve_honest",
            Resolved::Hijacked { .. } => "resolve_hijacked",
            Resolved::Erased { .. } => "resolve_erased",
        }
    }

    fn about(signal: &Resolved) -> (r: Option<String>)
        ensures
            r matches Some(s) && s@ == name_about(signal@),
    {
        match signal {
            Resolved::Honest { name, .. } => Some(name.clone()),
            Resolved::Hijacked { name, .. } => Some(name.clone()),
            Resolved::Erased { name, .. } => Some(name.clone()),
        }
    }

    fn alarming(signal: &Resolved) -> (r: bool)
        ensures
            r == !(signal is Honest),
    {
        match signal {
            Resolved::Honest { .. } => false,
            Resolved::Hijacked { .. } | Resolved::Erased { .. } => true,
        }
    }

    fn detail(signal: &Resolved) -> (r: String)
        ensures
            r@ == resolved_detail(signal@),
    {
        proof {
            reveal_strlit("уведён на ");
            reveal_strlit(", рядом настоящие ");
            reveal_strlit("адреса нет в ответе");
            reveal_strlit("отказ с присвоенной авторитетностью");
        }
        match signal {
            Resolved::Honest { addrs, .. } => listed(addrs),
            Resolved::Hijacked { to, alongside, .. } => {
                let mut s = String::new();
                s.append("уведён на ");
                push_listed(&mut s, to);
                if alongside.len() > 0 {
                    s.append(", рядом настоящие ");
                    push_listed(&mut s, alongside);
                }
                assert(s@ =~= resolved_detail(signal@));
                s
            },
            Resolved::Erased { how, .. } => match how {
                Erasure::NoAddress => {
                    let s = String::from_str("адреса нет в ответе");
                    s
                },
                Erasure::Denied => {
                    let s = String::from_str("отказ с присвоенной авторитетностью");
                    s
                },
            },
        }
    }
}

} // verus!
