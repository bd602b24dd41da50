use reflex_instrument::agreement::{Agreement, AgreementInstrument};
use reflex_instrument::ask::{Carrying, Stalled};
use reflex_instrument::distress::Distress;
use reflex_instrument::dns::{DnsAnswer, DnsDirection, DnsMessage, DnsQuery};
use reflex_instrument::edge_word::{EdgeReading, Edged};
use reflex_instrument::event::DetectorEvent;
use reflex_instrument::leg::{Leg, LinkInstrument};
use reflex_instrument::pace::{PaceInstrument, Waited};
use reflex_instrument::poison::DnsPoisonInstrument;
use reflex_instrument::resolve::{internal_name, listed, Erasure, Resolved, ResolutionInstrument};
use reflex_instrument::sag::{Sag, SagInstrument};
use reflex_instrument::swallow::SwallowInstrument;
use reflex_instrument::tls::{TlsContentType, TlsFragment, TlsRecord, TlsVersion};
use reflex_instrument::trust::{Trust, TrustInstrument};
use reflex_instrument::wire::Seen;
use reflex_instrument::Instrument;

fn edge_up(up: u64) -> EdgeReading {
    EdgeReading { down_packets: None, up_packets: Some(up), down_bytes: None, age_ms: None, idle_ms: None, mark: 0 }
}

fn swallow_letter(narrow: Option<Seen>, up: u64, at: u64) -> DetectorEvent<Edged<Option<Seen>, Option<EdgeReading>>> {
    DetectorEvent::Packet { input: Edged { narrow, edge: Some(edge_up(up)) }, at }
}

fn resent() -> Option<Seen> {
    Some(Seen::Resent { count: 174 })
}

#[test]
fn a_repeat_while_the_target_acknowledges_is_a_swallowed_segment() {
    let instrument = SwallowInstrument::new();
    let (instrument, said, ()) = instrument.step(swallow_letter(resent(), 3, 1_000));
    assert!(said.signals().is_empty(), "первый повтор — обычная потеря");
    let (_instrument, said, ()) = instrument.step(swallow_letter(resent(), 3, 1_250));
    assert_eq!(
        said.signals(),
        [Distress::Swallowed { after_ms: 250 }],
        "ряд повторов при живой цели обязан быть назван, и величина — ожидание человека"
    );
}

#[test]
fn a_repeat_while_the_target_is_mute_is_not_ours() {
    let instrument = SwallowInstrument::new();
    let (instrument, _, ()) = instrument.step(swallow_letter(resent(), 1, 1_000));
    let (_instrument, said, ()) = instrument.step(swallow_letter(resent(), 1, 1_250));
    assert!(said.signals().is_empty(), "один пакет вверх — это `SYN+ACK` ядра, а не работа собеседника");
}

#[test]
fn bytes_from_the_target_clear_the_count() {
    let instrument = SwallowInstrument::new();
    let (instrument, _, ()) = instrument.step(swallow_letter(resent(), 3, 1_000));
    let (instrument, _, ()) = instrument.step(swallow_letter(Some(Seen::Received { count: 1400 }), 4, 1_000));
    let (_instrument, said, ()) = instrument.step(swallow_letter(resent(), 4, 1_250));
    assert!(said.signals().is_empty(), "после прохода сегмента счёт начинается заново");
}

#[test]
fn a_hiding_letter_clears_the_count() {
    let instrument = SwallowInstrument::new();
    let (instrument, _, ()) = instrument.step(swallow_letter(resent(), 3, 1_000));
    let (instrument, _, ()) = instrument.step(DetectorEvent::Torn { at: 1_000 });
    let (_instrument, said, ()) = instrument.step(swallow_letter(resent(), 3, 1_250));
    assert!(said.signals().is_empty(), "через дыру счёт не копится");
}

#[derive(Debug, Clone, Copy)]
struct Window {
    carrying: usize,
    stalled: usize,
}

impl Carrying for Window {
    fn carried(&self) -> usize {
        self.carrying
    }

    fn carrying(&self) -> usize {
        self.carrying
    }
}

impl Stalled for Window {
    fn stalled_count(&self) -> usize {
        self.stalled
    }

    fn stalled(&self) -> usize {
        self.stalled
    }
}

fn leg_said(carrying: usize, stalled: usize) -> Vec<Leg> {
    let (_instrument, out, ()) =
        LinkInstrument::<Window>::new().step(DetectorEvent::Packet { input: Window { carrying, stalled }, at: 0 });
    out.signals()
}

#[test]
fn half_the_talks_stalled_is_a_stalled_leg() {
    assert_eq!(leg_said(10, 5), vec![Leg::Stalled], "ровно половина — уже затор");
    assert_eq!(leg_said(10, 9), vec![Leg::Stalled]);
}

#[test]
fn a_few_stalled_talks_do_not_accuse_the_leg() {
    assert_eq!(leg_said(10, 4), vec![Leg::Healthy]);
    assert_eq!(leg_said(10, 0), vec![Leg::Healthy]);
}

#[test]
fn an_empty_window_is_not_a_healthy_leg() {
    assert!(leg_said(0, 0).is_empty());
}

#[test]
fn an_odd_window_stalls_at_its_upper_half() {
    assert_eq!(leg_said(9, 5), vec![Leg::Stalled]);
    assert_eq!(leg_said(9, 4), vec![Leg::Healthy]);
    assert_eq!(leg_said(usize::MAX, usize::MAX), vec![Leg::Stalled]);
}

fn pace_said(waited: u64) -> Vec<Waited> {
    let (_instrument, out, ()) = PaceInstrument.step(DetectorEvent::Packet { input: waited, at: 0 });
    out.signals()
}

#[test]
fn waiting_is_reported_as_a_quantity_not_a_threshold() {
    assert_eq!(pace_said(6_000), vec![Waited(6_000)]);
    assert_eq!(pace_said(120), vec![Waited(120)], "малое ожидание — тоже величина: судит слушающий, не прибор");
}

#[test]
fn no_waiting_is_silence_not_a_zero() {
    assert!(pace_said(0).is_empty());
}

#[test]
fn a_hiding_letter_changes_nothing_because_there_is_nothing_to_change() {
    let (instrument, out, ()) = PaceInstrument.step(DetectorEvent::Torn { at: 0 });
    assert!(out.signals().is_empty());
    let (_instrument, after, ()) = instrument.step(DetectorEvent::Packet { input: 6_000, at: 0 });
    assert_eq!(after.signals(), vec![Waited(6_000)]);
}

fn poison_msg(direction: DnsDirection, rcode: u8, answers: usize) -> DnsMessage {
    DnsMessage {
        id: 0x1234,
        direction,
        rcode,
        authoritative: false,
        queries: vec![DnsQuery { name: "nnmclub.to".into(), qtype: 1, qclass: 1 }],
        answers: (0..answers)
            .map(|_| DnsAnswer { name: "nnmclub.to".into(), rtype: 1, rclass: 1, ttl: 60, rdata: vec![1, 2, 3, 4] })
            .collect(),
    }
}

fn run_poison(script: Vec<DnsMessage>) -> Vec<Distress> {
    let mut state = DnsPoisonInstrument::new();
    let mut said = Vec::new();
    for m in script {
        let (next, signals, ()) = state.step(DetectorEvent::Packet { input: m, at: 0 });
        said.extend(signals.signals());
        state = next;
    }
    said
}

#[test]
fn nxdomain_after_a_query_is_suspected_poisoning() {
    let said = run_poison(vec![poison_msg(DnsDirection::Query, 0, 0), poison_msg(DnsDirection::Response, 3, 0)]);
    assert_eq!(said, vec![Distress::Poisoned]);
}

#[test]
fn a_real_answer_is_not_poisoning() {
    let said = run_poison(vec![poison_msg(DnsDirection::Query, 0, 0), poison_msg(DnsDirection::Response, 0, 2)]);
    assert!(said.is_empty());
}

#[test]
fn a_response_without_a_seen_query_is_silent() {
    let said = run_poison(vec![poison_msg(DnsDirection::Response, 3, 0)]);
    assert!(said.is_empty());
}

fn answer(qtype: u16, rcode: u8, answers: Vec<DnsAnswer>) -> DnsMessage {
    DnsMessage {
        id: 1,
        direction: DnsDirection::Response,
        rcode,
        authoritative: false,
        queries: vec![DnsQuery { name: "rutracker.org".to_string(), qtype, qclass: 1 }],
        answers,
    }
}

fn claiming_authority(message: DnsMessage) -> DnsMessage {
    DnsMessage { authoritative: true, ..message }
}

fn denial_for(name: &str) -> DnsMessage {
    let mut message = claiming_authority(answer(1, 3, Vec::new()));
    message.queries[0].name = name.to_string();
    message
}

fn a_record(addr: [u8; 4]) -> DnsAnswer {
    DnsAnswer { name: "rutracker.org".to_string(), rtype: 1, rclass: 1, ttl: 300, rdata: addr.to_vec() }
}

fn says(message: DnsMessage) -> Vec<Resolved> {
    let (_instrument, said, ()) = ResolutionInstrument.step(DetectorEvent::Packet { input: message, at: 0 });
    said.signals()
}

#[test]
fn the_owner_of_its_zone_denies_by_right() {
    assert_eq!(
        ResolutionInstrument.read(&denial_for("printer.lan"), 0),
        None,
        "внутреннюю зону резолвер держит сам, и отказ в ней — его право"
    );
}

#[test]
fn an_erased_name_gives_itself_away_by_a_claimed_authority() {
    let denied = claiming_authority(answer(1, 3, Vec::new()));
    assert_eq!(
        ResolutionInstrument.read(&denied, 0),
        Some(Resolved::Erased { name: "rutracker.org".to_string(), how: Erasure::Denied }),
        "NXDOMAIN с присвоенной авторитетностью — стирание имени, а не его отсутствие"
    );
}

#[test]
fn the_whole_answer_arrives_not_the_first_address() {
    let five = vec![
        a_record([1, 1, 1, 1]),
        a_record([2, 2, 2, 2]),
        a_record([3, 3, 3, 3]),
        a_record([4, 4, 4, 4]),
        a_record([5, 5, 5, 5]),
    ];
    match ResolutionInstrument.read(&answer(1, 0, five), 0) {
        Some(Resolved::Honest { addrs, .. }) => assert_eq!(
            addrs,
            vec![[1, 1, 1, 1], [2, 2, 2, 2], [3, 3, 3, 3], [4, 4, 4, 4], [5, 5, 5, 5]],
            "все пять адресов ответа, и в порядке ответа"
        ),
        other => panic!("честный ответ обязан назвать все адреса, а вышло {other:?}"),
    }
}

#[test]
fn a_hijack_by_the_second_address_is_seen_as_by_the_first() {
    let sneaky = vec![a_record([93, 184, 216, 34]), a_record([10, 0, 0, 1])];
    match ResolutionInstrument.read(&answer(1, 0, sneaky), 0) {
        Some(Resolved::Hijacked { to, alongside, .. }) => {
            assert_eq!(to, vec![[10, 0, 0, 1]], "частный адрес назван уводом");
            assert_eq!(alongside, vec![[93, 184, 216, 34]], "а настоящий — не потерян");
        }
        other => panic!("увод вторым адресом обязан быть виден, а вышло {other:?}"),
    }
}

#[test]
fn a_question_about_ipv6_is_not_this_instruments_business() {
    assert_eq!(says(answer(28, 0, vec![])), vec![]);
}

#[test]
fn a_name_that_does_not_exist_is_not_trouble() {
    assert_eq!(says(answer(1, 3, vec![])), vec![]);
}

#[test]
fn an_answer_without_an_address_is_an_erasure() {
    assert_eq!(
        says(answer(1, 0, vec![])),
        vec![Resolved::Erased { name: "rutracker.org".to_string(), how: Erasure::NoAddress }]
    );
}

#[test]
fn an_honest_answer_and_a_hijack_are_still_told_apart() {
    let honest = says(answer(1, 0, vec![a_record([104, 21, 32, 39])]));
    let hijacked = says(answer(1, 0, vec![a_record([10, 77, 0, 99])]));
    assert!(matches!(honest.first(), Some(Resolved::Honest { .. })));
    assert!(matches!(hijacked.first(), Some(Resolved::Hijacked { .. })));
}

#[test]
fn a_query_is_not_judged() {
    let mut query = answer(1, 0, vec![a_record([10, 0, 0, 1])]);
    query.direction = DnsDirection::Query;
    assert_eq!(ResolutionInstrument.read(&query, 0), None);
}

#[test]
fn an_internal_name_is_judged_honest_whole() {
    let mut message = answer(1, 0, vec![a_record([10, 0, 0, 1])]);
    message.queries[0].name = "nas.local".to_string();
    assert!(matches!(ResolutionInstrument.read(&message, 0), Some(Resolved::Honest { .. })));
    assert!(internal_name("printer"));
    assert!(internal_name("x.internal"));
    assert!(!internal_name("rutracker.org"));
}

#[test]
fn addresses_are_listed_for_a_person() {
    assert_eq!(listed(&vec![[10, 0, 0, 1], [93, 184, 216, 34]]), "10.0.0.1, 93.184.216.34");
    assert_eq!(listed(&vec![]), "");
    let hijack = Resolved::Hijacked {
        name: "rutracker.org".to_string(),
        to: vec![[10, 0, 0, 1]],
        alongside: vec![[93, 184, 216, 34]],
    };
    assert_eq!(ResolutionInstrument::detail(&hijack), "уведён на 10.0.0.1, рядом настоящие 93.184.216.34");
    assert_eq!(ResolutionInstrument::about(&hijack), Some("rutracker.org".to_string()));
    assert!(ResolutionInstrument::alarming(&hijack));
    assert_eq!(ResolutionInstrument::name(&hijack), "resolve_hijacked");
}

fn record(fragment: TlsFragment, content_type: TlsContentType) -> TlsRecord {
    TlsRecord { content_type, version: TlsVersion { major: 3, minor: 3 }, fragment }
}

fn run_trust(records: Vec<TlsRecord>) -> Vec<Trust> {
    let mut state = TrustInstrument::new();
    let mut said = Vec::new();
    for r in records {
        let (next, signals, _) = state.step(DetectorEvent::Packet { input: r, at: 0 });
        said.extend(signals.signals());
        state = next;
    }
    said
}

#[test]
fn a_refusal_arriving_later_is_still_seen() {
    let said = run_trust(vec![
        record(TlsFragment::ClientHello { sni: None }, TlsContentType::Handshake),
        record(TlsFragment::ServerHello, TlsContentType::Handshake),
        record(TlsFragment::Alert { level: 2, description: 48 }, TlsContentType::Alert),
    ]);
    assert_eq!(said, vec![Trust::RefusedCertificate { alert: 48 }]);
}

#[test]
fn application_data_settles_it_once() {
    let said = run_trust(vec![
        record(TlsFragment::ServerHello, TlsContentType::Handshake),
        record(TlsFragment::Other, TlsContentType::ApplicationData),
        record(TlsFragment::Alert { level: 1, description: 0 }, TlsContentType::Alert),
    ]);
    assert_eq!(said, vec![Trust::Established]);
}

#[test]
fn a_handshake_in_progress_says_nothing() {
    let said = run_trust(vec![record(TlsFragment::ClientHello { sni: None }, TlsContentType::Handshake)]);
    assert_eq!(said, Vec::<Trust>::new());
}

#[test]
fn another_alert_is_another_refusal() {
    let said = run_trust(vec![record(TlsFragment::Alert { level: 2, description: 40 }, TlsContentType::Alert)]);
    assert_eq!(said, vec![Trust::RefusedOther { alert: 40 }]);
    assert_eq!(TrustInstrument::detail(&Trust::RefusedOther { alert: 40 }), "рукопожатие оборвано (тревога 40)");
    assert_eq!(
        TrustInstrument::detail(&Trust::RefusedCertificate { alert: 48 }),
        "клиент отверг сертификат (тревога 48)"
    );
}

fn sag_of(series: Vec<u64>) -> Option<Sag> {
    SagInstrument.read(&series, 0)
}

#[test]
fn a_sag_is_the_first_pair_below_half_the_bar() {
    assert_eq!(
        sag_of(vec![100, 1_000, 900, 400, 300, 800, 50]),
        Some(Sag { at_window: 3, before_bps: 1_000, after_bps: 400 })
    );
}

#[test]
fn a_single_dip_is_not_a_sag() {
    assert_eq!(sag_of(vec![100, 1_000, 400, 900, 400, 900, 50]), None);
}

#[test]
fn the_flywheel_and_the_tail_are_not_judged() {
    assert_eq!(sag_of(vec![1, 2, 3]), None);
    assert_eq!(sag_of(vec![0, 1_000, 1_000, 1_000, 0]), None);
}

#[test]
fn agreement_tells_the_sign_of_the_difference() {
    assert_eq!(AgreementInstrument.read(&(5, Some(5)), 0), Agreement::Agreed { both: 5 });
    assert_eq!(AgreementInstrument.read(&(7, Some(5)), 0), Agreement::MarkedNotSteered { ours: 7, kernel: 5 });
    assert_eq!(AgreementInstrument.read(&(3, Some(5)), 0), Agreement::SteeredNotMarked { ours: 3, kernel: 5 });
    assert_eq!(AgreementInstrument.read(&(3, None), 0), Agreement::NoWitness { ours: 3 });
    let (_, word, log) = AgreementInstrument.step(DetectorEvent::Packet { input: (3, None), at: 0 });
    assert_eq!(word, ());
    assert_eq!(log.signals(), vec![Agreement::NoWitness { ours: 3 }]);
}
