use reflex_instrument::dismiss::DismissInstrument;
use reflex_instrument::distress::Distress;
use reflex_instrument::event::DetectorEvent;
use reflex_instrument::hello::HelloDroppedInstrument;
use reflex_instrument::muted::{horizon, HelloMutedInstrument};
use reflex_instrument::retransmit::RetransmitInstrument;
use reflex_instrument::unreached_replies::UnreachedInstrument;
use reflex_instrument::wire::{ResetBy, Seen, SeenTcp};

fn packet<T>(input: T, at: u64) -> DetectorEvent<T> {
    DetectorEvent::Packet { input, at }
}

fn client_hello() -> Seen {
    Seen::Payload { head: b"\x16\x03\x01hello".to_vec(), from_client: true }
}

#[test]
fn a_target_that_closes_without_a_word_is_named() {
    let instrument = DismissInstrument::new();
    let (instrument, said, ()) = instrument.step(packet(client_hello(), 0));
    assert!(said.signals().is_empty(), "просьба сама по себе бедой не является");
    let (_instrument, said, ()) = instrument.step(packet(Seen::Closed { by_client: false }, 30));
    assert_eq!(
        said.signals(),
        [Distress::Dismissed { after_ms: 30 }],
        "прощание при нуле сказанного — отказ, и величина есть ожидание человека"
    );
}

#[test]
fn a_target_that_spoke_and_closed_is_not_trouble() {
    let instrument = DismissInstrument::new();
    let (instrument, _, ()) = instrument.step(packet(client_hello(), 0));
    let (instrument, _, ()) = instrument.step(packet(Seen::Received { count: 1400 }, 20));
    let (_instrument, said, ()) = instrument.step(packet(Seen::Closed { by_client: false }, 30));
    assert!(said.signals().is_empty(), "сказала и ушла — обычное завершение");
}

#[test]
fn a_client_that_closes_accuses_nobody() {
    let instrument = DismissInstrument::new();
    let (instrument, _, ()) = instrument.step(packet(client_hello(), 0));
    let (_instrument, said, ()) = instrument.step(packet(Seen::Closed { by_client: true }, 30));
    assert!(said.signals().is_empty(), "уход человека не обвиняет цель");
}

#[test]
fn a_hiding_letter_silences_the_accusation() {
    let instrument = DismissInstrument::new();
    let (instrument, _, ()) = instrument.step(packet(client_hello(), 0));
    let (instrument, _, ()) = instrument.step(DetectorEvent::Torn { at: 10 });
    let (_instrument, said, ()) = instrument.step(packet(Seen::Closed { by_client: false }, 30));
    assert!(said.signals().is_empty(), "через дыру цель не обвиняем");
}

fn run_hello_dropped(script: &[(SeenTcp, u64)]) -> Vec<Distress> {
    let mut state = HelloDroppedInstrument::new();
    let mut said = Vec::new();
    for (seen, at) in script {
        let (next, signals, ()) = state.step(packet(seen.clone(), *at));
        said.extend(signals.signals());
        state = next;
    }
    said
}

fn hello_tcp() -> SeenTcp {
    SeenTcp::Anywhere(Seen::Payload { head: vec![0x16, 0x03, 0x01], from_client: true })
}

fn again() -> SeenTcp {
    SeenTcp::Anywhere(Seen::Resent { count: 517 })
}

#[test]
fn a_run_of_repeats_after_a_handshake_and_a_silent_target_is_named() {
    let said = run_hello_dropped(&[
        (SeenTcp::Handshaken, 0),
        (hello_tcp(), 145),
        (again(), 442),
        (again(), 738),
        (again(), 1363),
        (again(), 2578),
    ]);
    assert_eq!(
        said,
        vec![Distress::HelloDropped { retries: 3, after_ms: 1218 }],
        "один раз, на третьем повторе, от первой отправки"
    );
}

#[test]
fn a_lost_segment_answered_after_a_repeat_is_not_named() {
    let said = run_hello_dropped(&[
        (SeenTcp::Handshaken, 0),
        (hello_tcp(), 100),
        (again(), 400),
        (SeenTcp::Anywhere(Seen::Received { count: 2416 }), 450),
        (again(), 900),
        (again(), 1500),
        (again(), 2700),
    ]);
    assert_eq!(said, Vec::new(), "цель ответила — приветствие дошло");
}

#[test]
fn without_a_handshake_it_is_not_this_trouble() {
    let said = run_hello_dropped(&[(hello_tcp(), 0), (again(), 300), (again(), 600), (again(), 1200)]);
    assert_eq!(said, Vec::new());
}

#[test]
fn a_hiding_letter_silences_the_instrument() {
    let (state, _, ()) = HelloDroppedInstrument::new().step(packet(SeenTcp::Handshaken, 0));
    let (state, _, ()) = state.step(packet(hello_tcp(), 0));
    let (mut state, _, ()) = state.step(DetectorEvent::Torn { at: 0 });
    let mut said = Vec::new();
    for nth in 1..=4u64 {
        let (next, signals, ()) = state.step(packet(again(), 300 * nth));
        said.extend(signals.signals());
        state = next;
    }
    assert_eq!(said, Vec::new(), "через дыру не обвиняем");
}

fn run_muted(script: &[(Option<SeenTcp>, u64)]) -> Vec<Distress> {
    let mut state = HelloMutedInstrument::new();
    let mut said = Vec::new();
    for (seen, at) in script {
        let event = match seen {
            Some(seen) => packet(seen.clone(), *at),
            None => DetectorEvent::Tick { node: *at, at: *at },
        };
        let (next, signals, ()) = state.step(event);
        said.extend(signals.signals());
        state = next;
    }
    said
}

#[test]
fn an_acknowledged_greeting_without_an_answer_is_muted() {
    let said = run_muted(&[
        (Some(SeenTcp::Syn), 0),
        (Some(SeenTcp::Handshaken), 40),
        (Some(hello_tcp()), 42),
        (Some(SeenTcp::Acknowledged), 80),
        (None, 200),
        (None, 500),
        (None, 900),
    ]);
    assert_eq!(said, vec![Distress::HelloMuted { rtt_ms: 40, after_ms: 420 }]);
}

#[test]
fn an_answer_lifts_the_muted_suspicion_for_good() {
    let said = run_muted(&[
        (Some(SeenTcp::Syn), 0),
        (Some(SeenTcp::Handshaken), 40),
        (Some(hello_tcp()), 42),
        (Some(SeenTcp::Acknowledged), 80),
        (Some(SeenTcp::received(1400)), 120),
        (None, 5_000),
    ]);
    assert!(said.is_empty());
}

#[test]
fn without_a_knock_there_is_no_rtt_and_no_word() {
    let said = run_muted(&[
        (Some(SeenTcp::Handshaken), 40),
        (Some(hello_tcp()), 42),
        (Some(SeenTcp::Acknowledged), 80),
        (None, 50_000),
    ]);
    assert!(said.is_empty());
}

#[test]
fn the_horizon_is_ten_rtts_and_never_below_the_minimal_rto() {
    assert_eq!(horizon(40), 400);
    assert_eq!(horizon(5), 200);
    assert_eq!(horizon(u64::MAX), (u64::MAX as u128) * 10);
}

#[test]
fn a_reset_by_the_person_ends_the_muted_watch() {
    let said = run_muted(&[
        (Some(SeenTcp::Syn), 0),
        (Some(SeenTcp::Handshaken), 40),
        (Some(hello_tcp()), 42),
        (Some(SeenTcp::Acknowledged), 80),
        (Some(SeenTcp::Rst { by: ResetBy::Person }), 90),
        (None, 5_000),
    ]);
    assert!(said.is_empty());
}

#[test]
fn a_repeat_with_nothing_back_is_the_suspicion() {
    let instrument = RetransmitInstrument::new();
    let (instrument, quiet, _) = instrument.step(packet(client_hello(), 0));
    assert!(quiet.signals().is_empty(), "первая просьба бедой не является");
    let (_instrument, said, _) = instrument.step(packet(Seen::Resent { count: 517 }, 360));
    assert_eq!(
        said.signals(),
        [Distress::Retransmit { after_ms: 360 }],
        "повтор при нулевом ответе обязан быть уликой, и величина — ожидание человека"
    );
}

#[test]
fn a_repeat_after_the_target_answered_is_not_trouble() {
    let instrument = RetransmitInstrument::new();
    let (instrument, _, _) = instrument.step(packet(client_hello(), 0));
    let (instrument, _, _) = instrument.step(packet(Seen::Received { count: 1400 }, 120));
    let (_instrument, said, _) = instrument.step(packet(Seen::Resent { count: 517 }, 480));
    assert!(said.signals().is_empty(), "цель отдала байты — повтор есть обычная потеря, а не блокировка");
}

#[test]
fn only_the_first_repeat_speaks() {
    let instrument = RetransmitInstrument::new();
    let (instrument, _, _) = instrument.step(packet(client_hello(), 0));
    let (instrument, first, _) = instrument.step(packet(Seen::Resent { count: 517 }, 360));
    let (_instrument, second, _) = instrument.step(packet(Seen::Resent { count: 517 }, 1080));
    assert_eq!(first.signals().len(), 1, "первый повтор говорит");
    assert!(second.signals().is_empty(), "второй повтор о том же молчит");
}

#[test]
fn a_tick_says_nothing() {
    let instrument = RetransmitInstrument::new();
    let (instrument, _, _) = instrument.step(packet(client_hello(), 0));
    let (_instrument, said, _) = instrument.step(DetectorEvent::Tick { node: 9_000, at: 9_000 });
    assert!(said.signals().is_empty(), "прибор с чужим темпом в тишине нем");
}

fn restated() -> Seen {
    Seen::Restated { count: 1248 }
}

#[test]
fn a_run_of_target_repeats_without_progress_is_named() {
    let instrument = UnreachedInstrument::new();
    let (instrument, said, ()) = instrument.step(packet(restated(), 0));
    assert!(said.signals().is_empty(), "одиночный повтор — обычная потеря");
    let (_instrument, said, ()) = instrument.step(packet(restated(), 0));
    assert_eq!(said.signals(), [Distress::Unreached { retries: 2 }]);
}

#[test]
fn fresh_bytes_from_the_target_clear_the_count() {
    let instrument = UnreachedInstrument::new();
    let (instrument, _, ()) = instrument.step(packet(restated(), 0));
    let (instrument, _, ()) = instrument.step(packet(Seen::Received { count: 1448 }, 0));
    let (_instrument, said, ()) = instrument.step(packet(restated(), 0));
    assert!(said.signals().is_empty(), "после свежих байт счёт начинается заново — ответы доходят");
}

#[test]
fn a_hiding_letter_clears_the_count_too() {
    let instrument = UnreachedInstrument::new();
    let (instrument, _, ()) = instrument.step(packet(restated(), 0));
    let (instrument, _, ()) = instrument.step(DetectorEvent::Torn { at: 0 });
    let (_instrument, said, ()) = instrument.step(packet(restated(), 0));
    assert!(said.signals().is_empty(), "через дыру счёт не копится");
}

#[test]
fn the_trouble_is_told_once() {
    let instrument = UnreachedInstrument::new();
    let (instrument, _, ()) = instrument.step(packet(restated(), 0));
    let (instrument, said, ()) = instrument.step(packet(restated(), 0));
    assert_eq!(said.signals().len(), 1);
    let (_instrument, again, ()) = instrument.step(packet(restated(), 0));
    assert!(again.signals().is_empty(), "второй раз о том же не говорим");
}
