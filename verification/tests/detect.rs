use reflex_instrument::detect::{
    ChokedInstrument, RstInstrument, SilenceInstrument, SynDropInstrument, ThrottledInstrument,
};
use reflex_instrument::distress::Distress;
use reflex_instrument::event::DetectorEvent;
use reflex_instrument::wire::{ResetBy, Seen, SeenTcp};

/// A letter of a script: an observation, or a tick at that many milliseconds.
fn letter<T>(seen: Option<T>, at: u64) -> DetectorEvent<T> {
    match seen {
        Some(input) => DetectorEvent::Packet { input, at },
        None => DetectorEvent::Tick { node: at, at },
    }
}

fn run_silence(mut state: SilenceInstrument, script: Vec<(Option<Seen>, u64)>) -> Vec<Distress> {
    let mut said = Vec::new();
    for (seen, at) in script {
        let (next, signals, _) = state.step(letter(seen, at));
        said.extend(signals.signals());
        state = next;
    }
    said
}

fn run_throttled(mut state: ThrottledInstrument, script: Vec<(Option<SeenTcp>, u64)>) -> Vec<Distress> {
    let mut said = Vec::new();
    for (seen, at) in script {
        let (next, signals, _) = state.step(letter(seen, at));
        said.extend(signals.signals());
        state = next;
    }
    said
}

fn run_choked(mut state: ChokedInstrument, script: Vec<(Option<Seen>, u64)>) -> Vec<Distress> {
    let mut said = Vec::new();
    for (seen, at) in script {
        let (next, signals, _) = state.step(letter(seen, at));
        said.extend(signals.signals());
        state = next;
    }
    said
}

fn run_rst(mut state: RstInstrument, script: Vec<SeenTcp>) -> Vec<Distress> {
    let mut said = Vec::new();
    for seen in script {
        let (next, signals, _) = state.step(DetectorEvent::Packet { input: seen, at: 0 });
        said.extend(signals.signals());
        state = next;
    }
    said
}

fn run_syn_drop(script: Vec<(Option<SeenTcp>, u64)>) -> Vec<Distress> {
    let mut state = SynDropInstrument::new();
    let mut said = Vec::new();
    for (seen, at) in script {
        let (next, signals, ()) = state.step(letter(seen, at));
        said.extend(signals.signals());
        state = next;
    }
    said
}

#[test]
fn a_target_that_never_answered_is_not_the_same_as_a_stalled_stream() {
    let said = run_silence(SilenceInstrument::after(1_500), vec![(None, 0), (None, 2_000)]);
    assert_eq!(said, vec![Distress::NoBytes]);
}

#[test]
fn a_client_retransmit_does_not_reset_the_silence_clock() {
    let said = run_silence(
        SilenceInstrument::after(1_500),
        vec![
            (Some(Seen::Payload { head: vec![0x16, 0x03, 0x01], from_client: true }), 0),
            (None, 500),
            (Some(Seen::Resent { count: 517 }), 1_000),
            (None, 1_600),
        ],
    );
    assert_eq!(
        said,
        vec![Distress::NoBytes],
        "повтор клиента сбросил часы молчания — тихий дроп с ретрансмиссией не пойман"
    );
}

#[test]
fn a_stream_that_stopped_while_awaited_is_silence() {
    let said = run_silence(
        SilenceInstrument::after(1_500),
        vec![
            (Some(Seen::Received { count: 4_096 }), 0),
            (Some(Seen::Sent { count: 100 }), 10),
            (None, 2_000),
        ],
    );
    assert_eq!(said, vec![Distress::Silence { ms: 1_990 }]);
}

#[test]
fn an_idle_keepalive_is_not_trouble() {
    let said = run_silence(
        SilenceInstrument::after(1_500),
        vec![
            (Some(Seen::Sent { count: 100 }), 0),
            (Some(Seen::Received { count: 4_096 }), 10),
            (None, 2_000),
        ],
    );
    assert_eq!(said, Vec::<Distress>::new());
}

#[test]
fn after_a_goodbye_the_ticks_accuse_no_one() {
    let said = run_silence(
        SilenceInstrument::after(1_500),
        vec![
            (Some(Seen::Sent { count: 100 }), 0),
            (Some(Seen::Closed { by_client: true }), 10),
            (None, 2_000),
        ],
    );
    assert_eq!(said, Vec::<Distress>::new());
}

#[test]
fn it_complains_once_per_conversation() {
    let said = run_silence(SilenceInstrument::after(1_500), vec![(None, 0), (None, 2_000), (None, 4_000)]);
    assert_eq!(said, vec![Distress::NoBytes]);
}

#[test]
fn a_target_that_slowed_below_its_own_proven_rate_is_trouble() {
    let said = run_throttled(
        ThrottledInstrument::over(1_000),
        vec![
            (Some(SeenTcp::sent(100)), 0),
            (Some(SeenTcp::received(1_000_000)), 10),
            (None, 1_000),
            (Some(SeenTcp::received(40_000)), 1_100),
            (None, 2_000),
            (Some(SeenTcp::received(40_000)), 2_100),
            (None, 3_000),
            (Some(SeenTcp::received(40_000)), 3_100),
            (None, 4_000),
        ],
    );
    assert_eq!(said, vec![Distress::Throttled { bps: 40_000 }]);
}

#[test]
fn a_steadily_slow_target_is_not_accused() {
    let said = run_throttled(
        ThrottledInstrument::over(1_000),
        vec![
            (Some(SeenTcp::sent(100)), 0),
            (Some(SeenTcp::received(40_000)), 10),
            (None, 1_000),
            (Some(SeenTcp::received(40_000)), 1_100),
            (None, 2_000),
            (Some(SeenTcp::received(40_000)), 2_100),
            (None, 3_000),
            (Some(SeenTcp::received(40_000)), 3_100),
            (None, 4_000),
        ],
    );
    assert_eq!(said, Vec::<Distress>::new());
}

#[test]
fn choking_needs_both_demand_and_patience() {
    let no_demand = run_choked(ChokedInstrument::after(0, 1_000), vec![(None, 0), (None, 5_000)]);
    let too_early = run_choked(
        ChokedInstrument::after(0, 1_000),
        vec![(Some(Seen::Sent { count: 100 }), 0), (None, 348)],
    );
    let waited = run_choked(
        ChokedInstrument::after(0, 1_000),
        vec![(Some(Seen::Sent { count: 100 }), 0), (None, 1_500)],
    );
    assert_eq!(no_demand, Vec::<Distress>::new());
    assert_eq!(too_early, Vec::<Distress>::new());
    assert_eq!(waited, vec![Distress::NoBytes]);
}

#[test]
fn a_target_that_once_proved_itself_is_spared() {
    let said = run_choked(
        ChokedInstrument::after(1_000_000, 1_000),
        vec![(Some(Seen::Sent { count: 100 }), 0), (None, 5_000)],
    );
    assert_eq!(said, Vec::<Distress>::new());
}

#[test]
fn a_reset_before_the_target_ever_answered_is_trouble() {
    let said = run_rst(
        RstInstrument::new(),
        vec![SeenTcp::Syn, SeenTcp::Handshaken, SeenTcp::Rst { by: ResetBy::TargetSide }],
    );
    assert_eq!(said, vec![Distress::Rst]);
}

#[test]
fn a_reset_after_the_target_answered_is_an_ordinary_goodbye() {
    let said = run_rst(
        RstInstrument::new(),
        vec![SeenTcp::Syn, SeenTcp::received(4096), SeenTcp::Rst { by: ResetBy::TargetSide }],
    );
    assert_eq!(said, Vec::<Distress>::new());
}

#[test]
fn it_says_it_once_however_many_resets_arrive() {
    let said = run_rst(
        RstInstrument::new(),
        vec![SeenTcp::Rst { by: ResetBy::TargetSide }, SeenTcp::Rst { by: ResetBy::TargetSide }],
    );
    assert_eq!(said, vec![Distress::Rst]);
}

#[test]
fn neither_the_person_nor_our_own_order_is_the_targets_fault() {
    let ours = run_rst(RstInstrument::new(), vec![SeenTcp::Rst { by: ResetBy::Ourselves }]);
    let person = run_rst(RstInstrument::new(), vec![SeenTcp::Rst { by: ResetBy::Person }]);
    assert_eq!(ours, Vec::<Distress>::new());
    assert_eq!(person, Vec::<Distress>::new());
}

#[test]
fn a_head_from_the_target_counts_as_having_answered() {
    let said = run_rst(
        RstInstrument::new(),
        vec![SeenTcp::payload(vec![1, 2, 3], false), SeenTcp::Rst { by: ResetBy::TargetSide }],
    );
    assert_eq!(said, Vec::<Distress>::new());
}

#[test]
fn a_repeated_syn_without_handshake_is_a_blackhole() {
    let said = run_syn_drop(vec![(Some(SeenTcp::Syn), 0), (Some(SeenTcp::Syn), 1_000)]);
    assert_eq!(said, vec![Distress::Blackhole { after_ms: 1_000 }]);
}

#[test]
fn a_completed_handshake_clears_the_suspicion() {
    let said = run_syn_drop(vec![
        (Some(SeenTcp::Syn), 0),
        (Some(SeenTcp::Handshaken), 30),
        (Some(SeenTcp::Syn), 1_000),
    ]);
    assert!(said.is_empty(), "путь жив, а прибор объявил blackhole");
}

#[test]
fn a_single_syn_is_not_yet_a_blackhole() {
    let said = run_syn_drop(vec![(Some(SeenTcp::Syn), 0), (None, 5_000)]);
    assert!(said.is_empty());
}

#[test]
fn the_silence_instrument_notes_what_it_measured() {
    let state = SilenceInstrument::after(1_500);
    let (state, _, noted) = state.step(DetectorEvent::Tick { node: 0, at: 100 });
    assert!(noted.is_none(), "nothing to measure from before the clock is wound");
    let (_, _, noted) = state.step(DetectorEvent::Tick { node: 1, at: 400 });
    let noted = noted.expect("the clock was wound by the first tick");
    assert_eq!(noted.since_ms, 300);
    assert_eq!(noted.bytes, 0);
}
