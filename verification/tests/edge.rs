use reflex_instrument::distress::Distress;
use reflex_instrument::edge::{Layout, Memo, Phase};
use reflex_instrument::edge_detect::EdgeSilence;
use reflex_instrument::edge_word::{seen_of, seen_tcp_of, EdgeReading, Edged};
use reflex_instrument::event::DetectorEvent;
use reflex_instrument::wire::{Reading, Seen, SeenTcp};

fn layout() -> Layout {
    Layout::new(0x0FFF_E000, 0b101).expect("15-битная маска, ненулевой тег")
}

fn view(down_packets: u64, down_bytes: u64, up: u64, age_ms: u64) -> EdgeReading {
    EdgeReading {
        down_packets: Some(down_packets),
        up_packets: Some(up),
        down_bytes: Some(down_bytes),
        age_ms: Some(age_ms),
        idle_ms: Some(age_ms),
        mark: 0,
    }
}

fn with_mark(mut edge: EdgeReading, mark: u32) -> EdgeReading {
    edge.mark = mark;
    edge
}

fn packet(edge: EdgeReading) -> DetectorEvent<Edged<Option<Seen>, Option<EdgeReading>>> {
    DetectorEvent::Packet { input: Edged { narrow: Some(Seen::Received { count: 1 }), edge: Some(edge) }, at: 0 }
}

/// Steps the instrument over the ages, carrying the mark as the edge would.
fn over_ages(instrument: EdgeSilence, base: EdgeReading, ages: &[u64]) -> Vec<Distress> {
    let mut mark = base.mark;
    let mut said = Vec::new();
    for age in ages {
        let edge = EdgeReading { age_ms: Some(*age), idle_ms: Some(*age), mark, ..base };
        let (_, verdict, ()) = instrument.step(packet(edge));
        if let Some(memo) = verdict.memo {
            mark = memo.apply_to(mark);
        }
        said.extend(verdict.said.signals());
    }
    said
}

// The edge watch names a silent target by the conversation's AGE, never on the first packet that
// shows no reply, and it measures no idle time at all: a flow without a reply is first only
// suspected, and is named (`Blackhole` or `NoBytes`) once its age passes the threshold. So there is
// no case here for "no reply at all is named on the first packet" nor for a `Silence` measured by
// the kernel's idle clock: both would contradict that design; the two cases below are its
// counterparts.
#[test]
fn no_knock_answered_is_a_blackhole_once_the_age_passes() {
    let said = over_ages(EdgeSilence::new(2_000, layout()), view(4, 1_200, 0, 0), &[500, 2_500, 3_000]);
    assert_eq!(said, vec![Distress::Blackhole { after_ms: 2_500 }]);
}

#[test]
fn a_target_that_answered_only_the_knock_after_the_client_spoke_is_no_bytes() {
    let said = over_ages(EdgeSilence::new(2_000, layout()), view(4, 1_200, 1, 0), &[500, 2_500, 3_000]);
    assert_eq!(said, vec![Distress::NoBytes]);
}

#[test]
fn a_silent_client_is_not_a_silent_drop() {
    let said = over_ages(EdgeSilence::new(5_000, layout()), view(1, 60, 5, 0), &[500, 6_000]);
    assert!(said.is_empty(), "ответ цели есть — беды нет");
}

#[test]
fn a_target_that_came_alive_is_released_for_good() {
    let instrument = EdgeSilence::new(2_000, layout());
    let suspected = Memo::new(layout(), Phase::Suspected, 0).apply_to(0);
    let (_, verdict, ()) = instrument.step(packet(with_mark(view(4, 1_200, 2, 3_000), suspected)));
    let memo = verdict.memo.expect("the release is written");
    assert_eq!(memo.phase, Phase::Released);
    assert_eq!(memo.imprint, 2);
    assert!(verdict.said.signals().is_empty());
}

#[test]
fn unknown_counters_are_not_a_silent_drop() {
    let edge = EdgeReading { down_packets: None, up_packets: None, down_bytes: None, age_ms: None, idle_ms: None, mark: 0 };
    let (_next, verdict, ()) = EdgeSilence::new(5_000, layout()).step(packet(edge));
    assert!(verdict.said.signals().is_empty(), "не считали — не тишина");
    assert!(verdict.memo.is_none());
}

#[test]
fn a_told_flow_stays_silent_on_the_next_packet() {
    let told = Memo::new(layout(), Phase::Confirmed, 3).apply_to(0);
    let (_next, verdict, ()) =
        EdgeSilence::new(5_000, layout()).step(packet(with_mark(view(2, 1_200, 0, 114_000), told)));
    assert!(verdict.said.signals().is_empty(), "повторно не жалуемся");
    assert!(verdict.memo.is_none());
}

#[test]
fn the_instrument_is_stateless() {
    let instrument = EdgeSilence::new(5_000, layout());
    let (again, first, ()) = instrument.step(packet(view(4, 1_200, 0, 114_000)));
    let (_, second, ()) = again.step(packet(view(4, 1_200, 0, 114_000)));
    assert_eq!(first.said.signals(), second.said.signals(), "исход зависит от края, не от прожитого");
    assert_eq!(first.memo.map(|m| (m.phase, m.imprint)), second.memo.map(|m| (m.phase, m.imprint)));
}

#[test]
fn a_foreign_writer_is_observed() {
    let alien = 0x0055_0000;
    let (_next, verdict, ()) =
        EdgeSilence::new(5_000, layout()).step(packet(with_mark(view(2, 1_200, 0, 114_000), alien)));
    assert_eq!(verdict.said.signals(), vec![Distress::Diverged { theirs: alien }]);
    assert!(verdict.memo.is_none(), "чужие биты не трогаем");
}

#[test]
fn a_tick_reads_no_edge() {
    let (_next, verdict, ()) = EdgeSilence::new(5_000, layout()).step(DetectorEvent::Tick { node: 0, at: 0 });
    assert!(verdict.said.signals().is_empty() && verdict.memo.is_none());
}

#[test]
fn one_edge_instrument_speaks_once() {
    let blackhole = EdgeSilence::new(2_000, layout());
    let said = over_ages(blackhole, view(4, 1_200, 0, 0), &[500, 2_500, 3_000, 3_500]);
    assert_eq!(said.len(), 1, "гейт молчания: беда называется единожды");
}

#[test]
fn two_writers_over_one_mark_break_the_gate_of_silence() {
    let blackhole = EdgeSilence::new(2_000, layout());
    let silence = EdgeSilence::new(5_000, layout());
    let mut mark = 0u32;
    let mut said = Vec::new();
    for age in [500u64, 2_500, 3_000, 3_500] {
        let edge = with_mark(view(4, 1_200, 0, age), mark);
        let (_, b, ()) = blackhole.step(packet(edge));
        let (_, s, ()) = silence.step(packet(edge));
        if let Some(memo) = s.memo.or(b.memo) {
            mark = memo.apply_to(mark);
        }
        said.extend(b.said.signals());
        said.extend(s.said.signals());
    }
    let blackholes = said.iter().filter(|d| matches!(d, Distress::Blackhole { .. })).count();
    assert_eq!(blackholes, 3, "беда называется на КАЖДОМ пакете, а не однажды");
}

#[test]
fn a_wire_instrument_narrows_past_the_edge_view() {
    let wide = (Reading::Udp(Seen::Sent { count: 1 }), ());
    assert!(matches!(seen_of(wide), Some(Seen::Sent { count: 1 })), "провод читается сквозь пару");
}

#[test]
fn a_tcp_instrument_narrows_past_the_edge_view() {
    let wide = (Reading::Tcp(SeenTcp::Syn), ());
    assert_eq!(seen_tcp_of(wide), Some(SeenTcp::Syn));
}

#[test]
fn edged_carries_both_wire_and_view() {
    let wide = (Reading::Udp(Seen::Sent { count: 1 }), 42u32);
    let edged = Edged::read(wide).expect("сузилось");
    assert!(matches!(edged.narrow, Some(Seen::Sent { count: 1 })), "провод взят");
    assert_eq!(edged.edge, 42, "вид края взят");
}

#[test]
fn the_edge_arrives_even_where_the_wire_does_not_narrow() {
    let syn = (Reading::Tcp(SeenTcp::Syn), 7u32);
    let edged = Edged::read(syn).expect("край доходит");
    assert!(edged.narrow.is_none(), "провод невыразим в общем словаре");
    assert_eq!(edged.edge, 7, "край на месте: прибор увидит пакет");
}
