use reflex_instrument::detect::{Measured, SilenceInstrument, Watch};
use reflex_instrument::distress::Distress;
use reflex_instrument::event::DetectorEvent;
use reflex_instrument::wire::Seen;

const PATIENCE: u64 = 1_500;

fn a_stalled_stream() -> Vec<DetectorEvent<Seen>> {
    vec![(Some(Seen::Received { count: 4_096 }), 0u64), (Some(Seen::Sent { count: 100 }), 10), (None, 2_000)]
        .into_iter()
        .map(|(seen, at)| match seen {
            Some(seen) => DetectorEvent::Packet { input: seen, at },
            None => DetectorEvent::Tick { node: at, at },
        })
        .collect()
}

#[test]
fn nothing_measured_before_the_first_observation() {
    let (_, _, noted) = SilenceInstrument::after(PATIENCE).step(DetectorEvent::Tick { node: 1, at: PATIENCE });
    assert_eq!(noted, None, "мерить не от чего: наблюдений ещё не было, и показание пусто");
}

#[test]
fn the_measurement_leaves_as_a_value() {
    let mut machine = SilenceInstrument::after(PATIENCE);
    let mut noted = Vec::new();
    for event in a_stalled_stream() {
        let (next, _, note) = machine.step(event);
        machine = next;
        noted.extend(note);
    }
    let last = noted.last().expect("прибор обязан отметить, чем мерил");
    assert_eq!(last.bytes, 4_096, "показание несёт ЗНАЧЕНИЕ, которым решали");
    assert!(last.awaiting, "и ось, без которой решение необъяснимо");
}

fn tick(machine: SilenceInstrument, at: u64) -> (SilenceInstrument, Vec<Distress>, Option<Measured>) {
    let (next, word, noted) = machine.step(DetectorEvent::Tick { node: at, at });
    (next, word.signals(), noted)
}

fn packet(machine: SilenceInstrument, seen: Seen, at: u64) -> SilenceInstrument {
    machine.step(DetectorEvent::Packet { input: seen, at }).0
}

fn wound(seen: Seen) -> SilenceInstrument {
    packet(tick(SilenceInstrument::after(PATIENCE), 0).0, seen, 10)
}

#[test]
fn the_watch_axis_tells_the_three_silences_apart() {
    let (_, calm, no_reason) = tick(wound(Seen::Received { count: 4_096 }), 4_000);
    let no_reason = no_reason.expect("часы заведены — мерить есть от чего");
    assert!(calm.is_empty(), "молчащей беды здесь нет");
    assert_eq!(no_reason.watch, Watch::Open, "смотрим и готовы пожаловаться");

    let (fired, complaint, _) = tick(wound(Seen::Sent { count: 100 }), 2_000);
    assert!(!complaint.is_empty(), "порог истёк — беда обязана прозвучать");
    let (_, silent, after_the_complaint) = tick(fired, 4_000);
    assert!(silent.is_empty(), "второй раз о том же не жалуемся");
    let after_the_complaint = after_the_complaint.expect("часы идут и после жалобы");

    let closed = packet(wound(Seen::Sent { count: 100 }), Seen::Closed { by_client: false }, 10);
    let (_, mute, after_the_farewell) = tick(closed, 4_000);
    assert!(mute.is_empty(), "цель попрощалась — молчание её не улика");
    let after_the_farewell = after_the_farewell.expect("часы идут и после прощания");

    assert_eq!(
        after_the_complaint,
        Measured { watch: Watch::Fired, ..after_the_farewell },
        "«уже сказали» и «разговор кончился» различает одна четвёртая ось"
    );
    assert_eq!(after_the_farewell.watch, Watch::Ended);
    assert_ne!(no_reason.watch, after_the_complaint.watch);
}
