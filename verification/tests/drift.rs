use reflex_instrument::drift::{own_series, HistoryInstrument, Point};
use reflex_instrument::{Cadence, Instrument, Silence};

fn point(at: u64, clean: usize) -> Point {
    Point {
        at,
        technique: "prepend-disorder".to_string(),
        profile: "default".to_string(),
        alive: 289,
        pierced: clean,
        clean,
        content: 163,
    }
}

#[test]
fn a_point_survives_write_and_read() {
    let original = point(1_756_000_000, 259);
    let parsed = Point::from_row(&original.to_row());
    assert_eq!(parsed, Some(original));
    assert_eq!(Point::from_row("at\tтехника\tпрофиль\tживых\tпробито\tчисто\tресурс"), None);
    assert_eq!(Point::from_row("мусор"), None);
}

#[test]
fn the_series_instrument_is_the_only_one_of_its_cadence() {
    let sheet = HistoryInstrument::sheet();
    assert_eq!(sheet.cadence, Cadence::Series);
    assert!(sheet.lies.iter().any(|lie| lie.contains("СВЕРХБИНОМИАЛЬНОСТИ")));
}

#[test]
fn an_empty_series_is_blindness_in_the_passport() {
    assert_eq!(HistoryInstrument::sheet().silence, Some(Silence::Blind));
}

#[test]
fn a_row_is_seven_tab_separated_fields() {
    assert_eq!(point(7, 3).to_row(), "7\tprepend-disorder\tdefault\t289\t3\t3\t163");
}

#[test]
fn numbers_read_as_an_unsigned_parse_reads_them() {
    let read = Point::from_row("+12\tt\tp\t1\t2\t3\t4").expect("a plus sign is allowed");
    assert_eq!(read.at, 12);
    assert_eq!(Point::from_row("-1\tt\tp\t1\t2\t3\t4"), None);
    assert_eq!(Point::from_row("\tt\tp\t1\t2\t3\t4"), None);
    assert_eq!(Point::from_row("18446744073709551616\tt\tp\t1\t2\t3\t4"), None);
    assert_eq!(
        Point::from_row("18446744073709551615\tt\tp\t1\t2\t3\t4").map(|p| p.at),
        Some(u64::MAX)
    );
    assert_eq!(Point::from_row("1\tt\tp\t1\t2\t3\t4\t5"), None);
}

#[test]
fn the_own_series_keeps_the_same_technique_and_profile_with_living_targets() {
    let mut foreign = point(2, 200);
    foreign.technique = "multisplit".to_string();
    let mut dead = point(3, 0);
    dead.alive = 0;
    let series = vec![point(1, 250), foreign, dead, point(4, 255)];
    let fresh = point(5, 259);
    assert_eq!(own_series(&series, &fresh), vec![0, 3]);
    assert_eq!(own_series(&[], &fresh), Vec::<usize>::new());
}
