use reflex_instrument::Fitness;

#[test]
fn any_single_zero_kills_fitness() {
    let whole = Fitness { discriminates: true, read: true, fed: true, timely: true };
    assert!(whole.sound());

    let zeros = [
        Fitness { discriminates: false, ..whole },
        Fitness { read: false, ..whole },
        Fitness { fed: false, ..whole },
        Fitness { timely: false, ..whole },
    ];
    assert!(zeros.iter().all(|f| !f.sound()));
}

#[test]
fn read_but_unfed_reports_the_wire_not_the_reader() {
    let offers = Fitness { discriminates: true, read: true, fed: false, timely: true };
    assert!(!offers.sound());
    assert!(offers.broken()[0].starts_with("питание"));
}

#[test]
fn unread_reports_the_reader() {
    let admits = Fitness { discriminates: true, read: false, fed: true, timely: true };
    assert!(admits.broken()[0].starts_with("подключённость"));
}

#[test]
fn own_clock_that_ticks_too_slowly_is_still_untimely() {
    let episode = Fitness { discriminates: true, read: true, fed: true, timely: false };
    assert!(!episode.sound());
    assert!(episode.broken()[0].starts_with("срок"));
}

#[test]
fn a_sound_instrument_has_nothing_broken() {
    let whole = Fitness { discriminates: true, read: true, fed: true, timely: true };
    assert!(whole.broken().is_empty());
    let blind = Fitness { discriminates: false, read: true, fed: true, timely: true };
    assert!(blind.broken()[0].starts_with("различение"));
}
