use reflex_instrument::fate::{all, observe, Delivery, Fate, Observed, ObservedInstrument};
use reflex_instrument::{Instrument, Silence};

/// The reading of an arm under the true fate `f`: the inverse of the model, to check `Sound` on code.
fn leg_of(f: Fate) -> (bool, Delivery) {
    match f {
        Fate::Dead => (false, Delivery::Silent),
        Fate::Trap => (true, Delivery::Silent),
        Fate::Mirage => (true, Delivery::Delivered),
        Fate::Grinding => (true, Delivery::Delivered),
        Fate::Good => (true, Delivery::Delivered),
    }
}

#[test]
fn every_fate_lies_inside_its_own_circle() {
    all().iter().for_each(|f| {
        let (connected, delivery) = leg_of(*f);
        let seen = observe(connected, delivery);
        assert!(
            seen.admits().contains(f),
            "судьба {f:?} вне круга показания {}: прибор утверждает больше, чем установил",
            seen.name()
        );
    });
}

#[test]
fn silence_after_a_handshake_is_not_death() {
    let seen = observe(true, Delivery::Silent);
    assert_eq!(seen, Observed::Mute);
    assert!(!seen.admits().contains(&Fate::Dead));
}

#[test]
fn a_contradiction_does_not_pass_itself_off_as_success() {
    let seen = observe(false, Delivery::Delivered);
    assert_eq!(seen, Observed::Inconsistent);
    assert_eq!(seen.admits().len(), all().len());
}

#[test]
fn an_abandoned_leg_establishes_nothing_either_way() {
    assert_eq!(observe(true, Delivery::Abandoned), Observed::Unobserved);
    assert_eq!(observe(false, Delivery::Abandoned), Observed::Unobserved);
}

#[test]
fn every_observation_admits_at_least_one_fate() {
    let every = [
        Observed::NoConnect,
        Observed::Mute,
        Observed::Bytes,
        Observed::Unobserved,
        Observed::Inconsistent,
    ];
    assert!(every.iter().all(|o| !o.admits().is_empty()));
}

#[test]
fn bytes_alone_admit_three_fates() {
    assert_eq!(Observed::Bytes.admits().len(), 3);
    assert!(Observed::Bytes.admits().contains(&Fate::Mirage));
}

#[test]
fn an_abandoned_leg_narrows_nothing() {
    assert_eq!(Observed::Unobserved.admits().len(), all().len());
}

#[test]
fn only_a_fruitless_wait_forced_by_the_server_counts_as_wasted() {
    assert!(Observed::NoConnect.wasted_the_wait());
    assert!(Observed::Mute.wasted_the_wait());
    assert!(!Observed::Bytes.wasted_the_wait());
    assert!(!Observed::Unobserved.wasted_the_wait());
}

#[test]
fn the_passport_hands_back_a_circle_not_a_fate() {
    assert_eq!(ObservedInstrument.read(&Observed::NoConnect, 0), &[Fate::Dead]);
    assert_eq!(
        ObservedInstrument.read(&Observed::Bytes, 0).len(),
        3,
        "пассивно `Mirage`, `Grinding` и `Good` не делятся ничем"
    );
    assert_eq!(
        ObservedInstrument.read(&Observed::Inconsistent, 0).len(),
        all().len(),
        "брак прибора обязан давать полный круг, а не сужать его"
    );
}

#[test]
fn the_passport_calls_inconsistency_its_blindness() {
    assert_eq!(ObservedInstrument::sheet().silence, Some(Silence::Blind));
}

#[test]
fn the_passport_admits_nobody_unfolds_the_circle() {
    assert!(
        ObservedInstrument::sheet()
            .lies
            .iter()
            .any(|lie| lie.contains("НЕ РАЗВОРАЧИВАЕТ НИКТО")),
        "закон, исполняемый только собственным тестом, обязан сказать это в паспорте"
    );
}
