use reflex_instrument::distress::{Assertion, Distress};
use reflex_instrument::edge_detect::Relief;

#[test]
fn a_word_of_trouble_carries_the_age_of_the_observation() {
    let seen_at = 1_000_000;
    let spoken = Distress::NoBytes.aged(seen_at, seen_at + 3_000);
    assert_eq!(spoken.since, 3_000);
    assert_eq!(spoken.distress, Distress::NoBytes, "сама беда не меняется — к ней добавлен возраст");
}

#[test]
fn a_freshly_spoken_word_has_a_zero_age() {
    let now = 42;
    assert_eq!(Distress::Rst.aged(now, now).since, 0);
}

#[test]
fn an_age_never_runs_backwards() {
    assert_eq!(Distress::Rst.aged(10, 5).since, 0);
}

#[test]
fn the_alphabet_is_weighed_as_its_docblocks_say() {
    let suspicions = [
        Distress::Retransmit { after_ms: 300 },
        Distress::Silence { ms: 1_600 },
        Distress::Throttled { bps: 600 },
    ];
    assert!(suspicions.iter().all(|word| word.assertion() == Assertion::Suspicion));

    let diagnoses = [
        Distress::Rst,
        Distress::NoBytes,
        Distress::Blackhole { after_ms: 1_000 },
        Distress::Unreached { retries: 3 },
        Distress::Swallowed { after_ms: 1_200 },
        Distress::Dismissed { after_ms: 30 },
        Distress::HelloDropped { retries: 3, after_ms: 1_220 },
        Distress::HelloMuted { rtt_ms: 2, after_ms: 400 },
        Distress::Poisoned,
    ];
    assert!(diagnoses.iter().all(|word| word.assertion() == Assertion::Diagnosis));

    assert_eq!(Distress::Diverged { theirs: 1 }.assertion(), Assertion::Finding);
}

#[test]
fn each_disease_of_the_opening_is_relieved_by_its_own_measure() {
    assert_eq!(Distress::Blackhole { after_ms: 1_000 }.relief(), Relief::Answered);
    assert_eq!(Distress::HelloDropped { retries: 3, after_ms: 1_220 }.relief(), Relief::Acknowledged);
    assert_eq!(
        Distress::HelloMuted { rtt_ms: 2, after_ms: 400 }.relief(),
        Relief::ServerHello,
        "подтверждение даёт и заглушённая цель — снятие только её приветствие (#348)"
    );
    assert_eq!(Distress::Poisoned.relief(), Relief::Unknown);
}

#[test]
fn a_disease_carries_its_time_only_if_the_letter_does() {
    assert_eq!(Distress::HelloMuted { rtt_ms: 2, after_ms: 400 }.after(), Some(400));
    assert_eq!(Distress::Unreached { retries: 3 }.after(), None);
}

#[test]
fn each_letter_has_its_public_name_and_its_quantity() {
    assert_eq!(Distress::NoBytes.name(), "no_bytes");
    assert_eq!(Distress::HelloMuted { rtt_ms: 2, after_ms: 400 }.name(), "hello_muted");
    assert_eq!(Distress::Silence { ms: 1_990 }.detail(), "1990 мс без байтов");
    assert_eq!(Distress::Throttled { bps: 40_960 }.detail(), "40 КБ/с");
    assert_eq!(Distress::Rst.detail(), "");
    assert!(Distress::Diverged { theirs: 0x0055_0000 }.detail().ends_with("0x00550000"));
    assert!(Distress::Rst.alarming());
}
