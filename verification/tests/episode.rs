use reflex_instrument::ask::{LastSeen, OpenedAt, PersonLeft};
use reflex_instrument::episode::{ending, EpisodeInstrument, Ending, EPISODE_CEILING, EPISODE_IDLE};

/// A window built by hand, without a domain type; moments in milliseconds.
struct Window {
    opened: Option<u64>,
    last: Option<u64>,
    left: bool,
}

impl OpenedAt for Window {
    fn opened(&self) -> Option<u64> {
        self.opened
    }

    fn opened_at(&self) -> Option<u64> {
        self.opened
    }
}

impl LastSeen for Window {
    fn last(&self) -> Option<u64> {
        self.last
    }

    fn last_seen(&self) -> Option<u64> {
        self.last
    }
}

impl PersonLeft for Window {
    fn left(&self) -> bool {
        self.left
    }

    fn person_left(&self) -> bool {
        self.left
    }
}

const NOW: u64 = 10_000_000;

#[test]
fn a_seen_departure_closes_the_episode_at_once() {
    let window = Window { opened: Some(NOW), last: Some(NOW), left: true };
    assert_eq!(EpisodeInstrument::new().read(&(window, NOW), 0), Some(Ending::Abandoned));
}

#[test]
fn a_seen_departure_outranks_the_ceiling() {
    let long_ago = NOW - EPISODE_CEILING - 1_000;
    let window = Window { opened: Some(long_ago), last: Some(long_ago), left: true };
    assert_eq!(EpisodeInstrument::new().read(&(window, NOW), 0), Some(Ending::Abandoned));
}

#[test]
fn silence_longer_than_the_threshold_is_inferred_as_idle() {
    let window = Window {
        opened: Some(NOW - 120_000),
        last: Some(NOW - EPISODE_IDLE - 1_000),
        left: false,
    };
    assert_eq!(EpisodeInstrument::new().read(&(window, NOW), 0), Some(Ending::Idle));
}

#[test]
fn a_living_episode_says_nothing() {
    let window = Window { opened: Some(NOW - 10_000), last: Some(NOW), left: false };
    assert_eq!(EpisodeInstrument::<Window>::new().read(&(window, NOW), 0), None);
}

#[test]
fn the_ceiling_ends_an_episode_the_person_never_left() {
    assert_eq!(ending(Some(0), Some(EPISODE_CEILING), false, EPISODE_CEILING), Some(Ending::Ceiling));
    assert_eq!(ending(Some(1), Some(EPISODE_CEILING), false, EPISODE_CEILING), None);
}

#[test]
fn an_episode_without_both_moments_says_nothing() {
    assert_eq!(ending(None, Some(0), true, NOW), None);
    assert_eq!(ending(Some(0), None, true, NOW), None);
}
