use reflex_instrument::ask::{SeveredByPerson, TargetDelivered};
use reflex_instrument::departure::{DepartureInstrument, Left};

/// An observation built by hand, without a domain type.
struct Watched {
    severed: bool,
    delivered: bool,
}

impl SeveredByPerson for Watched {
    fn severed(&self) -> bool {
        self.severed
    }

    fn severed_by_person(&self) -> bool {
        self.severed
    }
}

impl TargetDelivered for Watched {
    fn delivered(&self) -> bool {
        self.delivered
    }

    fn target_delivered(&self) -> bool {
        self.delivered
    }
}

#[test]
fn a_person_leaving_with_nothing_is_the_trouble() {
    let seen = Watched { severed: true, delivered: false };
    assert_eq!(DepartureInstrument::new().read(&seen, 0), Some(Left::Unserved));
}

#[test]
fn a_person_leaving_served_is_not_trouble() {
    let seen = Watched { severed: true, delivered: true };
    assert_eq!(DepartureInstrument::new().read(&seen, 0), Some(Left::Served));
}

#[test]
fn a_conversation_nobody_left_says_nothing() {
    let seen = Watched { severed: false, delivered: true };
    assert_eq!(DepartureInstrument::<Watched>::new().read(&seen, 0), None);
}
