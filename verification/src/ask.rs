//! The questions an instrument asks of what it is given. The instrument lists the questions in its
//! bound; who answers them, and how, is none of its business: the dependency goes one way, and an
//! instrument is checked in isolation with an input built by hand. Each question names its answer
//! as a spec function of the answering value, and the method gives that answer.
use vstd::prelude::*;

verus! {

/// Did the PERSON sever the conversation (not the target, not the path)?
pub trait SeveredByPerson {
    /// The answer of this value.
    spec fn severed(&self) -> bool;

    fn severed_by_person(&self) -> (r: bool)
        ensures
            r == self.severed();
}

/// Did the target deliver what was asked?
pub trait TargetDelivered {
    /// The answer of this value.
    spec fn delivered(&self) -> bool;

    fn target_delivered(&self) -> (r: bool)
        ensures
            r == self.delivered();
}

/// How many conversations the link carries in the window.
pub trait Carrying {
    /// The answer of this value.
    spec fn carried(&self) -> usize;

    fn carrying(&self) -> (r: usize)
        ensures
            r == self.carried();
}

/// How many of them stalled in the window.
pub trait Stalled {
    /// The answer of this value.
    spec fn stalled_count(&self) -> usize;

    fn stalled(&self) -> (r: usize)
        ensures
            r == self.stalled_count();
}

/// When the episode opened, in milliseconds; `None` — not known.
pub trait OpenedAt {
    /// The answer of this value.
    spec fn opened(&self) -> Option<u64>;

    fn opened_at(&self) -> (r: Option<u64>)
        ensures
            r == self.opened();
}

/// When the person was last seen, in milliseconds; `None` — not known.
pub trait LastSeen {
    /// The answer of this value.
    spec fn last(&self) -> Option<u64>;

    fn last_seen(&self) -> (r: Option<u64>)
        ensures
            r == self.last();
}

/// Was the person's leaving seen on the wire?
pub trait PersonLeft {
    /// The answer of this value.
    spec fn left(&self) -> bool;

    fn person_left(&self) -> (r: bool)
        ensures
            r == self.left();
}

} // verus!
