//! The letter a detector is fed: an observation, a tick of the clock, something not understood, or a
//! tear in the stream. Time is carried as milliseconds since an origin the runner chooses.
use vstd::prelude::*;

verus! {

/// One letter of a detector's input.
#[derive(Debug, Clone, PartialEq, Eq)]
pub enum DetectorEvent<T> {
    /// An observation of the wire, seen at `at` (milliseconds).
    Packet { input: T, at: u64 },
    /// A tick of the clock: node of the grid and the moment.
    Tick { node: u64, at: u64 },
    /// Something arrived that the reader did not understand; it hides nothing the detector counts.
    Opaque { at: u64 },
    /// A hole in the stream: observations may have been lost here.
    Torn { at: u64 },
}

impl<T> DetectorEvent<T> {
    /// When the letter happened.
    pub open spec fn spec_at(&self) -> u64 {
        match self {
            DetectorEvent::Packet { at, .. } => *at,
            DetectorEvent::Tick { at, .. } => *at,
            DetectorEvent::Opaque { at } => *at,
            DetectorEvent::Torn { at } => *at,
        }
    }

    /// When the letter happened.
    #[verifier::when_used_as_spec(spec_at)]
    pub fn at(&self) -> (r: u64)
        ensures
            r == self.spec_at(),
    {
        match self {
            DetectorEvent::Packet { at, .. } => *at,
            DetectorEvent::Tick { at, .. } => *at,
            DetectorEvent::Opaque { at } => *at,
            DetectorEvent::Torn { at } => *at,
        }
    }

    /// Whether the letter may have swallowed observations: only a tear does.
    pub open spec fn spec_hides_observation(&self) -> bool {
        self is Torn
    }

    /// Whether the letter may have swallowed observations: only a tear does.
    #[verifier::when_used_as_spec(spec_hides_observation)]
    pub fn hides_observation(&self) -> (r: bool)
        ensures
            r == self.spec_hides_observation(),
    {
        match self {
            DetectorEvent::Torn { .. } => true,
            _ => false,
        }
    }
}

} // verus!
