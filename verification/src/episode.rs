//! The end of an episode: whether the viewing is over, and how. The domain remembers the episode
//! (its moments, the sign of leaving); the instrument decides what that MEANS, by thresholds of its
//! own.
use vstd::prelude::*;

use crate::ask::{LastSeen, OpenedAt, PersonLeft};
use crate::detect::elapsed;
use crate::event::DetectorEvent;
use crate::said::{ending_said, seq_of, Said};
use crate::{Cadence, Instrument, Layer, Protocol, Rung, Shape, Sheet, Silence, Subject};

verus! {

/// How much inactivity counts as leaving: a minute, in milliseconds.
pub const EPISODE_IDLE: u64 = 60_000;

/// The ceiling of waiting: half an hour, in milliseconds. After it the episode is over EVEN if the
/// person is still here: a statement about us, not about them.
pub const EPISODE_CEILING: u64 = 1_800_000;

/// How an episode ended: three cases of different reliability, so not merged.
#[derive(Debug, Clone, Copy, PartialEq, Eq, Structural)]
pub enum Ending {
    /// Leaving was seen on the wire, at the moment of leaving.
    Abandoned,
    /// Leaving was inferred from inactivity longer than `EPISODE_IDLE`.
    Idle,
    /// The ceiling `EPISODE_CEILING`: we will not wait longer, but must say so.
    Ceiling,
}

/// An episode of viewing: an area of its own outside the conversation, which outlives its
/// conversations and ends after the last of them. The subject of the instrument about a person.
pub struct Episode;

/// The instrument of the end of an episode, parameterised by what it is given.
pub struct EpisodeInstrument<W> {
    given: core::marker::PhantomData<W>,
}

/// What the moments and the sign of leaving mean at `now`: nothing without both moments; a seen
/// leaving first (it outranks inference by time); then inactivity; then the ceiling.
pub open spec fn ending_of(opened: Option<u64>, last: Option<u64>, left: bool, now: u64) -> Option<Ending> {
    match (opened, last) {
        (Some(o), Some(l)) => if left {
            Some(Ending::Abandoned)
        } else if elapsed(l, now) >= EPISODE_IDLE {
            Some(Ending::Idle)
        } else if elapsed(o, now) >= EPISODE_CEILING {
            Some(Ending::Ceiling)
        } else {
            None
        },
        _ => None,
    }
}

/// What the moments and the sign of leaving mean at `now`.
pub fn ending(opened: Option<u64>, last: Option<u64>, left: bool, now: u64) -> (r: Option<Ending>)
    ensures
        r == ending_of(opened, last, left, now),
{
    match (opened, last) {
        (Some(o), Some(l)) => {
            if left {
                Some(Ending::Abandoned)
            } else if now.saturating_sub(l) >= EPISODE_IDLE {
                Some(Ending::Idle)
            } else if now.saturating_sub(o) >= EPISODE_CEILING {
                Some(Ending::Ceiling)
            } else {
                None
            }
        },
        _ => None,
    }
}

/// A seen leaving outranks the ceiling: whatever the moments, a seen leaving ends the episode at
/// once as `Abandoned`.
pub proof fn seen_leaving_outranks_time(opened: u64, last: u64, now: u64)
    ensures
        ending_of(Some(opened), Some(last), true, now) == Some(Ending::Abandoned),
{
}

impl<W> EpisodeInstrument<W> {
    pub fn new() -> Self {
        EpisodeInstrument { given: core::marker::PhantomData }
    }
}

impl<W: OpenedAt + LastSeen + PersonLeft> EpisodeInstrument<W> {
    /// Asks the window its moments and whether the person left, and judges them at `now` (`ending`).
    pub fn read(&self, observation: &(W, u64), now_ms: u64) -> (r: Option<Ending>)
        ensures
            r == ending_of(observation.0.opened(), observation.0.last(), observation.0.left(), observation.1),
    {
        let window = &observation.0;
        let now = observation.1;
        let opened = window.opened_at();
        let last = window.last_seen();
        let left = window.person_left();
        ending(opened, last, left, now)
    }

    /// One letter: an observation is read; the rest says nothing.
    pub fn step(self, event: DetectorEvent<(W, u64)>) -> (r: (Self, Said<Ending>, ()))
        ensures
            match event {
                DetectorEvent::Packet { input, .. } =>
                    ending_said(r.1) == seq_of(ending_of(input.0.opened(), input.0.last(), input.0.left(), input.1)),
                _ => ending_said(r.1) == Seq::<Ending>::empty(),
            },
    {
        match event {
            DetectorEvent::Packet { input, .. } => {
                let reading = self.read(&input, 0);
                (self, Said::of_ending(reading), ())
            },
            _ => (self, Said::of_ending(None), ()),
        }
    }
}

impl<W: OpenedAt + LastSeen + PersonLeft> Instrument for EpisodeInstrument<W> {
    type Signal = Ending;

    open spec fn public_name() -> Seq<char> {
        "episode"@
    }

    fn sheet() -> (r: Sheet) {
        let protocols: &'static [Protocol] = &[];
        assert(protocols@ =~= Seq::<Protocol>::empty());
        Sheet {
            instrument: "episode",
            subject: Subject::Person,
            layer: Layer::Application,
            protocols,
            type_path: "reflex_instrument::episode::EpisodeInstrument",
            rung: None,
            cadence: Cadence::Own { step_ms: EPISODE_IDLE },
            shape: Shape::Event,
            silence: Some(Silence::Nothing),
            lies: &[
        "ДВА ИСХОДА ИЗ ТРЁХ — ВЫВОД, А НЕ НАБЛЮДЕНИЕ. `Idle` и `Ceiling` говорят о том, чего мы \
         НЕ ВИДЕЛИ (человек молчит), и потому опаздывают на порог: уход, случившийся на первой \
         секунде минуты, будет назван через минуту.",
        "`Ceiling` ЕСТЬ УТВЕРЖДЕНИЕ О НАС. Человек может быть ещё здесь и смотреть; прибор \
         сообщает, что мы перестали ждать, — и путать это с уходом значит считать своим знанием \
         своё нетерпение.",
        "ПОРОГИ НЕ ЗНАЮТ ПРЕДМЕТА. Минута бездействия для чтения статьи и для видеозвонка \
         значат разное; прибор одинаков для обоих, потому что о предмете не спрашивает.",
        "СРОК ПРОВАЛЕН, И ЭТО ЧЕТВЁРТЫЙ МНОЖИТЕЛЬ ГОДНОСТИ. Человек уходит и возвращается к \
         своим делам за секунды, а `Idle` приходит через минуту после его ухода: прибор \
         высказывается ПОЗЖЕ, чем предмет успевает измениться. Часы у него свои и исправны — \
         провален не механизм, а СРОК, и лечится это порогом, зависящим от предмета, а не более \
         частым опросом.",
    ],
            oracles: &["abandon(rutracker.org,3)", "pass"],
            death: "пороги зависят от предмета; минута перестала быть универсальной",
            events: &["episode_abandoned", "episode_idle", "episode_ceiling"],
        }
    }

    fn name(signal: &Ending) -> (r: &'static str)
        ensures
            r@ == (match *signal {
                Ending::Abandoned => "episode_abandoned"@,
                Ending::Idle => "episode_idle"@,
                Ending::Ceiling => "episode_ceiling"@,
            }),
    {
        match signal {
            Ending::Abandoned => "episode_abandoned",
            Ending::Idle => "episode_idle",
            Ending::Ceiling => "episode_ceiling",
        }
    }

    fn alarming(signal: &Ending) -> (r: bool)
        ensures
            r == (*signal == Ending::Abandoned),
    {
        match signal {
            Ending::Abandoned => true,
            Ending::Idle | Ending::Ceiling => false,
        }
    }
}

} // verus!
