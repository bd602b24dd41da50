//! Five instruments of the wire: reset, silence, throttling, choking, IP-blackhole. Each is a Mealy
//! machine: its state travels in its value, its clock comes as a `Tick` letter. The word is
//! `Distress`, addressed to the conversation; the absence of trouble is not a signal.
use vstd::prelude::*;

use crate::distress::{detail_of, name_of, Distress};
use crate::{Cadence, Instrument, Layer, Protocol, Rung, Shape, Sheet, Silence, Subject};
use crate::event::DetectorEvent;
use crate::said::{distress_said, seq_of, Said};
use crate::wire::{ResetBy, Seen, SeenTcp};

verus! {

/// Milliseconds from `from` to `to`, or zero when `to` comes first.
pub open spec fn elapsed(from: u64, to: u64) -> u64 {
    if to >= from {
        (to - from) as u64
    } else {
        0
    }
}

fn elapsed_ms(from: u64, to: u64) -> (r: u64)
    ensures
        r == elapsed(from, to),
{
    to.saturating_sub(from)
}

// ─── RESET ───────────────────────────────────────────────────────────────────────────────────────

/// The reset detector. An instrument about the world: the path is broken from outside. Whether the
/// target gave a byte before the reset separates interception from a goodbye.
#[derive(Debug, Clone, Copy, Default)]
pub struct RstInstrument {
    /// Already complained.
    fired: bool,
    /// Whether the target gave a byte before the reset.
    answered: bool,
}

impl RstInstrument {
    pub closed spec fn fired(&self) -> bool {
        self.fired
    }

    pub closed spec fn answered(&self) -> bool {
        self.answered
    }

    pub fn new() -> (r: RstInstrument)
        ensures
            !r.fired(),
            !r.answered(),
    {
        RstInstrument { fired: false, answered: false }
    }

    /// The signature of interception: a reset from the target's side before its first byte.
    pub fn step(self, event: DetectorEvent<SeenTcp>) -> (r: (RstInstrument, Said<Distress>, ()))
        ensures
            // Said once: after it has spoken, it stays silent.
            self.fired() ==> r.0.fired() && distress_said(r.1).len() == 0,
            ({
                let accuses = event matches DetectorEvent::Packet { input: SeenTcp::Rst { by: ResetBy::TargetSide }, .. }
                    && !self.fired() && !self.answered();
                let target_spoke = match event {
                    DetectorEvent::Packet { input: SeenTcp::Anywhere(Seen::Received { .. }), .. } => true,
                    DetectorEvent::Packet { input: SeenTcp::Anywhere(Seen::Payload { from_client, .. }), .. } => !from_client,
                    _ => false,
                };
                &&& r.0.fired() == (self.fired() || accuses)
                &&& r.0.answered() == (self.answered() || target_spoke)
                &&& distress_said(r.1) == seq_of(if accuses { Some(Distress::Rst) } else { None })
            }),
    {
        let (state, said) = match event {
            DetectorEvent::Packet { input, .. } => match (&input, self.fired, self.answered) {
                (SeenTcp::Rst { by: ResetBy::TargetSide }, false, false) => (
                    RstInstrument { fired: true, ..self },
                    Some(Distress::Rst),
                ),
                // The target spoke: its reset from now on is indistinguishable from a goodbye.
                (SeenTcp::Anywhere(Seen::Received { .. }), _, _) => (
                    RstInstrument { answered: true, ..self },
                    None,
                ),
                (SeenTcp::Anywhere(Seen::Payload { from_client, .. }), _, _) => (
                    RstInstrument { answered: self.answered || !*from_client, ..self },
                    None,
                ),
                // Neither the person nor our own order is the target's fault.
                _ => (self, None),
            },
            // A reset is a moment of its own: no clock needed.
            _ => (self, None),
        };
        (state, Said::of(said), ())
    }
}

// ─── SILENCE ─────────────────────────────────────────────────────────────────────────────────────

/// What the watch over a conversation is doing.
#[derive(Debug, Clone, Copy, PartialEq, Eq, Structural)]
pub enum Watch {
    /// Watching and ready to complain.
    Open,
    /// Already complained.
    Fired,
    /// The conversation is over: the silence of one who said goodbye is no evidence.
    Ended,
}

/// The values a decision was taken by: how long the silence, bytes from the target, whether the
/// person waits, whether the instrument still watches.
#[derive(Debug, Clone, Copy, PartialEq, Eq, Structural)]
pub struct Measured {
    pub since_ms: u32,
    pub bytes: u32,
    pub awaiting: bool,
    pub watch: Watch,
}

/// The silence detector: the first instrument of the fleet with its own clock.
#[derive(Debug, Clone, Copy)]
pub struct SilenceInstrument {
    /// How much silence is tolerated, in milliseconds.
    after: u64,
    /// Moment of the last event; `None` — nothing to measure from.
    last: Option<u64>,
    /// Bytes from the target down.
    bytes: u32,
    watch: Watch,
    /// Whether the person waits right now (a request went up, no answer yet).
    awaiting: bool,
}

/// Bytes the target delivered in a letter.
pub open spec fn delivered(seen: Seen) -> int {
    match seen {
        Seen::Received { count } => count as int,
        Seen::Payload { head, from_client } => if from_client { 0 } else { (head.len() as u32) as int },
        _ => 0,
    }
}

/// Whether the person waits after this letter.
pub open spec fn awaiting_after(seen: Seen, before: bool) -> bool {
    match seen {
        Seen::Sent { .. } | Seen::Resent { .. } => true,
        Seen::Payload { from_client, .. } => from_client,
        Seen::Received { .. } => false,
        Seen::Restated { .. } | Seen::Closed { .. } => before,
    }
}

impl SilenceInstrument {
    pub closed spec fn after_ms(&self) -> u64 {
        self.after
    }

    pub closed spec fn last(&self) -> Option<u64> {
        self.last
    }

    pub closed spec fn bytes(&self) -> u32 {
        self.bytes
    }

    pub closed spec fn watch(&self) -> Watch {
        self.watch
    }

    pub closed spec fn awaiting(&self) -> bool {
        self.awaiting
    }

    /// A watch that tolerates `after` milliseconds of silence.
    pub fn after(after: u64) -> (r: SilenceInstrument)
        ensures
            r.after_ms() == after,
            r.last() == None::<u64>,
            r.bytes() == 0,
            r.watch() == Watch::Open,
            !r.awaiting(),
    {
        SilenceInstrument { after, last: None, bytes: 0, watch: Watch::Open, awaiting: false }
    }

    /// Whether a tick at `at` names the silence: the watch is open, the window has passed since the
    /// last event, and someone waits or the target never gave a byte.
    pub open spec fn due(&self, at: u64) -> bool {
        &&& self.watch() == Watch::Open
        &&& self.last() is Some
        &&& elapsed(self.last().unwrap(), at) >= self.after_ms()
        &&& (self.awaiting() || self.bytes() == 0)
    }

    /// The trouble a due tick names: no bytes ever, or a stream that stopped.
    pub open spec fn named(&self, at: u64) -> Distress {
        if self.bytes() == 0 {
            Distress::NoBytes
        } else {
            Distress::Silence { ms: elapsed(self.last().unwrap(), at) as u32 }
        }
    }

    /// The state after one letter.
    pub closed spec fn next(&self, event: DetectorEvent<Seen>) -> SilenceInstrument {
        match event {
            DetectorEvent::Packet { input, at } => SilenceInstrument {
                after: self.after,
                last: if input is Resent && self.last is Some { self.last } else { Some(at) },
                bytes: (self.bytes + delivered(input)) as u32,
                watch: if input is Closed { Watch::Ended } else { self.watch },
                awaiting: awaiting_after(input, self.awaiting),
            },
            DetectorEvent::Tick { at, .. } => if self.due(at) {
                SilenceInstrument { watch: Watch::Fired, ..*self }
            } else if self.last is None && self.watch == Watch::Open {
                SilenceInstrument { last: Some(at), ..*self }
            } else {
                *self
            },
            _ => *self,
        }
    }

    /// What one letter makes the watch say: a due tick names the trouble, nothing else speaks.
    pub open spec fn told(&self, event: DetectorEvent<Seen>) -> Seq<Distress> {
        match event {
            DetectorEvent::Tick { at, .. } => seq_of(if self.due(at) { Some(self.named(at)) } else { None }),
            _ => Seq::empty(),
        }
    }

    /// A watch that is no longer open stays closed after any letter; a letter that makes it speak,
    /// or a goodbye, closes it.
    pub proof fn lemma_next_watch(&self, event: DetectorEvent<Seen>)
        ensures
            self.watch() != Watch::Open ==> self.next(event).watch() != Watch::Open && self.told(event).len() == 0,
            self.told(event).len() > 0 ==> self.next(event).watch() != Watch::Open,
            event matches DetectorEvent::Packet { input: Seen::Closed { .. }, .. } ==> self.next(event).watch() != Watch::Open,
    {
    }

    pub fn step(self, event: DetectorEvent<Seen>) -> (r: (SilenceInstrument, Said<Distress>, Option<Measured>))
        requires
            event matches DetectorEvent::Packet { input, .. } ==> self.bytes() + delivered(input) <= u32::MAX,
        ensures
            r.0 == self.next(event),
            distress_said(r.1) == self.told(event),
            // Said once: a watch that is no longer open stays silent, and never opens again.
            self.watch() != Watch::Open ==> r.0.watch() != Watch::Open && distress_said(r.1).len() == 0,
            r.0.after_ms() == self.after_ms(),
            r.2 == (match self.last() {
                Some(last) => Some(Measured {
                    since_ms: elapsed(last, event.spec_at()) as u32,
                    bytes: self.bytes(),
                    awaiting: self.awaiting(),
                    watch: self.watch(),
                }),
                None => None,
            }),
            match event {
                DetectorEvent::Packet { input, at } => {
                    &&& r.0.bytes() == self.bytes() + delivered(input)
                    &&& r.0.awaiting() == awaiting_after(input, self.awaiting())
                    &&& r.0.watch() == (if input is Closed { Watch::Ended } else { self.watch() })
                    // A client's repeat is a symptom of the silence, not a break of it.
                    &&& r.0.last() == (if input is Resent && self.last() is Some { self.last() } else { Some(at) })
                    &&& distress_said(r.1) == Seq::<Distress>::empty()
                },
                DetectorEvent::Tick { at, .. } => {
                    &&& r.0.bytes() == self.bytes()
                    &&& r.0.awaiting() == self.awaiting()
                    &&& r.0.watch() == (if self.due(at) { Watch::Fired } else { self.watch() })
                    // The first tick winds the clock.
                    &&& r.0.last() == (if self.last() is None && self.watch() == Watch::Open { Some(at) } else { self.last() })
                    &&& distress_said(r.1) == seq_of(if self.due(at) { Some(self.named(at)) } else { None })
                },
                _ => {
                    &&& r.0 == self
                    &&& distress_said(r.1) == Seq::<Distress>::empty()
                },
            },
    {
        let before_last = self.last;
        let at = event.at();
        let noted = match before_last {
            Some(last) => Some(Measured {
                since_ms: elapsed_ms(last, at) as u32,
                bytes: self.bytes,
                awaiting: self.awaiting,
                watch: self.watch,
            }),
            None => None,
        };
        let (state, said) = match event {
            DetectorEvent::Packet { input, at } => {
                // Silence is measured by the TARGET's answer.
                let bytes = match &input {
                    Seen::Received { count } => self.bytes + *count,
                    Seen::Payload { head, from_client } => if *from_client {
                        self.bytes
                    } else {
                        self.bytes + head.len() as u32
                    },
                    _ => self.bytes,
                };
                // A request up opens the wait, an answer down closes it.
                let awaiting = match &input {
                    Seen::Sent { .. } | Seen::Resent { .. } => true,
                    Seen::Payload { from_client, .. } => *from_client,
                    Seen::Received { .. } => false,
                    Seen::Restated { .. } | Seen::Closed { .. } => self.awaiting,
                };
                let watch = match &input {
                    Seen::Closed { .. } => Watch::Ended,
                    _ => self.watch,
                };
                // A client's repeat does not move the clock of silence, but it may start it.
                let last = match &input {
                    Seen::Resent { .. } => match self.last {
                        Some(l) => Some(l),
                        None => Some(at),
                    },
                    _ => Some(at),
                };
                (SilenceInstrument { last, bytes, watch, awaiting, ..self }, None)
            },
            DetectorEvent::Tick { at, .. } => match (self.last, self.watch) {
                (Some(last), Watch::Open) => {
                    if elapsed_ms(last, at) >= self.after && (self.awaiting || self.bytes == 0) {
                        let distress = if self.bytes == 0 {
                            Distress::NoBytes
                        } else {
                            Distress::Silence { ms: elapsed_ms(last, at) as u32 }
                        };
                        (SilenceInstrument { watch: Watch::Fired, ..self }, Some(distress))
                    } else {
                        (self, None)
                    }
                },
                // The clock is wound by the first tick, not the first event.
                (None, Watch::Open) => (SilenceInstrument { last: Some(at), ..self }, None),
                _ => (self, None),
            },
            // What was not understood is no answer of the target.
            _ => (self, None),
        };
        (state, Said::of(said), noted)
    }
}

/// The watch after a run of letters, in order.
pub open spec fn run(start: SilenceInstrument, events: Seq<DetectorEvent<Seen>>) -> SilenceInstrument
    decreases events.len(),
{
    if events.len() == 0 {
        start
    } else {
        run(start, events.drop_last()).next(events.last())
    }
}

/// What the watch says on the `i`-th letter of a run.
pub open spec fn told_at(start: SilenceInstrument, events: Seq<DetectorEvent<Seen>>, i: int) -> Seq<Distress> {
    run(start, events.take(i)).told(events[i])
}

proof fn lemma_run_step(start: SilenceInstrument, events: Seq<DetectorEvent<Seen>>, i: int)
    requires
        0 <= i < events.len(),
    ensures
        run(start, events.take(i + 1)) == run(start, events.take(i)).next(events[i]),
{
    assert(events.take(i + 1).drop_last() =~= events.take(i));
}

proof fn lemma_closed_stays(start: SilenceInstrument, events: Seq<DetectorEvent<Seen>>, i: int, j: int)
    requires
        0 <= i <= j <= events.len(),
        run(start, events.take(i)).watch() != Watch::Open,
    ensures
        run(start, events.take(j)).watch() != Watch::Open,
    decreases j - i,
{
    if j > i {
        lemma_closed_stays(start, events, i, j - 1);
        lemma_run_step(start, events, j - 1);
        run(start, events.take(j - 1)).lemma_next_watch(events[j - 1]);
    }
}

/// The silence of a conversation is told at most once: after the watch has spoken, and after a
/// goodbye, no later letter makes it speak; a watch that starts closed never speaks.
pub proof fn silence_is_told_once(start: SilenceInstrument, events: Seq<DetectorEvent<Seen>>)
    ensures
        forall|i: int, j: int|
            0 <= i < j < events.len() && (#[trigger] told_at(start, events, i)).len() > 0
                ==> (#[trigger] told_at(start, events, j)).len() == 0,
        forall|i: int, j: int|
            0 <= i < j < events.len() && ((#[trigger] events[i]) matches DetectorEvent::Packet { input: Seen::Closed { .. }, .. })
                ==> (#[trigger] told_at(start, events, j)).len() == 0,
        start.watch() != Watch::Open ==> forall|j: int| 0 <= j < events.len() ==> (#[trigger] told_at(start, events, j)).len() == 0,
{
    assert forall|i: int, j: int|
        0 <= i < j < events.len() && told_at(start, events, i).len() > 0
        implies told_at(start, events, j).len() == 0 by {
        run(start, events.take(i)).lemma_next_watch(events[i]);
        lemma_run_step(start, events, i);
        lemma_closed_stays(start, events, i + 1, j);
        run(start, events.take(j)).lemma_next_watch(events[j]);
    }
    assert forall|i: int, j: int|
        0 <= i < j < events.len() && ((#[trigger] events[i]) matches DetectorEvent::Packet { input: Seen::Closed { .. }, .. })
        implies (#[trigger] told_at(start, events, j)).len() == 0 by {
        run(start, events.take(i)).lemma_next_watch(events[i]);
        lemma_run_step(start, events, i);
        lemma_closed_stays(start, events, i + 1, j);
        run(start, events.take(j)).lemma_next_watch(events[j]);
    }
    assert forall|j: int| start.watch() != Watch::Open && 0 <= j < events.len()
        implies told_at(start, events, j).len() == 0 by {
        assert(events.take(0) =~= Seq::<DetectorEvent<Seen>>::empty());
        lemma_closed_stays(start, events, 0, j);
        run(start, events.take(j)).lemma_next_watch(events[j]);
    }
}

// ─── THROTTLING ──────────────────────────────────────────────────────────────────────────────────

/// How many degraded windows in a row are a verdict.
pub const DEGRADED_RUN: u32 = 3;

/// The throttling detector: the only one in the fleet whose reading is a QUANTITY.
#[derive(Debug, Clone, Copy)]
pub struct ThrottledInstrument {
    /// The envelope: how much the target proved in a window. Only upwards.
    baseline: u64,
    /// Bytes down in the window.
    down: u64,
    /// The client's demand in the window.
    up: u64,
    /// How many windows in a row sagged.
    degraded_run: u32,
    /// Whether the client ever asked.
    asked_ever: bool,
    /// The conversation is over.
    finished: bool,
    /// Whether the client asked to wait — the fuse "are we the cause".
    client_paused: bool,
    /// The window length, in milliseconds.
    window: u64,
    fired: bool,
}

/// Bytes the client asked for in a TCP letter.
pub open spec fn asked_bytes(seen: SeenTcp) -> int {
    match seen {
        SeenTcp::Anywhere(Seen::Sent { count }) => count as int,
        SeenTcp::Anywhere(Seen::Resent { count }) => count as int,
        SeenTcp::Anywhere(Seen::Payload { head, from_client }) => if from_client { head.len() as int } else { 0 },
        _ => 0,
    }
}

/// Bytes the target delivered in a TCP letter.
pub open spec fn delivered_tcp(seen: SeenTcp) -> int {
    match seen {
        SeenTcp::Anywhere(Seen::Received { count }) => count as int,
        SeenTcp::Anywhere(Seen::Payload { head, from_client }) => if from_client { 0 } else { head.len() as int },
        _ => 0,
    }
}

/// Whether a TCP letter is a request of the client.
pub open spec fn asks(seen: SeenTcp) -> bool {
    match seen {
        SeenTcp::Anywhere(Seen::Sent { .. }) | SeenTcp::Anywhere(Seen::Resent { .. }) => true,
        SeenTcp::Anywhere(Seen::Payload { from_client, .. }) => from_client,
        _ => false,
    }
}

/// Bytes per second of a window, capped at `u32::MAX`.
pub open spec fn rate(down: u64, window: u64) -> u32 {
    let ms = if window == 0 { 1 } else { window as int };
    let q = (down as int) * 1000 / ms;
    if q > u32::MAX { u32::MAX } else { q as u32 }
}

impl ThrottledInstrument {
    pub closed spec fn baseline(&self) -> u64 { self.baseline }
    pub closed spec fn down(&self) -> u64 { self.down }
    pub closed spec fn up(&self) -> u64 { self.up }
    pub closed spec fn degraded_run(&self) -> u32 { self.degraded_run }
    pub closed spec fn asked_ever(&self) -> bool { self.asked_ever }
    pub closed spec fn finished(&self) -> bool { self.finished }
    pub closed spec fn client_paused(&self) -> bool { self.client_paused }
    pub closed spec fn window(&self) -> u64 { self.window }
    pub closed spec fn fired(&self) -> bool { self.fired }

    /// A detector whose windows last `window` milliseconds.
    pub fn over(window: u64) -> (r: ThrottledInstrument)
        ensures
            r.baseline() == 0 && r.down() == 0 && r.up() == 0 && r.degraded_run() == 0,
            !r.asked_ever() && !r.finished() && !r.client_paused() && !r.fired(),
            r.window() == window,
    {
        ThrottledInstrument {
            baseline: 0,
            down: 0,
            up: 0,
            degraded_run: 0,
            asked_ever: false,
            finished: false,
            client_paused: false,
            window,
            fired: false,
        }
    }

    /// Bytes per second of the current window.
    fn bps(&self) -> (r: u32)
        ensures
            r == rate(self.down, self.window),
    {
        let ms: u64 = if self.window == 0 { 1 } else { self.window };
        let q: u128 = (self.down as u128) * 1000 / (ms as u128);
        if q > u32::MAX as u128 {
            u32::MAX
        } else {
            q as u32
        }
    }

    /// Whether the window closing now sagged below the proven envelope.
    pub open spec fn degraded(&self) -> bool {
        self.asked_ever() && !self.finished() && self.down() > 0 && self.down() < self.baseline()
    }

    /// Whether the window closing now completes the verdict.
    pub open spec fn accuses(&self) -> bool {
        let run = if self.degraded() { self.degraded_run() + 1 } else { 0 };
        !self.fired() && run >= DEGRADED_RUN && self.baseline() > 0 && !self.client_paused()
    }

    pub fn step(self, event: DetectorEvent<SeenTcp>) -> (r: (ThrottledInstrument, Said<Distress>, ()))
        requires
            event matches DetectorEvent::Packet { input, .. } ==> {
                &&& self.up() + asked_bytes(input) <= u64::MAX
                &&& self.down() + delivered_tcp(input) <= u64::MAX
            },
            event is Tick && self.degraded() ==> self.degraded_run() < u32::MAX,
        ensures
            // Said once: after it has spoken, it stays silent.
            self.fired() ==> r.0.fired() && distress_said(r.1).len() == 0,
            r.0.window() == self.window(),
            match event {
                DetectorEvent::Packet { input, .. } => {
                    &&& r.0.up() == self.up() + asked_bytes(input)
                    &&& r.0.down() == self.down() + delivered_tcp(input)
                    &&& r.0.asked_ever() == (self.asked_ever() || asks(input))
                    &&& r.0.client_paused() == (self.client_paused() || input == SeenTcp::AskedToWait { by_client: true })
                    &&& r.0.finished() == (self.finished() || input is Anywhere && input->Anywhere_0 is Closed)
                    &&& r.0.baseline() == self.baseline() && r.0.degraded_run() == self.degraded_run()
                    &&& r.0.fired() == self.fired()
                    &&& distress_said(r.1) == Seq::<Distress>::empty()
                },
                DetectorEvent::Tick { .. } => {
                    &&& r.0.baseline() == (if self.down() > self.baseline() { self.down() } else { self.baseline() })
                    &&& r.0.degraded_run() == (if self.degraded() { self.degraded_run() + 1 } else { 0 })
                    &&& r.0.down() == 0 && r.0.up() == 0
                    &&& r.0.asked_ever() == self.asked_ever() && r.0.finished() == self.finished()
                    &&& r.0.client_paused() == self.client_paused()
                    &&& r.0.fired() == (self.fired() || self.accuses())
                    &&& distress_said(r.1) == seq_of(
                        if self.accuses() { Some(Distress::Throttled { bps: rate(self.down(), self.window()) }) } else { None })
                },
                _ => {
                    &&& r.0 == self
                    &&& distress_said(r.1) == Seq::<Distress>::empty()
                },
            },
    {
        let (state, said) = match event {
            DetectorEvent::Packet { input, .. } => {
                let next = match input {
                    // A repeat is the same demand.
                    SeenTcp::Anywhere(Seen::Sent { count }) | SeenTcp::Anywhere(Seen::Resent { count }) => {
                        ThrottledInstrument { up: self.up + count as u64, asked_ever: true, ..self }
                    },
                    SeenTcp::Anywhere(Seen::Received { count }) => {
                        ThrottledInstrument { down: self.down + count as u64, ..self }
                    },
                    SeenTcp::Anywhere(Seen::Payload { head, from_client }) => if from_client {
                        ThrottledInstrument {
                            up: self.up + head.len() as u64,
                            asked_ever: true,
                            ..self
                        }
                    } else {
                        ThrottledInstrument { down: self.down + head.len() as u64, ..self }
                    },
                    // The client slowed itself down: slowness is explained for the whole observation.
                    SeenTcp::AskedToWait { by_client } => {
                        ThrottledInstrument { client_paused: self.client_paused || by_client, ..self }
                    },
                    // A goodbye ends the observation: a file downloaded in full is no trouble.
                    SeenTcp::Anywhere(Seen::Closed { .. }) => ThrottledInstrument { finished: true, ..self },
                    _ => self,
                };
                (next, None)
            },
            // A window is closed by the tick.
            DetectorEvent::Tick { .. } => {
                // The envelope is taken BEFORE judging: otherwise a healthy window would raise it.
                let baseline_before = self.baseline;
                let degraded = self.asked_ever && !self.finished && self.down > 0 && self.down
                    < baseline_before;
                let closed = ThrottledInstrument {
                    baseline: if self.down > baseline_before { self.down } else { baseline_before },
                    degraded_run: if degraded { self.degraded_run + 1 } else { 0 },
                    ..self
                };
                let accuse = !closed.fired && closed.degraded_run >= DEGRADED_RUN && baseline_before
                    > 0 && !closed.client_paused;
                let bps = closed.bps();
                let emptied = ThrottledInstrument {
                    down: 0,
                    up: 0,
                    fired: closed.fired || accuse,
                    ..closed
                };
                if accuse {
                    (emptied, Some(Distress::Throttled { bps }))
                } else {
                    (emptied, None)
                }
            },
            _ => (self, None),
        };
        (state, Said::of(said), ())
    }
}

// ─── CHOKING ─────────────────────────────────────────────────────────────────────────────────────

/// The choking detector: the client asks, the target gives nothing and never proved a rate.
#[derive(Debug, Clone, Copy)]
pub struct ChokedInstrument {
    /// How long to wait for an answer before accusing, in milliseconds.
    after: u64,
    /// When the client first asked.
    asked_at: Option<u64>,
    /// Bytes up.
    sent: u64,
    /// Bytes down.
    received: u64,
    /// What the target once proved it could deliver. Zero: never.
    proven_ceiling: u64,
    fired: bool,
}

/// Bytes the client asked for in a letter.
pub open spec fn asked_common(seen: Seen) -> int {
    match seen {
        Seen::Sent { count } | Seen::Resent { count } => count as int,
        Seen::Payload { head, from_client } => if from_client { head.len() as int } else { 0 },
        _ => 0,
    }
}

/// Bytes the target delivered in a letter, counted whole.
pub open spec fn received_common(seen: Seen) -> int {
    match seen {
        Seen::Received { count } => count as int,
        Seen::Payload { head, from_client } => if from_client { 0 } else { head.len() as int },
        _ => 0,
    }
}

/// Whether a letter is a request of the client.
pub open spec fn asks_common(seen: Seen) -> bool {
    match seen {
        Seen::Sent { .. } | Seen::Resent { .. } => true,
        Seen::Payload { from_client, .. } => from_client,
        _ => false,
    }
}

impl ChokedInstrument {
    pub closed spec fn after_ms(&self) -> u64 { self.after }
    pub closed spec fn asked_at(&self) -> Option<u64> { self.asked_at }
    pub closed spec fn sent(&self) -> u64 { self.sent }
    pub closed spec fn received(&self) -> u64 { self.received }
    pub closed spec fn proven_ceiling(&self) -> u64 { self.proven_ceiling }
    pub closed spec fn fired(&self) -> bool { self.fired }

    /// `proven_ceiling` comes from outside — knowledge of the target's past; zero: never proved.
    pub fn after(proven_ceiling: u64, after: u64) -> (r: ChokedInstrument)
        ensures
            r.after_ms() == after,
            r.asked_at() == None::<u64>,
            r.sent() == 0 && r.received() == 0,
            r.proven_ceiling() == proven_ceiling,
            !r.fired(),
    {
        ChokedInstrument { after, asked_at: None, sent: 0, received: 0, proven_ceiling, fired: false }
    }

    /// Whether patience ran out since the first request.
    pub open spec fn patience_over_at(&self, now: u64) -> bool {
        match self.asked_at() {
            None => false,
            Some(asked) => elapsed(asked, now) >= self.after_ms(),
        }
    }

    fn patience_over(&self, now: u64) -> (r: bool)
        ensures
            r == self.patience_over_at(now),
    {
        match self.asked_at {
            None => false,
            Some(asked) => elapsed_ms(asked, now) >= self.after,
        }
    }

    /// Whether a tick at `at` accuses: demand proven, patience over, nothing received, never said,
    /// and the target never proved a rate.
    pub open spec fn accuses_at(&self, at: u64) -> bool {
        &&& !self.fired()
        &&& self.sent() > 0 && self.patience_over_at(at)
        &&& self.received() == 0
        &&& self.proven_ceiling() == 0
    }

    /// Whether a letter can be counted without overflow.
    pub open spec fn admits(&self, event: DetectorEvent<Seen>) -> bool {
        event matches DetectorEvent::Packet { input, .. } ==> {
            &&& self.sent() + asked_common(input) <= u64::MAX
            &&& self.received() + received_common(input) <= u64::MAX
        }
    }

    /// The state after one letter.
    pub closed spec fn next(&self, event: DetectorEvent<Seen>) -> ChokedInstrument {
        match event {
            DetectorEvent::Packet { input, at } => ChokedInstrument {
                asked_at: if self.asked_at is Some { self.asked_at } else if asks_common(input) { Some(at) } else { None },
                sent: (self.sent + asked_common(input)) as u64,
                received: (self.received + received_common(input)) as u64,
                ..*self
            },
            DetectorEvent::Tick { at, .. } => if self.accuses_at(at) {
                ChokedInstrument { fired: true, ..*self }
            } else {
                *self
            },
            _ => *self,
        }
    }

    /// What one letter makes the detector say: a tick that accuses names `NoBytes`.
    pub open spec fn told(&self, event: DetectorEvent<Seen>) -> Seq<Distress> {
        match event {
            DetectorEvent::Tick { at, .. } => seq_of(if self.accuses_at(at) { Some(Distress::NoBytes) } else { None }),
            _ => Seq::empty(),
        }
    }

    /// Bytes once received stay counted, and a detector that has received bytes accuses no one.
    pub proof fn lemma_received_stays(&self, event: DetectorEvent<Seen>)
        requires
            self.admits(event),
        ensures
            self.next(event).received() >= self.received(),
            self.received() > 0 ==> self.told(event).len() == 0,
    {
    }

    pub fn step(self, event: DetectorEvent<Seen>) -> (r: (ChokedInstrument, Said<Distress>, ()))
        requires
            self.admits(event),
        ensures
            r.0 == self.next(event),
            distress_said(r.1) == self.told(event),
            // Said once: after it has spoken, it stays silent.
            self.fired() ==> r.0.fired() && distress_said(r.1).len() == 0,
            r.0.after_ms() == self.after_ms() && r.0.proven_ceiling() == self.proven_ceiling(),
            match event {
                DetectorEvent::Packet { input, at } => {
                    &&& r.0.asked_at() == (if self.asked_at() is Some { self.asked_at() }
                        else if asks_common(input) { Some(at) } else { None })
                    &&& r.0.sent() == self.sent() + asked_common(input)
                    &&& r.0.received() == self.received() + received_common(input)
                    &&& r.0.fired() == self.fired()
                    &&& distress_said(r.1) == Seq::<Distress>::empty()
                },
                DetectorEvent::Tick { at, .. } => {
                    &&& r.0.asked_at() == self.asked_at() && r.0.sent() == self.sent()
                    &&& r.0.received() == self.received()
                    &&& r.0.fired() == (self.fired() || self.accuses_at(at))
                    &&& distress_said(r.1) == seq_of(if self.accuses_at(at) { Some(Distress::NoBytes) } else { None })
                },
                _ => {
                    &&& r.0 == self
                    &&& distress_said(r.1) == Seq::<Distress>::empty()
                },
            },
    {
        let (state, said) = match event {
            DetectorEvent::Packet { input, at } => {
                // The moment of the first request starts the count; a repeat does not move it.
                let asked_at = match self.asked_at {
                    Some(first) => Some(first),
                    None => match &input {
                        Seen::Sent { .. } | Seen::Resent { .. } => Some(at),
                        Seen::Payload { from_client, .. } => if *from_client { Some(at) } else { None },
                        _ => None,
                    },
                };
                let waiting = ChokedInstrument { asked_at, ..self };
                let next = match input {
                    Seen::Sent { count } | Seen::Resent { count } => {
                        ChokedInstrument { sent: waiting.sent + count as u64, ..waiting }
                    },
                    Seen::Received { count } => {
                        ChokedInstrument { received: waiting.received + count as u64, ..waiting }
                    },
                    Seen::Payload { head, from_client } => if from_client {
                        ChokedInstrument { sent: waiting.sent + head.len() as u64, ..waiting }
                    } else {
                        ChokedInstrument { received: waiting.received + head.len() as u64, ..waiting }
                    },
                    // A goodbye is no demand and does not end the observation.
                    _ => waiting,
                };
                (next, None)
            },
            // Patience is part of the condition: no evidence before the term runs out.
            DetectorEvent::Tick { at, .. } => {
                if !self.fired && self.sent > 0 && self.patience_over(at) && self.received == 0
                    && self.proven_ceiling == 0 {
                    (ChokedInstrument { fired: true, ..self }, Some(Distress::NoBytes))
                } else {
                    (self, None)
                }
            },
            _ => (self, None),
        };
        (state, Said::of(said), ())
    }
}

/// The detector after a run of letters, in order.
pub open spec fn choked_run(start: ChokedInstrument, events: Seq<DetectorEvent<Seen>>) -> ChokedInstrument
    decreases events.len(),
{
    if events.len() == 0 {
        start
    } else {
        choked_run(start, events.drop_last()).next(events.last())
    }
}

/// What the detector says on the `i`-th letter of a run.
pub open spec fn choked_told_at(start: ChokedInstrument, events: Seq<DetectorEvent<Seen>>, i: int) -> Seq<Distress> {
    choked_run(start, events.take(i)).told(events[i])
}

/// Whether every letter of a run can be counted where it comes.
pub open spec fn choked_admitted(start: ChokedInstrument, events: Seq<DetectorEvent<Seen>>) -> bool {
    forall|k: int| 0 <= k < events.len() ==> #[trigger] choked_run(start, events.take(k)).admits(events[k])
}

proof fn lemma_choked_run_step(start: ChokedInstrument, events: Seq<DetectorEvent<Seen>>, i: int)
    requires
        0 <= i < events.len(),
    ensures
        choked_run(start, events.take(i + 1)) == choked_run(start, events.take(i)).next(events[i]),
{
    assert(events.take(i + 1).drop_last() =~= events.take(i));
}

proof fn lemma_choked_received_stays(start: ChokedInstrument, events: Seq<DetectorEvent<Seen>>, i: int, j: int)
    requires
        0 <= i <= j <= events.len(),
        choked_admitted(start, events),
        choked_run(start, events.take(i)).received() > 0,
    ensures
        choked_run(start, events.take(j)).received() > 0,
    decreases j - i,
{
    if j > i {
        lemma_choked_received_stays(start, events, i, j - 1);
        lemma_choked_run_step(start, events, j - 1);
        choked_run(start, events.take(j - 1)).lemma_received_stays(events[j - 1]);
    }
}

/// The target that delivered is not choked: once a letter of the run has brought bytes from the
/// target (`Received` with a positive count), the detector holds a positive received total from then
/// on, and no later letter makes it say `NoBytes`.
pub proof fn delivered_bytes_acquit_the_target(start: ChokedInstrument, events: Seq<DetectorEvent<Seen>>, i: int)
    requires
        choked_admitted(start, events),
        0 <= i < events.len(),
        events[i] matches DetectorEvent::Packet { input: Seen::Received { count }, .. } && count > 0,
    ensures
        forall|j: int| i < j <= events.len() ==> #[trigger] choked_run(start, events.take(j)).received() > 0,
        forall|j: int| i < j < events.len() ==> #[trigger] choked_told_at(start, events, j) == Seq::<Distress>::empty(),
{
    lemma_choked_run_step(start, events, i);
    assert(choked_run(start, events.take(i)).admits(events[i]));
    assert forall|j: int| i < j <= events.len() implies #[trigger] choked_run(start, events.take(j)).received() > 0 by {
        lemma_choked_received_stays(start, events, i + 1, j);
    }
    assert forall|j: int| i < j < events.len() implies #[trigger] choked_told_at(start, events, j) == Seq::<Distress>::empty() by {
        lemma_choked_received_stays(start, events, i + 1, j);
        assert(choked_run(start, events.take(j)).admits(events[j]));
        choked_run(start, events.take(j)).lemma_received_stays(events[j]);
    }
}

// ─── IP-BLACKHOLE ────────────────────────────────────────────────────────────────────────────────

/// The IP-blackhole detector: `SYN` left, `SYN+ACK` never came, the client knocks again.
#[derive(Debug, Clone, Copy, Default)]
pub struct SynDropInstrument {
    /// The first `SYN`. `None` — no knock seen.
    asked: Option<u64>,
    /// `SYN+ACK` arrived — the path is alive, the suspicion lifted for good.
    handshaken: bool,
    fired: bool,
}

impl SynDropInstrument {
    pub closed spec fn asked(&self) -> Option<u64> { self.asked }
    pub closed spec fn handshaken(&self) -> bool { self.handshaken }
    pub closed spec fn fired(&self) -> bool { self.fired }

    pub fn new() -> (r: SynDropInstrument)
        ensures
            r.asked() == None::<u64>,
            !r.handshaken() && !r.fired(),
    {
        SynDropInstrument { asked: None, handshaken: false, fired: false }
    }

    /// Whether a knock at `at` names the blackhole: a repeated knock, never answered, never said.
    pub open spec fn accuses(&self, event: DetectorEvent<SeenTcp>) -> bool {
        event matches DetectorEvent::Packet { input: SeenTcp::Syn, .. } && self.asked() is Some
            && !self.handshaken() && !self.fired()
    }

    pub fn step(self, event: DetectorEvent<SeenTcp>) -> (r: (SynDropInstrument, Said<Distress>, ()))
        ensures
            // Said once: after it has spoken, it stays silent.
            self.fired() ==> r.0.fired() && distress_said(r.1).len() == 0,
            match event {
                DetectorEvent::Packet { input: SeenTcp::Syn, at } => {
                    &&& r.0.asked() == (if self.asked() is Some { self.asked() } else { Some(at) })
                    &&& r.0.handshaken() == self.handshaken()
                    &&& r.0.fired() == (self.fired() || self.accuses(event))
                    &&& distress_said(r.1) == seq_of(if self.accuses(event) {
                        Some(Distress::Blackhole { after_ms: elapsed(self.asked().unwrap(), at) as u32 })
                    } else {
                        None
                    })
                },
                DetectorEvent::Packet { input: SeenTcp::Handshaken, .. } => {
                    &&& r.0.asked() == self.asked() && r.0.fired() == self.fired() && r.0.handshaken()
                    &&& distress_said(r.1) == Seq::<Distress>::empty()
                },
                _ => {
                    &&& r.0 == self
                    &&& distress_said(r.1) == Seq::<Distress>::empty()
                },
            },
    {
        let (state, said) = match event {
            DetectorEvent::Packet { input, at } => match input {
                // The knock starts the count; a repeated knock without a handshake is the subject.
                SeenTcp::Syn => match self.asked {
                    None => (SynDropInstrument { asked: Some(at), ..self }, None),
                    Some(asked) => if self.handshaken || self.fired {
                        (self, None)
                    } else {
                        (
                            SynDropInstrument { fired: true, ..self },
                            Some(Distress::Blackhole { after_ms: elapsed_ms(asked, at) as u32 }),
                        )
                    },
                },
                // The target answered the knock — the path is alive.
                SeenTcp::Handshaken => (SynDropInstrument { handshaken: true, ..self }, None),
                _ => (self, None),
            },
            // The threshold is the client kernel's RTO, not our tick.
            _ => (self, None),
        };
        (state, Said::of(said), ())
    }
}


// ─── PASSPORTS ───────────────────────────────────────────────────────────────────────────────────

impl Instrument for RstInstrument {
    type Signal = Distress;

    open spec fn public_name() -> Seq<char> {
        "rst"@
    }

    fn sheet() -> (r: Sheet) {
        let protocols: &'static [Protocol] = &[Protocol::Tcp];
        assert(protocols@ =~= seq![Protocol::Tcp]);
        Sheet {
            instrument: "rst",
            subject: Subject::World,
            layer: Layer::Transport,
            protocols,
            type_path: "reflex_instrument::detect::RstInstrument",
            rung: Some(Rung::Severed),
            cadence: Cadence::Foreign,
            shape: Shape::Event,
            silence: Some(Silence::Nothing),
            lies: &[
        "НЕ РАЗЛИЧАЕТ ОТКАЗ СЕРВЕРА ОТ ИНЖЕКТА ПОСТОРОННЕГО (#320, Н10). Оба приходят как \
         `ResetBy::TargetSide` и оба дают `Distress::Rst`, а лечение противоположно: в первом \
         случае цель не работает и техника бесполезна, во втором работает и техника нужна. \
         Различитель есть на проводе (TTL, фингерпринт окна и флагов) и не читается ничем.",
        "СБРОС ПОСРЕДИ ЖИВОЙ СЕССИИ ПРОПУСКАЕТСЯ: от штатного закрытия он неотличим ничем, что \
         видно на проводе. Цена названа в докстринге детектора с 29.08.",
        "ОДНО РАЗЛИЧЕНИЕ ВСЁ ЕЩЁ ЗАПИСАНО ДВАЖДЫ — но копий стало не три, а две. Копия в \
         `domain::wire::Rst` СНЯТА 02.09 (#320): она и была тем разъездом, который этот пункт \
         предсказал. Остался мост `app::distress::trouble` над наблюдением ПЛОСКОСТИ: у него другой \
         вход (`Sighting`, не `Seen`), потому механической сверки нет. Совпадают сегодня и \
         разойдутся молча.",
        "ПИТАНИЕ КАНАЛА НЕ ИЗМЕРЕНО НИ ОДНИМ ПРИБОРОМ. Компилятор видит связь, стенд — различение; \
         идут ли по каналу пакеты — не видит никто. Правила ядра на `output`/`input` не покрывают \
         транзитный клиентский трафик.",
    ],
            oracles: &["sni_rst(rutracker.org)", "syn_drop(1.2.3.4)"],
            death: "различитель инжекта по TTL заведён; `Distress::Rst` расщеплён",
            events: &["rst"],
        }
    }

    fn name(signal: &Distress) -> (r: &'static str)
        ensures
            r@ == name_of(*signal),
    {
        signal.name()
    }

    fn alarming(signal: &Distress) -> (r: bool)
        ensures
            r,
    {
        signal.alarming()
    }
}

impl Instrument for SilenceInstrument {
    type Signal = Distress;

    open spec fn public_name() -> Seq<char> {
        "silence"@
    }

    fn sheet() -> (r: Sheet) {
        let protocols: &'static [Protocol] = &[Protocol::Tcp, Protocol::Udp];
        assert(protocols@ =~= seq![Protocol::Tcp, Protocol::Udp]);
        Sheet {
            instrument: "silence",
            subject: Subject::World,
            layer: Layer::Transport,
            protocols,
            type_path: "reflex_instrument::detect::SilenceInstrument",
            rung: Some(Rung::Answered),
            cadence: Cadence::Own { step_ms: 0 },
            shape: Shape::Event,
            silence: Some(Silence::Nothing),
            lies: &[
        "ШАГ РЕШЁТКИ В КОНСТАНТЕ ПАСПОРТА РАВЕН НУЛЮ, а настоящий приходит от раннера. Паспорт \
         здесь ОБЪЯВЛЯЕТ форму, а не величину: свериться с выведенным нечем, пока аудит не читает \
         аргумент конструктора. Ровно тот разрыв, который закон слоя запрещает у других.",
        "ТИШИНА ЦЕЛИ И ТИШИНА КАНАЛА НЕРАЗЛИЧИМЫ. Прибор видит отсутствие байтов вниз и не знает, \
         дошла ли просьба вверх: `Silence` при мёртвом аплинке и при живом дают одно показание.",
    ],
            oracles: &["sni_drop(rutracker.org)", "syn_drop(1.2.3.4)"],
            death: "аудит выводит шаг решётки из конструктора, а не из константы",
            events: &["no_bytes", "silence"],
        }
    }

    fn name(signal: &Distress) -> (r: &'static str)
        ensures
            r@ == name_of(*signal),
    {
        signal.name()
    }

    fn alarming(signal: &Distress) -> (r: bool)
        ensures
            r,
    {
        signal.alarming()
    }

    fn detail(signal: &Distress) -> (r: String)
        ensures
            r@ == detail_of(*signal),
    {
        signal.detail()
    }
}

impl Instrument for ThrottledInstrument {
    type Signal = Distress;

    open spec fn public_name() -> Seq<char> {
        "throttled"@
    }

    fn sheet() -> (r: Sheet) {
        let protocols: &'static [Protocol] = &[Protocol::Tcp];
        assert(protocols@ =~= seq![Protocol::Tcp]);
        Sheet {
            instrument: "throttled",
            subject: Subject::World,
            layer: Layer::Transport,
            protocols,
            type_path: "reflex_instrument::detect::ThrottledInstrument",
            rung: None,
            cadence: Cadence::Foreign,
            shape: Shape::Quantity,
            silence: Some(Silence::Nothing),
            lies: &[
        "ОГИБАЮЩАЯ ХРАПОВИКОМ ВВЕРХ — против кипящей лягушки, и она же режим лжи: цель, впервые \
         увиденная на плохом канале, объявит своей планкой плохое, и просадка от неё не отсчитается \
         никогда. Планка честна ровно настолько, насколько ХОРОШИЙ момент попал в наблюдение.",
        "МЕДЛЕННЫЙ КАНАЛ НЕОТЛИЧИМ ОТ ТРОТТЛИНГА. Прибор меряет темп и не знает его причины; \
         `netem 250кбит потери 6%` даст тот же вердикт, что перехват. Чужой детектор на этой клетке \
         доложил 33 цели «via DPI» — у нас сток тот же, просто мы его назвали.",
    ],
            oracles: &["throttle(250kbit,6%)", "fatflow(1.2.3.4,16,reply,drop)"],
            death: "алфавит получил клетку «канал медленный»; сток назван явно",
            events: &["throttled"],
        }
    }

    fn name(signal: &Distress) -> (r: &'static str)
        ensures
            r@ == name_of(*signal),
    {
        signal.name()
    }

    fn alarming(signal: &Distress) -> (r: bool)
        ensures
            r,
    {
        signal.alarming()
    }

    fn detail(signal: &Distress) -> (r: String)
        ensures
            r@ == detail_of(*signal),
    {
        signal.detail()
    }
}

impl Instrument for ChokedInstrument {
    type Signal = Distress;

    open spec fn public_name() -> Seq<char> {
        "choked"@
    }

    fn sheet() -> (r: Sheet) {
        let protocols: &'static [Protocol] = &[Protocol::Tcp, Protocol::Udp];
        assert(protocols@ =~= seq![Protocol::Tcp, Protocol::Udp]);
        Sheet {
            instrument: "choked",
            subject: Subject::World,
            layer: Layer::Transport,
            protocols,
            type_path: "reflex_instrument::detect::ChokedInstrument",
            rung: None,
            cadence: Cadence::Own { step_ms: 0 },
            shape: Shape::Event,
            silence: Some(Silence::Nothing),
            lies: &[
        "ПРИГОВОР НА ПЕРВОМ ЖЕ ТИКЕ — беда, которую прибор уже пережил и вылечил терпением. \
         В тестах она не всплывала два месяца: там тик подаётся ОДИН и заведомо поздний, а на \
         проводе они идут каждые 300 мс. Витнес обязан быть В ПАРЕ — тот же поток с ответом и без.",
        "ШАГ РЕШЁТКИ В ПАСПОРТЕ РАВЕН НУЛЮ, как у соседа по тику: настоящий приходит от раннера, \
         и сверить объявленное с выведенным нечем.",
        "ТЕРПЕНИЕ ОДНО НА ВСЕ ЦЕЛИ. Цель за океаном и цель в соседней стойке судятся одним \
         порогом; RTT в наблюдение не входит.",
    ],
            oracles: &["sni_drop(rutracker.org)", "throttle(250kbit,6%)"],
            death: "терпение выводится из RTT цели, а не задаётся одной константой",
            events: &["no_bytes"],
        }
    }

    fn name(signal: &Distress) -> (r: &'static str)
        ensures
            r@ == name_of(*signal),
    {
        signal.name()
    }

    fn alarming(signal: &Distress) -> (r: bool)
        ensures
            r,
    {
        signal.alarming()
    }
}

impl Instrument for SynDropInstrument {
    type Signal = Distress;

    open spec fn public_name() -> Seq<char> {
        "syn_drop"@
    }

    fn sheet() -> (r: Sheet) {
        let protocols: &'static [Protocol] = &[Protocol::Tcp];
        assert(protocols@ =~= seq![Protocol::Tcp]);
        Sheet {
            instrument: "syn_drop",
            subject: Subject::World,
            layer: Layer::Transport,
            protocols,
            type_path: "reflex_instrument::detect::SynDropInstrument",
            rung: None,
            cadence: Cadence::Foreign,
            shape: Shape::Event,
            silence: Some(Silence::Nothing),
            lies: &[
        "НЕ РАЗЛИЧАЕТ БЛОКИРОВКУ ОТ ПОТЕРИ SYN В КАНАЛЕ. Перегруженный путь роняет `SYN` так же, и \
         повтор при отсутствии `SYN+ACK` выйдет тем же словом. Показание — ПОДОЗРЕНИЕ: действие по \
         нему обязано иметь своё предусловие.",
        "СТУК, ПОДХВАЧЕННЫЙ С СЕРЕДИНЫ, ДАЁТ ЛОЖНУЮ ВЕЛИЧИНУ. Первый `SYN` мы могли не видеть \
         (правило встало после), и `after_ms` тогда мерен от повтора, а не от начала — занижен.",
    ],
            oracles: &["syn_drop(149.154.167.50)", "pass"],
            death: "заведён различитель «блок по адресу против потери SYN в канале»; подозрение стало приговором",
            events: &["blackhole"],
        }
    }

    fn name(signal: &Distress) -> (r: &'static str)
        ensures
            r@ == name_of(*signal),
    {
        signal.name()
    }

    fn alarming(signal: &Distress) -> (r: bool)
        ensures
            r,
    {
        signal.alarming()
    }

    fn detail(signal: &Distress) -> (r: String)
        ensures
            r@ == detail_of(*signal),
    {
        signal.detail()
    }
}


} // verus!
