//! The alphabet of trouble: what a person would feel as a breakage. It describes the world ("a reset
//! came", "silence for so long"); the cure lives with the consumer.
use vstd::prelude::*;
use vstd::string::*;

use crate::edge_detect::Relief;
use crate::text::{decimal, hex8, push_decimal, push_hex8};

verus! {

/// A signal of trouble.
#[derive(Debug, Clone, Copy, PartialEq, Eq, Structural)]
pub enum Distress {
    /// A reset arrived. From whom is a question for investigation.
    Rst,
    /// Silence longer than the named window, in milliseconds.
    Silence { ms: u32 },
    /// Bytes flow, but so slowly it is indistinguishable from breakage.
    Throttled { bps: u32 },
    /// The connection is alive, zero bytes.
    NoBytes,
    /// The client repeated its request and the target gave no byte.
    Retransmit { after_ms: u32 },
    /// The knock was never answered: `SYN` left, no `SYN+ACK`, the client knocks again.
    Blackhole { after_ms: u32 },
    /// The target repeats one and the same segment and makes no progress.
    Unreached { retries: u32 },
    /// A segment is swallowed in a living conversation: the client repeats it while the target
    /// acknowledges what came before.
    Swallowed { after_ms: u32 },
    /// The target closed the conversation without a byte of data.
    Dismissed { after_ms: u32 },
    /// The greeting was never acknowledged after the handshake.
    HelloDropped { retries: u32, after_ms: u32 },
    /// The greeting was acknowledged and the answer is muted.
    HelloMuted { rtt_ms: u32, after_ms: u32 },
    /// DNS poisoning: an injected refusal instead of an address.
    Poisoned,
    /// Another agent wrote over our bits of the mark; `theirs` is the whole word.
    Diverged { theirs: u32 },
}

/// How strongly a letter asserts something about the target.
#[derive(Debug, Clone, Copy, PartialEq, Eq, Structural)]
pub enum Assertion {
    /// A healthy network shows the same picture too.
    Suspicion,
    /// Behaviour a healthy network does not have.
    Diagnosis,
    /// A finding about the world rather than a person's trouble.
    Finding,
}

/// The strength of each letter.
pub open spec fn assertion_of(d: Distress) -> Assertion {
    match d {
        Distress::Retransmit { .. } | Distress::Silence { .. } | Distress::Throttled { .. } => Assertion::Suspicion,
        Distress::Diverged { .. } => Assertion::Finding,
        _ => Assertion::Diagnosis,
    }
}

/// What relieves each letter: the same measure detection used.
pub open spec fn relief_of(d: Distress) -> Relief {
    match d {
        Distress::Blackhole { .. } => Relief::Answered,
        Distress::HelloDropped { .. } => Relief::Acknowledged,
        Distress::HelloMuted { .. } => Relief::ServerHello,
        Distress::NoBytes | Distress::Rst | Distress::Swallowed { .. } | Distress::Unreached { .. }
        | Distress::Dismissed { .. } => Relief::Delivered,
        _ => Relief::Unknown,
    }
}

/// After how many milliseconds the trouble showed, when the letter carries it.
pub open spec fn after_of(d: Distress) -> Option<u64> {
    match d {
        Distress::Retransmit { after_ms } => Some(after_ms as u64),
        Distress::Blackhole { after_ms } => Some(after_ms as u64),
        Distress::Swallowed { after_ms } => Some(after_ms as u64),
        Distress::Dismissed { after_ms } => Some(after_ms as u64),
        Distress::HelloDropped { after_ms, .. } => Some(after_ms as u64),
        Distress::HelloMuted { after_ms, .. } => Some(after_ms as u64),
        Distress::Silence { ms } => Some(ms as u64),
        _ => None,
    }
}

/// The public name of each letter.
pub open spec fn name_of(d: Distress) -> Seq<char> {
    match d {
        Distress::Rst => "rst"@,
        Distress::Silence { .. } => "silence"@,
        Distress::Throttled { .. } => "throttled"@,
        Distress::NoBytes => "no_bytes"@,
        Distress::Retransmit { .. } => "retransmit"@,
        Distress::Blackhole { .. } => "blackhole"@,
        Distress::Unreached { .. } => "unreached"@,
        Distress::Swallowed { .. } => "swallowed"@,
        Distress::Dismissed { .. } => "dismissed"@,
        Distress::HelloDropped { .. } => "hello_dropped"@,
        Distress::HelloMuted { .. } => "hello_muted"@,
        Distress::Poisoned => "poisoned"@,
        Distress::Diverged { .. } => "diverged"@,
    }
}

/// The quantity of each letter in a person's units; empty when the letter is the event itself.
pub open spec fn detail_of(d: Distress) -> Seq<char> {
    match d {
        Distress::Silence { ms } => decimal(ms as nat) + " мс без байтов"@,
        Distress::Throttled { bps } => decimal((bps / 1024) as nat) + " КБ/с"@,
        Distress::Retransmit { after_ms } => "повтор через "@ + decimal(after_ms as nat) + " мс"@,
        Distress::Blackhole { after_ms } => "SYN без ответа через "@ + decimal(after_ms as nat) + " мс"@,
        Distress::Unreached { retries } => "цель повторила ответ "@ + decimal(retries as nat)
            + " раза — до клиента не дошло"@,
        Distress::Swallowed { after_ms } => "сегмент не проходит "@ + decimal(after_ms as nat)
            + " мс, цель при этом отвечает"@,
        Distress::Dismissed { after_ms } => "закрыла разговор через "@ + decimal(after_ms as nat)
            + " мс, не отдав данных"@,
        Distress::HelloDropped { retries, after_ms } => "приветствие не подтверждено: "@
            + decimal(retries as nat) + " повтора за "@ + decimal(after_ms as nat) + " мс"@,
        Distress::HelloMuted { rtt_ms, after_ms } => "приветствие подтверждено, ответа нет "@
            + decimal(after_ms as nat) + " мс при RTT "@ + decimal(rtt_ms as nat) + " мс"@,
        Distress::Diverged { theirs } => "чужой писатель марки: "@ + hex8(theirs),
        Distress::Rst | Distress::NoBytes | Distress::Poisoned => Seq::empty(),
    }
}

/// How a letter is written in a log line: its name, then each quantity as `key=value` (the mark
/// word in hexadecimal).
pub open spec fn text_of(d: Distress) -> Seq<char> {
    match d {
        Distress::Rst => "rst"@,
        Distress::Silence { ms } => "silence ms="@ + decimal(ms as nat),
        Distress::Throttled { bps } => "throttled bps="@ + decimal(bps as nat),
        Distress::NoBytes => "no_bytes"@,
        Distress::Retransmit { after_ms } => "retransmit after_ms="@ + decimal(after_ms as nat),
        Distress::Blackhole { after_ms } => "blackhole after_ms="@ + decimal(after_ms as nat),
        Distress::Unreached { retries } => "unreached retries="@ + decimal(retries as nat),
        Distress::Swallowed { after_ms } => "swallowed after_ms="@ + decimal(after_ms as nat),
        Distress::Dismissed { after_ms } => "dismissed after_ms="@ + decimal(after_ms as nat),
        Distress::HelloDropped { retries, after_ms } => "hello_dropped retries="@ + decimal(retries as nat)
            + " after_ms="@ + decimal(after_ms as nat),
        Distress::HelloMuted { rtt_ms, after_ms } => "hello_muted rtt_ms="@ + decimal(rtt_ms as nat)
            + " after_ms="@ + decimal(after_ms as nat),
        Distress::Poisoned => "poisoned"@,
        Distress::Diverged { theirs } => "diverged theirs="@ + hex8(theirs),
    }
}

impl Distress {
    /// The strength of the assertion.
    pub fn assertion(&self) -> (r: Assertion)
        ensures
            r == assertion_of(*self),
    {
        match self {
            Distress::Retransmit { .. } | Distress::Silence { .. } | Distress::Throttled { .. } => {
                Assertion::Suspicion
            },
            Distress::Rst
            | Distress::NoBytes
            | Distress::Blackhole { .. }
            | Distress::Unreached { .. }
            | Distress::Swallowed { .. }
            | Distress::Dismissed { .. }
            | Distress::HelloDropped { .. }
            | Distress::HelloMuted { .. }
            | Distress::Poisoned => Assertion::Diagnosis,
            Distress::Diverged { .. } => Assertion::Finding,
        }
    }

    /// What relieves the symptom.
    pub fn relief(&self) -> (r: Relief)
        ensures
            r == relief_of(*self),
    {
        match self {
            Distress::Blackhole { .. } => Relief::Answered,
            Distress::HelloDropped { .. } => Relief::Acknowledged,
            Distress::HelloMuted { .. } => Relief::ServerHello,
            Distress::NoBytes
            | Distress::Rst
            | Distress::Swallowed { .. }
            | Distress::Unreached { .. }
            | Distress::Dismissed { .. } => Relief::Delivered,
            Distress::Poisoned
            | Distress::Retransmit { .. }
            | Distress::Silence { .. }
            | Distress::Throttled { .. }
            | Distress::Diverged { .. } => Relief::Unknown,
        }
    }

    /// After how many milliseconds the trouble showed on this conversation, if the letter says.
    pub fn after(&self) -> (r: Option<u64>)
        ensures
            r == after_of(*self),
    {
        match self {
            Distress::Retransmit { after_ms }
            | Distress::Blackhole { after_ms }
            | Distress::Swallowed { after_ms }
            | Distress::Dismissed { after_ms }
            | Distress::HelloDropped { after_ms, .. }
            | Distress::HelloMuted { after_ms, .. } => Some(*after_ms as u64),
            Distress::Silence { ms } => Some(*ms as u64),
            Distress::Rst
            | Distress::NoBytes
            | Distress::Throttled { .. }
            | Distress::Unreached { .. }
            | Distress::Poisoned
            | Distress::Diverged { .. } => None,
        }
    }

    /// The public name of the signal (a metric label).
    pub fn name(&self) -> (r: &'static str)
        ensures
            r@ == name_of(*self),
    {
        match self {
            Distress::Rst => "rst",
            Distress::Silence { .. } => "silence",
            Distress::Throttled { .. } => "throttled",
            Distress::NoBytes => "no_bytes",
            Distress::Retransmit { .. } => "retransmit",
            Distress::Blackhole { .. } => "blackhole",
            Distress::Unreached { .. } => "unreached",
            Distress::Swallowed { .. } => "swallowed",
            Distress::Dismissed { .. } => "dismissed",
            Distress::HelloDropped { .. } => "hello_dropped",
            Distress::HelloMuted { .. } => "hello_muted",
            Distress::Poisoned => "poisoned",
            Distress::Diverged { .. } => "diverged",
        }
    }

    /// Whether the signal needs attention: every letter of trouble does.
    pub fn alarming(&self) -> (r: bool)
        ensures
            r,
    {
        true
    }

    /// The quantity in a person's units. Empty when the letter is the event itself.
    pub fn detail(&self) -> (r: String)
        ensures
            r@ == detail_of(*self),
    {
        let mut s = String::new();
        match *self {
            Distress::Silence { ms } => {
                push_decimal(&mut s, ms as u64);
                s.append(" мс без байтов");
            },
            Distress::Throttled { bps } => {
                push_decimal(&mut s, (bps / 1024) as u64);
                s.append(" КБ/с");
            },
            Distress::Retransmit { after_ms } => {
                s.append("повтор через ");
                push_decimal(&mut s, after_ms as u64);
                s.append(" мс");
            },
            Distress::Blackhole { after_ms } => {
                s.append("SYN без ответа через ");
                push_decimal(&mut s, after_ms as u64);
                s.append(" мс");
            },
            Distress::Unreached { retries } => {
                s.append("цель повторила ответ ");
                push_decimal(&mut s, retries as u64);
                s.append(" раза — до клиента не дошло");
            },
            Distress::Swallowed { after_ms } => {
                s.append("сегмент не проходит ");
                push_decimal(&mut s, after_ms as u64);
                s.append(" мс, цель при этом отвечает");
            },
            Distress::Dismissed { after_ms } => {
                s.append("закрыла разговор через ");
                push_decimal(&mut s, after_ms as u64);
                s.append(" мс, не отдав данных");
            },
            Distress::HelloDropped { retries, after_ms } => {
                s.append("приветствие не подтверждено: ");
                push_decimal(&mut s, retries as u64);
                s.append(" повтора за ");
                push_decimal(&mut s, after_ms as u64);
                s.append(" мс");
            },
            Distress::HelloMuted { rtt_ms, after_ms } => {
                s.append("приветствие подтверждено, ответа нет ");
                push_decimal(&mut s, after_ms as u64);
                s.append(" мс при RTT ");
                push_decimal(&mut s, rtt_ms as u64);
                s.append(" мс");
            },
            Distress::Diverged { theirs } => {
                s.append("чужой писатель марки: ");
                push_hex8(&mut s, theirs);
            },
            Distress::Rst | Distress::NoBytes | Distress::Poisoned => {},
        }
        assert(s@ =~= detail_of(*self));
        s
    }

    /// How the letter is written in a log line (see `text_of`).
    pub fn to_text(&self) -> (r: String)
        ensures
            r@ == text_of(*self),
    {
        proof {
            reveal_strlit("rst");
            reveal_strlit("silence ms=");
            reveal_strlit("throttled bps=");
            reveal_strlit("no_bytes");
            reveal_strlit("retransmit after_ms=");
            reveal_strlit("blackhole after_ms=");
            reveal_strlit("unreached retries=");
            reveal_strlit("swallowed after_ms=");
            reveal_strlit("dismissed after_ms=");
            reveal_strlit("hello_dropped retries=");
            reveal_strlit(" after_ms=");
            reveal_strlit("hello_muted rtt_ms=");
            reveal_strlit("poisoned");
            reveal_strlit("diverged theirs=");
        }
        let mut s = String::new();
        match *self {
            Distress::Rst => s.append("rst"),
            Distress::Silence { ms } => {
                s.append("silence ms=");
                push_decimal(&mut s, ms as u64);
            },
            Distress::Throttled { bps } => {
                s.append("throttled bps=");
                push_decimal(&mut s, bps as u64);
            },
            Distress::NoBytes => s.append("no_bytes"),
            Distress::Retransmit { after_ms } => {
                s.append("retransmit after_ms=");
                push_decimal(&mut s, after_ms as u64);
            },
            Distress::Blackhole { after_ms } => {
                s.append("blackhole after_ms=");
                push_decimal(&mut s, after_ms as u64);
            },
            Distress::Unreached { retries } => {
                s.append("unreached retries=");
                push_decimal(&mut s, retries as u64);
            },
            Distress::Swallowed { after_ms } => {
                s.append("swallowed after_ms=");
                push_decimal(&mut s, after_ms as u64);
            },
            Distress::Dismissed { after_ms } => {
                s.append("dismissed after_ms=");
                push_decimal(&mut s, after_ms as u64);
            },
            Distress::HelloDropped { retries, after_ms } => {
                s.append("hello_dropped retries=");
                push_decimal(&mut s, retries as u64);
                s.append(" after_ms=");
                push_decimal(&mut s, after_ms as u64);
            },
            Distress::HelloMuted { rtt_ms, after_ms } => {
                s.append("hello_muted rtt_ms=");
                push_decimal(&mut s, rtt_ms as u64);
                s.append(" after_ms=");
                push_decimal(&mut s, after_ms as u64);
            },
            Distress::Poisoned => s.append("poisoned"),
            Distress::Diverged { theirs } => {
                s.append("diverged theirs=");
                push_hex8(&mut s, theirs);
            },
        }
        assert(s@ =~= text_of(*self));
        s
    }

    /// Dress the trouble with the age of the observation that gave it. Both moments are arguments:
    /// a word has no clock of its own.
    pub fn aged(self, seen_at: u64, now: u64) -> (r: Spoken)
        ensures
            r.distress == self,
            r.since == (if now >= seen_at { (now - seen_at) as u64 } else { 0 }),
    {
        Spoken { distress: self, since: now.saturating_sub(seen_at) }
    }
}

/// A word of trouble with the age, in milliseconds, of the observation that gave it.
#[derive(Debug, Clone, Copy, PartialEq, Eq, Structural)]
pub struct Spoken {
    pub distress: Distress,
    pub since: u64,
}

/// A word about the target: the fold of words about its conversations, with the age of the
/// freshest observation folded in.
#[derive(Debug, Clone, Copy, PartialEq, Eq)]
pub struct Voiced<S> {
    pub distress: S,
    pub since: u64,
}

} // verus!
