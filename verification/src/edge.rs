//! The codec of the edge mark: phase, imprint and the writer's tag under a MASK that is a parameter.
//! The framework does not know its neighbour on the machine: the mask comes from outside, and
//! foreign bits outside it survive our step (read-modify-write).
//!
//! Layout inside the mask, from its lowest bit up: **tag 4, phase 3, imprint 8** — 15 bits in all.
//! The tag sits at the bottom: it is read first and decides whether the other fields are trusted.
use vstd::prelude::*;
use vstd::std_specs::bits::u32_trailing_zeros;

verus! {

/// All 15 field bits (tag + phase + imprint) from bit zero, before the shift to the mask's lowest bit.
pub const FIELD: u32 = 0x7FFF;

/// The mask holds all 15 field bits from its own lowest bit, and the tag is nonzero and 4 bits wide.
pub open spec fn valid_layout(mask: u32, tag: u8) -> bool {
    let shift = u32_trailing_zeros(mask);
    &&& 0 < tag < 16
    &&& shift <= 17
    &&& (FIELD << shift) & mask == FIELD << shift
}

/// Which bits are ours (`mask`) and how their writer signs (`tag`, 4 bits, nonzero).
#[derive(Debug, Clone, Copy)]
pub struct Layout {
    mask: u32,
    tag: u8,
    shift: u32,
}

/// The phase of watching a conversation. Codes are dense from zero and fit in 3 bits.
#[derive(Debug, Clone, Copy, PartialEq, Eq, Structural)]
pub enum Phase {
    Quiet,
    Suspected,
    Confirmed,
    Released,
}

/// What we left on the conversation: the phase and the imprint (the low bits of the count of
/// answers at the moment of writing), under the layout that writes them.
#[derive(Debug, Clone, Copy)]
pub struct Memo {
    pub layout: Layout,
    pub phase: Phase,
    pub imprint: u8,
}

/// What was read from the mark.
#[derive(Debug, Clone, Copy)]
pub enum Recall {
    /// Our own memo.
    Ours(Memo),
    /// Another agent wrote under our mask (the tag is not ours); the whole word is given.
    Foreign { theirs: u32 },
    /// Nobody wrote under our mask.
    Untouched,
}

/// The 3-bit code of a phase.
pub open spec fn code_of(phase: Phase) -> u32 {
    match phase {
        Phase::Quiet => 0,
        Phase::Suspected => 1,
        Phase::Confirmed => 2,
        Phase::Released => 3,
    }
}

/// The phase of a code: 0 and the unnamed 4..7 say nothing.
pub open spec fn phase_of(code: u32) -> Phase {
    if code == 1 {
        Phase::Suspected
    } else if code == 2 {
        Phase::Confirmed
    } else if code == 3 {
        Phase::Released
    } else {
        Phase::Quiet
    }
}

/// The 15 field bits of a memo, before the shift.
pub open spec fn packed(tag: u8, phase: Phase, imprint: u8) -> u32 {
    (tag as u32) | (code_of(phase) << 4u32) | ((imprint as u32) << 7u32)
}

/// The word after writing the fields under the mask: foreign bits kept, ours replaced.
pub open spec fn written(word: u32, mask: u32, shift: u32, fields: u32) -> u32 {
    (word & !mask) | ((fields << shift) & mask)
}

impl Phase {
    fn code(self) -> (r: u32)
        ensures
            r == code_of(self),
    {
        match self {
            Phase::Quiet => 0,
            Phase::Suspected => 1,
            Phase::Confirmed => 2,
            Phase::Released => 3,
        }
    }

    fn of_code(code: u32) -> (r: Phase)
        ensures
            r == phase_of(code),
    {
        match code {
            1 => Phase::Suspected,
            2 => Phase::Confirmed,
            3 => Phase::Released,
            _ => Phase::Quiet,
        }
    }
}

/// Reading back what was written under a valid mask gives the same fields, and the foreign bits
/// outside the mask are untouched.
proof fn lemma_fields_round_trip(word: u32, mask: u32, shift: u32, tag: u32, code: u32, imprint: u32)
    by (bit_vector)
    requires
        shift <= 17,
        (0x7FFFu32 << shift) & mask == 0x7FFFu32 << shift,
        0 < tag < 16,
        code < 8,
        imprint < 256,
    ensures
        ({
            let fields = tag | (code << 4u32) | (imprint << 7u32);
            let w = (word & !mask) | ((fields << shift) & mask);
            let p = (w & mask) >> shift;
            &&& p != 0
            &&& p & 15u32 == tag
            &&& (p >> 4u32) & 7u32 == code
            &&& (p >> 7u32) & 255u32 == imprint
            &&& w & !mask == word & !mask
        }),
{
}

impl Layout {
    pub closed spec fn spec_mask(&self) -> u32 {
        self.mask
    }

    pub closed spec fn spec_tag(&self) -> u8 {
        self.tag
    }

    /// The mask holds the fields and the shift is the mask's lowest bit: true of every layout that
    /// `new` made.
    #[verifier::type_invariant]
    pub closed spec fn well_formed(self) -> bool {
        &&& valid_layout(self.mask, self.tag)
        &&& self.shift == u32_trailing_zeros(self.mask)
    }

    /// A layout, if the mask holds all 15 field bits from its lowest bit and the tag is nonzero and
    /// 4 bits wide; otherwise a refusal rather than silent truncation.
    pub fn new(mask: u32, tag: u8) -> (r: Option<Layout>)
        ensures
            r is Some <==> valid_layout(mask, tag),
            r matches Some(layout) ==> layout.spec_mask() == mask && layout.spec_tag() == tag,
    {
        let shift = mask.trailing_zeros();
        if tag == 0 || tag >= 16 || shift > 17 {
            return None;
        }
        let field = FIELD << shift;
        if field & mask != field {
            return None;
        }
        Some(Layout { mask, tag, shift })
    }

    /// Our bits of the mark.
    #[verifier::when_used_as_spec(spec_mask)]
    pub fn mask(&self) -> (r: u32)
        ensures
            r == self.spec_mask(),
    {
        self.mask
    }

    /// The writer's tag.
    #[verifier::when_used_as_spec(spec_tag)]
    pub fn tag(&self) -> (r: u8)
        ensures
            r == self.spec_tag(),
    {
        self.tag
    }

    /// A well-formed layout has a valid mask and tag.
    pub proof fn valid(self)
        requires
            self.well_formed(),
        ensures
            valid_layout(self.spec_mask(), self.spec_tag()),
    {
    }

    /// The word after writing `phase` and `imprint` under the mask with our tag.
    pub open spec fn spec_write(&self, word: u32, phase: Phase, imprint: u8) -> u32 {
        written(word, self.spec_mask(), u32_trailing_zeros(self.spec_mask()),
            packed(self.spec_tag(), phase, imprint))
    }

    /// Write a memo under the mask, keeping foreign bits (read-modify-write). The writer's tag is ours.
    pub fn write(&self, word: u32, memo: Memo) -> (r: u32)
        ensures
            r == self.spec_write(word, memo.phase, memo.imprint),
    {
        proof {
            use_type_invariant(self);
        }
        let fields = (self.tag as u32) | (memo.phase.code() << 4u32) | ((memo.imprint as u32) << 7u32);
        (word & !self.mask) | ((fields << self.shift) & self.mask)
    }

    /// What a word reads as: untouched when our bits are empty; foreign when the tag under our mask
    /// is not ours (the whole word is given); otherwise our memo.
    pub open spec fn spec_read(&self, word: u32) -> Recall {
        let p = (word & self.spec_mask()) >> u32_trailing_zeros(self.spec_mask());
        if p == 0 {
            Recall::Untouched
        } else if p & 15u32 != self.spec_tag() as u32 {
            Recall::Foreign { theirs: word }
        } else {
            Recall::Ours(Memo {
                layout: *self,
                phase: phase_of((p >> 4u32) & 7u32),
                imprint: ((p >> 7u32) & 255u32) as u8,
            })
        }
    }

    /// Read the mark: the tag first; not ours — `Foreign` (no trust in the other fields).
    pub fn read(&self, word: u32) -> (r: Recall)
        ensures
            match (r, self.spec_read(word)) {
                (Recall::Untouched, Recall::Untouched) => true,
                (Recall::Foreign { theirs: a }, Recall::Foreign { theirs: b }) => a == b,
                (Recall::Ours(m), Recall::Ours(n)) => m.phase == n.phase && m.imprint == n.imprint
                    && m.spec_layout_mask() == self.spec_mask() && m.spec_layout_tag() == self.spec_tag(),
                _ => false,
            },
    {
        proof {
            use_type_invariant(self);
        }
        let p = (word & self.mask) >> self.shift;
        if p == 0 {
            return Recall::Untouched;
        }
        if p & 15u32 != self.tag as u32 {
            return Recall::Foreign { theirs: word };
        }
        let phase = Phase::of_code((p >> 4u32) & 7u32);
        let imprint = ((p >> 7u32) & 255u32) as u8;
        Recall::Ours(Memo { layout: *self, phase, imprint })
    }
}

/// What is written is read back as ours, with the same phase and imprint.
pub proof fn lemma_write_then_read(layout: Layout, word: u32, phase: Phase, imprint: u8)
    requires
        layout.well_formed(),
    ensures
        layout.spec_read(layout.spec_write(word, phase, imprint)) matches Recall::Ours(m)
            && m.phase == phase && m.imprint == imprint,
{
    layout.valid();
    let shift = u32_trailing_zeros(layout.spec_mask());
    lemma_fields_round_trip(word, layout.spec_mask(), shift, layout.spec_tag() as u32,
        code_of(phase), imprint as u32);
}

/// Writing keeps every bit outside the mask: the neighbour's bits survive our step.
pub proof fn lemma_write_keeps_foreign_bits(layout: Layout, word: u32, phase: Phase, imprint: u8)
    requires
        layout.well_formed(),
    ensures
        layout.spec_write(word, phase, imprint) & !layout.spec_mask() == word & !layout.spec_mask(),
{
    layout.valid();
    let shift = u32_trailing_zeros(layout.spec_mask());
    lemma_fields_round_trip(word, layout.spec_mask(), shift, layout.spec_tag() as u32,
        code_of(phase), imprint as u32);
}

/// The memo said once to the packet: our bits (`under`) and the mask they go under.
#[derive(Debug, Clone, Copy)]
pub struct Told {
    pub mask: u32,
    pub under: u32,
}

impl Memo {
    pub open spec fn spec_layout_mask(&self) -> u32 {
        self.layout.spec_mask()
    }

    pub open spec fn spec_layout_tag(&self) -> u8 {
        self.layout.spec_tag()
    }

    pub open spec fn spec_layout(&self) -> Layout {
        self.layout
    }

    /// A memo under `layout`: phase and imprint are set by one constructor, so neither can be
    /// written without the other.
    pub fn new(layout: Layout, phase: Phase, imprint: u8) -> (r: Memo)
        ensures
            r.spec_layout() == layout,
            r.phase == phase,
            r.imprint == imprint,
    {
        Memo { layout, phase, imprint }
    }

    /// The word after this memo is applied to it.
    pub open spec fn spec_apply(&self, word: u32) -> u32 {
        self.spec_layout().spec_write(word, self.phase, self.imprint)
    }

    /// Apply the memo to a mark word: foreign bits kept, ours replaced.
    pub fn apply_to(&self, word: u32) -> (r: u32)
        ensures
            r == self.spec_apply(word),
    {
        self.layout.write(word, *self)
    }

    /// The memo said to the packet: our bits under the mask, for the edge to apply read-modify-write.
    pub fn descends(&self) -> (r: Told)
        ensures
            r.mask == self.spec_layout_mask(),
            (word_after_told(0, r) == self.spec_apply(0)),
            forall|w: u32| #[trigger] word_after_told(w, r) == self.spec_apply(w),
    {
        let under = self.apply_to(0) & self.layout.mask();
        let told = Told { mask: self.layout.mask(), under };
        proof {
            let layout = self.layout;
            use_type_invariant(&self.layout);
            layout.valid();
            let mask = layout.spec_mask();
            let shift = u32_trailing_zeros(mask);
            let fields = packed(layout.spec_tag(), self.phase, self.imprint);
            assert forall|w: u32| #[trigger] word_after_told(w, told) == self.spec_apply(w) by {
                lemma_told_matches(w, mask, shift, fields);
            }
        }
        told
    }
}

/// What an edge makes of a word when it applies `told`.
pub open spec fn word_after_told(word: u32, told: Told) -> u32 {
    (word & !told.mask) | told.under
}

proof fn lemma_told_matches(word: u32, mask: u32, shift: u32, fields: u32)
    by (bit_vector)
    ensures
        (word & !mask) | ((((0u32 & !mask) | ((fields << shift) & mask))) & mask)
            == (word & !mask) | ((fields << shift) & mask),
{
}

} // verus!
