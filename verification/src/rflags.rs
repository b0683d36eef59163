//! The RFLAGS register: the status and control flags of the processor, and
//! among them the two-bit I/O privilege level.
//!
//! The named flags are single bits. The I/O privilege level and the reserved
//! bit 1 belong to the register and to no flag: a value may hold them, strict
//! construction refuses them and truncation clears them.

use crate::bits::{
    bit, check, field, get_field, keep, lemma_bounds, lemma_closed, lemma_field_round_trip,
    lemma_field_within, lemma_within_wider, set_field, strict, truncate, with_field, within,
    InvalidBits,
};
use vstd::prelude::*;

verus! {

/// An RFLAGS value: named flags, the I/O privilege level and the reserved
/// bit 1. Its view is the raw register word, which never holds a bit outside
/// [`RFlags::LAYOUT`].
#[derive(Clone, Copy, Debug, PartialEq, Eq, Structural, Hash)]
pub struct RFlags(u64);

impl View for RFlags {
    type V = u64;

    closed spec fn view(&self) -> u64 {
        self.0
    }
}

impl RFlags {
    /// Processor feature identification: if software can change this flag,
    /// the processor supports CPUID.
    pub const ID: u64 = 0x20_0000;

    /// An external, maskable interrupt is pending. In use with
    /// virtual-8086 mode extensions or protected-mode virtual interrupts.
    pub const VIRTUAL_INTERRUPT_PENDING: u64 = 0x10_0000;

    /// The virtual image of `INTERRUPT_FLAG`. In use with virtual-8086 mode
    /// extensions or protected-mode virtual interrupts.
    pub const VIRTUAL_INTERRUPT: u64 = 0x8_0000;

    /// Enables automatic alignment checking in ring 3, if `Cr0::ALIGNMENT_MASK`
    /// is set.
    pub const ALIGNMENT_CHECK: u64 = 0x4_0000;

    /// Enables virtual-8086 mode.
    pub const VIRTUAL_8086_MODE: u64 = 0x2_0000;

    /// Lets an instruction restart after an instruction breakpoint.
    pub const RESUME_FLAG: u64 = 0x1_0000;

    /// Tells `iret`, in hardware task switching, that the current task is
    /// nested.
    pub const NESTED_TASK: u64 = 0x4000;

    /// The last signed operation overflowed.
    pub const OVERFLOW_FLAG: u64 = 0x800;

    /// The direction in which string instructions move.
    pub const DIRECTION_FLAG: u64 = 0x400;

    /// Enables maskable interrupts.
    pub const INTERRUPT_FLAG: u64 = 0x200;

    /// Enables single-step mode for debugging.
    pub const TRAP_FLAG: u64 = 0x100;

    /// The last arithmetic result was negative.
    pub const SIGN_FLAG: u64 = 0x80;

    /// The last arithmetic result was zero.
    pub const ZERO_FLAG: u64 = 0x40;

    /// The last arithmetic operation carried out of bit 3.
    pub const AUXILIARY_CARRY_FLAG: u64 = 0x10;

    /// The last result has an even number of set bits in its low byte.
    pub const PARITY_FLAG: u64 = 0x4;

    /// The last arithmetic operation carried out of the most significant
    /// bit.
    pub const CARRY_FLAG: u64 = 0x1;

    /// Every named flag together.
    pub const ALL: u64 = 0x3f_4fd5;

    /// The two bits of the I/O privilege level, which is a number and no flag.
    pub const IOPL: u64 = 0x3000;

    /// The position of the lowest bit of the I/O privilege level.
    pub const IOPL_SHIFT: u64 = 12;

    /// The highest I/O privilege level.
    pub const IOPL_MAX: u8 = 3;

    /// Bit 1, which the architecture reserves and always reads as set.
    pub const RESERVED_ONE: u64 = 0x2;

    /// Every bit that a value can hold: the named flags, the I/O privilege
    /// level and the reserved bit 1.
    pub const LAYOUT: u64 = 0x3f_7fd7;

    /// The raw word holds nothing outside the layout of the register.
    #[verifier::type_invariant]
    pub open spec fn wf(self) -> bool {
        within(self@, Self::LAYOUT)
    }

    /// Whether every bit of `mask` is set in this value.
    pub open spec fn has(self, mask: u64) -> bool {
        self@ & mask == mask
    }

    /// Two values with the same raw word are the same value.
    pub proof fn lemma_same_bits(a: Self, b: Self)
        requires
            a@ == b@,
        ensures
            a == b,
    {
    }

    /// `ALL` is made of the named flags, and no two of them share a bit:
    /// their union and their sum are the same word.
    pub proof fn lemma_all()
        ensures
            Self::ALL == Self::ID | Self::VIRTUAL_INTERRUPT_PENDING | Self::VIRTUAL_INTERRUPT
                | Self::ALIGNMENT_CHECK | Self::VIRTUAL_8086_MODE | Self::RESUME_FLAG
                | Self::NESTED_TASK | Self::OVERFLOW_FLAG | Self::DIRECTION_FLAG
                | Self::INTERRUPT_FLAG | Self::TRAP_FLAG | Self::SIGN_FLAG | Self::ZERO_FLAG
                | Self::AUXILIARY_CARRY_FLAG | Self::PARITY_FLAG | Self::CARRY_FLAG,
            Self::ALL == Self::ID + Self::VIRTUAL_INTERRUPT_PENDING + Self::VIRTUAL_INTERRUPT
                + Self::ALIGNMENT_CHECK + Self::VIRTUAL_8086_MODE + Self::RESUME_FLAG
                + Self::NESTED_TASK + Self::OVERFLOW_FLAG + Self::DIRECTION_FLAG
                + Self::INTERRUPT_FLAG + Self::TRAP_FLAG + Self::SIGN_FLAG + Self::ZERO_FLAG
                + Self::AUXILIARY_CARRY_FLAG + Self::PARITY_FLAG + Self::CARRY_FLAG,
    {
        assert(0x3f_4fd5u64 == 0x20_0000u64 | 0x10_0000 | 0x8_0000 | 0x4_0000 | 0x2_0000
            | 0x1_0000 | 0x4000 | 0x800 | 0x400 | 0x200 | 0x100 | 0x80 | 0x40 | 0x10 | 0x4
            | 0x1) by (bit_vector);
    }

    /// The layout is the named flags, the I/O privilege level and the
    /// reserved bit 1, and each of the three lies within it.
    pub proof fn lemma_layout()
        ensures
            Self::LAYOUT == Self::ALL | Self::IOPL | Self::RESERVED_ONE,
            Self::LAYOUT == Self::ALL + Self::IOPL + Self::RESERVED_ONE,
            within(Self::ALL, Self::LAYOUT),
            within(Self::IOPL, Self::LAYOUT),
            within(Self::RESERVED_ONE, Self::LAYOUT),
    {
        assert(0x3f_7fd7u64 == 0x3f_4fd5u64 | 0x3000 | 0x2 && 0x3f_4fd5u64 & !0x3f_7fd7u64 == 0
            && 0x3000u64 & !0x3f_7fd7u64 == 0 && 0x2u64 & !0x3f_7fd7u64 == 0) by (bit_vector);
    }

    /// The I/O privilege level that `word` holds.
    pub open spec fn iopl_of(word: u64) -> u64 {
        field(word, Self::IOPL, Self::IOPL_SHIFT)
    }

    /// `word` with its I/O privilege level replaced by `level`.
    pub open spec fn with_iopl(word: u64, level: u8) -> u64 {
        with_field(word, Self::IOPL, Self::IOPL_SHIFT, level as u64)
    }

    /// An I/O privilege level of at most 3 that was stored is read back
    /// unchanged, and no bit but the two of the level changes.
    pub proof fn lemma_iopl_round_trip(rflags: RFlags, level: u8)
        requires
            level <= Self::IOPL_MAX,
        ensures
            Self::iopl_of(Self::with_iopl(rflags@, level)) == level,
            Self::iopl_of(rflags@) == (rflags@ / 4096) % 4,
            keep(Self::with_iopl(rflags@, level), !Self::IOPL) == keep(rflags@, !Self::IOPL),
            forall|i: u64|
                i < 64 && i != 12 && i != 13 ==> (#[trigger] bit(Self::with_iopl(rflags@, level), i)
                    <==> bit(rflags@, i)),
    {
        let word: u64 = rflags@;
        let value: u64 = level as u64;
        assert(value <= 3 ==> ((value << 12u64) & 0x3000) >> 12u64 == value) by (bit_vector);
        assert((word & 0x3000) >> 12u64 == (word / 4096) % 4) by (bit_vector);
        assert(forall|i: u64| i < 64 && i != 12 && i != 13 ==> (0x3000u64 >> i) & 1 != 1)
            by (bit_vector);
        lemma_field_round_trip(rflags@, Self::IOPL, Self::IOPL_SHIFT, value);
    }

    /// The set with no flag.
    pub fn empty() -> (r: Self)
        ensures
            r@ == 0,
    {
        proof {
            lemma_bounds(Self::LAYOUT);
        }
        RFlags(0)
    }

    /// The set with every named flag.
    pub fn all() -> (r: Self)
        ensures
            r@ == Self::ALL,
    {
        let word: u64 = Self::ALL;
        proof {
            lemma_bounds(Self::ALL);
            Self::lemma_layout();
            lemma_within_wider(word, Self::ALL, Self::LAYOUT);
        }
        RFlags(word)
    }

    /// The raw register word.
    pub fn bits(&self) -> (r: u64)
        ensures
            r == self@,
            within(r, Self::LAYOUT),
    {
        proof {
            use_type_invariant(self);
        }
        self.0
    }

    /// Strict construction: accepts `bits` only if it sets no bit that
    /// names no flag, and otherwise reports those bits.
    pub fn from_bits(bits: u64) -> (r: Result<Self, InvalidBits>)
        ensures
            r is Ok <==> within(bits, Self::ALL),
            match r {
                Ok(s) => strict(bits, Self::ALL) == Ok::<u64, InvalidBits>(s@),
                Err(e) => strict(bits, Self::ALL) == Err::<u64, InvalidBits>(e),
            },
    {
        match check(bits, Self::ALL) {
            Ok(word) => {
                proof {
                    Self::lemma_layout();
                    lemma_within_wider(word, Self::ALL, Self::LAYOUT);
                }
                Ok(RFlags(word))
            },
            Err(e) => Err(e),
        }
    }

    /// Truncating construction: clears every bit of `bits` that names no
    /// flag.
    pub fn from_bits_truncate(bits: u64) -> (r: Self)
        ensures
            r@ == keep(bits, Self::ALL),
    {
        let word: u64 = truncate(bits, Self::ALL);
        proof {
            Self::lemma_layout();
            lemma_within_wider(word, Self::ALL, Self::LAYOUT);
        }
        RFlags(word)
    }

    /// Whether no bit is set.
    pub fn is_empty(&self) -> (r: bool)
        ensures
            r == (self@ == 0),
    {
        self.0 == 0
    }

    /// Whether every flag of `other` is set in this value.
    pub fn contains(&self, other: Self) -> (r: bool)
        ensures
            r == self.has(other@),
    {
        (self.0 & other.0) == other.0
    }

    /// Sets every flag of `other`.
    pub fn insert(&mut self, other: Self)
        ensures
            final(self)@ == old(self)@ | other@,
    {
        let word: u64 = self.0 | other.0;
        proof {
            use_type_invariant(&*self);
            use_type_invariant(other);
            lemma_closed(self.0, other.0, Self::LAYOUT);
        }
        self.0 = word;
    }

    /// Clears every flag of `other`.
    pub fn remove(&mut self, other: Self)
        ensures
            final(self)@ == old(self)@ & !other@,
    {
        let word: u64 = self.0 & !other.0;
        proof {
            use_type_invariant(&*self);
            use_type_invariant(other);
            lemma_closed(self.0, other.0, Self::LAYOUT);
        }
        self.0 = word;
    }

    /// Flips every flag of `other`.
    pub fn toggle(&mut self, other: Self)
        ensures
            final(self)@ == old(self)@ ^ other@,
    {
        let word: u64 = self.0 ^ other.0;
        proof {
            use_type_invariant(&*self);
            use_type_invariant(other);
            lemma_closed(self.0, other.0, Self::LAYOUT);
        }
        self.0 = word;
    }

    /// The flags set in either value.
    pub fn union(self, other: Self) -> (r: Self)
        ensures
            r@ == self@ | other@,
    {
        proof {
            use_type_invariant(self);
            use_type_invariant(other);
            lemma_closed(self.0, other.0, Self::LAYOUT);
        }
        RFlags(self.0 | other.0)
    }

    /// The flags set in both values.
    pub fn intersection(self, other: Self) -> (r: Self)
        ensures
            r@ == self@ & other@,
    {
        proof {
            use_type_invariant(self);
            use_type_invariant(other);
            lemma_closed(self.0, other.0, Self::LAYOUT);
        }
        RFlags(self.0 & other.0)
    }

    /// The flags set in this value and not in `other`.
    pub fn difference(self, other: Self) -> (r: Self)
        ensures
            r@ == self@ & !other@,
    {
        proof {
            use_type_invariant(self);
            use_type_invariant(other);
            lemma_closed(self.0, other.0, Self::LAYOUT);
        }
        RFlags(self.0 & !other.0)
    }

    /// The named flags that are not set in this value.
    pub fn complement(self) -> (r: Self)
        ensures
            r@ == keep(!self@, Self::ALL),
    {
        let word: u64 = truncate(!self.0, Self::ALL);
        proof {
            Self::lemma_layout();
            lemma_within_wider(word, Self::ALL, Self::LAYOUT);
        }
        RFlags(word)
    }

    /// The I/O privilege level: bits 12 and 13, read as a number from 0 to 3.
    pub fn iopl(self) -> (r: u8)
        ensures
            r == Self::iopl_of(self@),
            r == (self@ / 4096) % 4,
            r <= Self::IOPL_MAX,
    {
        let level: u64 = get_field(self.0, Self::IOPL, Self::IOPL_SHIFT);
        proof {
            Self::lemma_iopl_round_trip(self, 0);
        }
        level as u8
    }

    /// Stores an I/O privilege level of at most 3 in bits 12 and 13. No other
    /// bit changes.
    pub fn set_iopl(&mut self, level: u8)
        requires
            level <= Self::IOPL_MAX,
        ensures
            final(self)@ == Self::with_iopl(old(self)@, level),
            Self::iopl_of(final(self)@) == level,
            keep(final(self)@, !Self::IOPL) == keep(old(self)@, !Self::IOPL),
    {
        let word: u64 = set_field(self.0, Self::IOPL, Self::IOPL_SHIFT, level as u64);
        proof {
            use_type_invariant(&*self);
            Self::lemma_layout();
            Self::lemma_iopl_round_trip(*self, level);
            lemma_field_within(self.0, Self::IOPL, Self::IOPL_SHIFT, level as u64, Self::LAYOUT);
        }
        self.0 = word;
    }
}

impl Default for RFlags {
    /// The reset state: the reserved bit 1 set, and nothing else.
    fn default() -> (r: Self)
        ensures
            r@ == RFlags::RESERVED_ONE,
    {
        proof {
            RFlags::lemma_layout();
        }
        RFlags(RFlags::RESERVED_ONE)
    }
}

} // verus!
