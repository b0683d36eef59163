//! Control register 0: operating mode and cache control of the processor.

use crate::bits::{
    check, keep, lemma_bounds, lemma_closed, strict, truncate, within, InvalidBits,
};
use vstd::prelude::*;

verus! {

/// A set of CR0 flags. Its view is the raw register word, which never holds
/// a bit outside [`Cr0::ALL`].
#[derive(Clone, Copy, Debug, PartialEq, Eq, Structural, Hash)]
pub struct Cr0(u64);

impl View for Cr0 {
    type V = u64;

    closed spec fn view(&self) -> u64 {
        self.0
    }
}

impl Cr0 {
    /// Enables protected mode.
    pub const PROTECTED_MODE_ENABLE: u64 = 0x1;

    /// Enables monitoring of the coprocessor: together with `TASK_SWITCHED`
    /// it decides whether `wait` and `fwait` raise device-not-available.
    pub const MONITOR_COPROCESSOR: u64 = 0x2;

    /// Forces every x87 and MMX instruction to raise an exception.
    pub const EMULATE_COPROCESSOR: u64 = 0x4;

    /// Set by the processor on a hardware task switch, so that x87, MMX and
    /// SSE state can be saved lazily.
    pub const TASK_SWITCHED: u64 = 0x8;

    /// Tells an 80387 coprocessor (set) from an 80287 (clear).
    pub const EXTENSION_TYPE: u64 = 0x10;

    /// Enables the native reporting of x87 FPU errors.
    pub const NUMERIC_ERROR: u64 = 0x20;

    /// Stops ring 0 from writing to read-only pages.
    pub const WRITE_PROTECT: u64 = 0x1_0000;

    /// Enables automatic alignment checking.
    pub const ALIGNMENT_MASK: u64 = 0x4_0000;

    /// Ignored; chose between write-back and write-through caching on
    /// older processors.
    pub const NOT_WRITE_THROUGH: u64 = 0x2000_0000;

    /// Disables the internal caches.
    pub const CACHE_DISABLE: u64 = 0x4000_0000;

    /// Enables page translation.
    pub const PAGING: u64 = 0x8000_0000;

    /// Every named flag together.
    pub const ALL: u64 = 0xe005_003f;

    /// The raw word holds named flags only.
    #[verifier::type_invariant]
    pub open spec fn wf(self) -> bool {
        within(self@, Self::ALL)
    }

    /// Whether every bit of `mask` is set in this value.
    pub open spec fn has(self, mask: u64) -> bool {
        self@ & mask == mask
    }

    /// Two values with the same raw word are the same value.
    pub proof fn lemma_same_bits(a: Self, b: Self)
        requires
            a@ == b@,
        ensures
            a == b,
    {
    }

    /// `ALL` is made of the named flags, and no two of them share a bit:
    /// their union and their sum are the same word.
    pub proof fn lemma_all()
        ensures
            Self::ALL == Self::PROTECTED_MODE_ENABLE | Self::MONITOR_COPROCESSOR
                | Self::EMULATE_COPROCESSOR | Self::TASK_SWITCHED | Self::EXTENSION_TYPE
                | Self::NUMERIC_ERROR | Self::WRITE_PROTECT | Self::ALIGNMENT_MASK
                | Self::NOT_WRITE_THROUGH | Self::CACHE_DISABLE | Self::PAGING,
            Self::ALL == Self::PROTECTED_MODE_ENABLE + Self::MONITOR_COPROCESSOR
                + Self::EMULATE_COPROCESSOR + Self::TASK_SWITCHED + Self::EXTENSION_TYPE
                + Self::NUMERIC_ERROR + Self::WRITE_PROTECT + Self::ALIGNMENT_MASK
                + Self::NOT_WRITE_THROUGH + Self::CACHE_DISABLE + Self::PAGING,
    {
        assert(0xe005_003fu64 == 0x1u64 | 0x2 | 0x4 | 0x8 | 0x10 | 0x20 | 0x1_0000 | 0x4_0000
            | 0x2000_0000 | 0x4000_0000 | 0x8000_0000) by (bit_vector);
    }

    /// The set with no flag.
    pub fn empty() -> (r: Self)
        ensures
            r@ == 0,
    {
        proof {
            lemma_bounds(Self::ALL);
        }
        Cr0(0)
    }

    /// The set with every named flag.
    pub fn all() -> (r: Self)
        ensures
            r@ == Self::ALL,
    {
        let word: u64 = Self::ALL;
        proof {
            lemma_bounds(Self::ALL);
        }
        Cr0(word)
    }

    /// The raw register word.
    pub fn bits(&self) -> (r: u64)
        ensures
            r == self@,
            within(r, Self::ALL),
    {
        proof {
            use_type_invariant(self);
        }
        self.0
    }

    /// Strict construction: accepts `bits` only if it sets no bit that
    /// names no flag, and otherwise reports those bits.
    pub fn from_bits(bits: u64) -> (r: Result<Self, InvalidBits>)
        ensures
            r is Ok <==> within(bits, Self::ALL),
            match r {
                Ok(s) => strict(bits, Self::ALL) == Ok::<u64, InvalidBits>(s@),
                Err(e) => strict(bits, Self::ALL) == Err::<u64, InvalidBits>(e),
            },
    {
        match check(bits, Self::ALL) {
            Ok(word) => Ok(Cr0(word)),
            Err(e) => Err(e),
        }
    }

    /// Truncating construction: clears every bit of `bits` that names no
    /// flag.
    pub fn from_bits_truncate(bits: u64) -> (r: Self)
        ensures
            r@ == keep(bits, Self::ALL),
    {
        let word: u64 = truncate(bits, Self::ALL);
        Cr0(word)
    }

    /// Whether no bit is set.
    pub fn is_empty(&self) -> (r: bool)
        ensures
            r == (self@ == 0),
    {
        self.0 == 0
    }

    /// Whether every flag of `other` is set in this value.
    pub fn contains(&self, other: Self) -> (r: bool)
        ensures
            r == self.has(other@),
    {
        (self.0 & other.0) == other.0
    }

    /// Sets every flag of `other`.
    pub fn insert(&mut self, other: Self)
        ensures
            final(self)@ == old(self)@ | other@,
    {
        let word: u64 = self.0 | other.0;
        proof {
            use_type_invariant(&*self);
            use_type_invariant(other);
            lemma_closed(self.0, other.0, Self::ALL);
        }
        self.0 = word;
    }

    /// Clears every flag of `other`.
    pub fn remove(&mut self, other: Self)
        ensures
            final(self)@ == old(self)@ & !other@,
    {
        let word: u64 = self.0 & !other.0;
        proof {
            use_type_invariant(&*self);
            use_type_invariant(other);
            lemma_closed(self.0, other.0, Self::ALL);
        }
        self.0 = word;
    }

    /// Flips every flag of `other`.
    pub fn toggle(&mut self, other: Self)
        ensures
            final(self)@ == old(self)@ ^ other@,
    {
        let word: u64 = self.0 ^ other.0;
        proof {
            use_type_invariant(&*self);
            use_type_invariant(other);
            lemma_closed(self.0, other.0, Self::ALL);
        }
        self.0 = word;
    }

    /// The flags set in either value.
    pub fn union(self, other: Self) -> (r: Self)
        ensures
            r@ == self@ | other@,
    {
        proof {
            use_type_invariant(self);
            use_type_invariant(other);
            lemma_closed(self.0, other.0, Self::ALL);
        }
        Cr0(self.0 | other.0)
    }

    /// The flags set in both values.
    pub fn intersection(self, other: Self) -> (r: Self)
        ensures
            r@ == self@ & other@,
    {
        proof {
            use_type_invariant(self);
            use_type_invariant(other);
            lemma_closed(self.0, other.0, Self::ALL);
        }
        Cr0(self.0 & other.0)
    }

    /// The flags set in this value and not in `other`.
    pub fn difference(self, other: Self) -> (r: Self)
        ensures
            r@ == self@ & !other@,
    {
        proof {
            use_type_invariant(self);
            use_type_invariant(other);
            lemma_closed(self.0, other.0, Self::ALL);
        }
        Cr0(self.0 & !other.0)
    }

    /// The named flags that are not set in this value.
    pub fn complement(self) -> (r: Self)
        ensures
            r@ == keep(!self@, Self::ALL),
    {
        let word: u64 = truncate(!self.0, Self::ALL);
        Cr0(word)
    }
}

impl Default for Cr0 {
    /// The empty set.
    fn default() -> (r: Self)
        ensures
            r@ == 0,
    {
        Cr0::empty()
    }
}

} // verus!
