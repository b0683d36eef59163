//! The extended feature enable register.

use crate::bits::{
    check, keep, lemma_bounds, lemma_closed, strict, truncate, within, InvalidBits,
};
use vstd::prelude::*;

verus! {

/// A set of EFER flags. Its view is the raw register word, which never
/// holds a bit outside [`Efer::ALL`].
#[derive(Clone, Copy, Debug, PartialEq, Eq, Structural, Hash)]
pub struct Efer(u64);

impl View for Efer {
    type V = u64;

    closed spec fn view(&self) -> u64 {
        self.0
    }
}

impl Efer {
    /// Enables the `syscall` and `sysret` instructions.
    pub const SYSTEM_CALL_EXTENSIONS: u64 = 0x1;

    /// Activates long mode once paging is switched on.
    pub const LONG_MODE_ENABLE: u64 = 0x100;

    /// Reports that long mode is active.
    pub const LONG_MODE_ACTIVE: u64 = 0x400;

    /// Enables the no-execute page protection.
    pub const NO_EXECUTE_ENABLE: u64 = 0x800;

    /// Enables the SVM extensions.
    pub const SECURE_VIRTUAL_MACHINE_ENABLE: u64 = 0x1000;

    /// Enables certain segment limit checks in 64-bit mode.
    pub const LONG_MODE_SEGMENT_LIMIT_ENABLE: u64 = 0x2000;

    /// Makes `fxsave` and `fxrstor` run faster in 64-bit mode.
    pub const FAST_FXSAVE_FXRSTOR: u64 = 0x4000;

    /// Changes how `invlpg` treats the TLB entries of upper-level
    /// page tables.
    pub const TRANSLATION_CACHE_EXTENSION: u64 = 0x8000;

    /// Every named flag together.
    pub const ALL: u64 = 0xfd01;

    /// The raw word holds named flags only.
    #[verifier::type_invariant]
    pub open spec fn wf(self) -> bool {
        within(self@, Self::ALL)
    }

    /// Whether every bit of `mask` is set in this value.
    pub open spec fn has(self, mask: u64) -> bool {
        self@ & mask == mask
    }

    /// Two values with the same raw word are the same value.
    pub proof fn lemma_same_bits(a: Self, b: Self)
        requires
            a@ == b@,
        ensures
            a == b,
    {
    }

    /// `ALL` is made of the named flags, and no two of them share a bit:
    /// their union and their sum are the same word.
    pub proof fn lemma_all()
        ensures
            Self::ALL == Self::SYSTEM_CALL_EXTENSIONS | Self::LONG_MODE_ENABLE
                | Self::LONG_MODE_ACTIVE | Self::NO_EXECUTE_ENABLE
                | Self::SECURE_VIRTUAL_MACHINE_ENABLE | Self::LONG_MODE_SEGMENT_LIMIT_ENABLE
                | Self::FAST_FXSAVE_FXRSTOR | Self::TRANSLATION_CACHE_EXTENSION,
            Self::ALL == Self::SYSTEM_CALL_EXTENSIONS + Self::LONG_MODE_ENABLE
                + Self::LONG_MODE_ACTIVE + Self::NO_EXECUTE_ENABLE
                + Self::SECURE_VIRTUAL_MACHINE_ENABLE + Self::LONG_MODE_SEGMENT_LIMIT_ENABLE
                + Self::FAST_FXSAVE_FXRSTOR + Self::TRANSLATION_CACHE_EXTENSION,
    {
        assert(0xfd01u64 == 0x1u64 | 0x100 | 0x400 | 0x800 | 0x1000 | 0x2000 | 0x4000
            | 0x8000) by (bit_vector);
    }

    /// The set with no flag.
    pub fn empty() -> (r: Self)
        ensures
            r@ == 0,
    {
        proof {
            lemma_bounds(Self::ALL);
        }
        Efer(0)
    }

    /// The set with every named flag.
    pub fn all() -> (r: Self)
        ensures
            r@ == Self::ALL,
    {
        let word: u64 = Self::ALL;
        proof {
            lemma_bounds(Self::ALL);
        }
        Efer(word)
    }

    /// The raw register word.
    pub fn bits(&self) -> (r: u64)
        ensures
            r == self@,
            within(r, Self::ALL),
    {
        proof {
            use_type_invariant(self);
        }
        self.0
    }

    /// Strict construction: accepts `bits` only if it sets no bit that
    /// names no flag, and otherwise reports those bits.
    pub fn from_bits(bits: u64) -> (r: Result<Self, InvalidBits>)
        ensures
            r is Ok <==> within(bits, Self::ALL),
            match r {
                Ok(s) => strict(bits, Self::ALL) == Ok::<u64, InvalidBits>(s@),
                Err(e) => strict(bits, Self::ALL) == Err::<u64, InvalidBits>(e),
            },
    {
        match check(bits, Self::ALL) {
            Ok(word) => Ok(Efer(word)),
            Err(e) => Err(e),
        }
    }

    /// Truncating construction: clears every bit of `bits` that names no
    /// flag.
    pub fn from_bits_truncate(bits: u64) -> (r: Self)
        ensures
            r@ == keep(bits, Self::ALL),
    {
        let word: u64 = truncate(bits, Self::ALL);
        Efer(word)
    }

    /// Whether no bit is set.
    pub fn is_empty(&self) -> (r: bool)
        ensures
            r == (self@ == 0),
    {
        self.0 == 0
    }

    /// Whether every flag of `other` is set in this value.
    pub fn contains(&self, other: Self) -> (r: bool)
        ensures
            r == self.has(other@),
    {
        (self.0 & other.0) == other.0
    }

    /// Sets every flag of `other`.
    pub fn insert(&mut self, other: Self)
        ensures
            final(self)@ == old(self)@ | other@,
    {
        let word: u64 = self.0 | other.0;
        proof {
            use_type_invariant(&*self);
            use_type_invariant(other);
            lemma_closed(self.0, other.0, Self::ALL);
        }
        self.0 = word;
    }

    /// Clears every flag of `other`.
    pub fn remove(&mut self, other: Self)
        ensures
            final(self)@ == old(self)@ & !other@,
    {
        let word: u64 = self.0 & !other.0;
        proof {
            use_type_invariant(&*self);
            use_type_invariant(other);
            lemma_closed(self.0, other.0, Self::ALL);
        }
        self.0 = word;
    }

    /// Flips every flag of `other`.
    pub fn toggle(&mut self, other: Self)
        ensures
            final(self)@ == old(self)@ ^ other@,
    {
        let word: u64 = self.0 ^ other.0;
        proof {
            use_type_invariant(&*self);
            use_type_invariant(other);
            lemma_closed(self.0, other.0, Self::ALL);
        }
        self.0 = word;
    }

    /// The flags set in either value.
    pub fn union(self, other: Self) -> (r: Self)
        ensures
            r@ == self@ | other@,
    {
        proof {
            use_type_invariant(self);
            use_type_invariant(other);
            lemma_closed(self.0, other.0, Self::ALL);
        }
        Efer(self.0 | other.0)
    }

    /// The flags set in both values.
    pub fn intersection(self, other: Self) -> (r: Self)
        ensures
            r@ == self@ & other@,
    {
        proof {
            use_type_invariant(self);
            use_type_invariant(other);
            lemma_closed(self.0, other.0, Self::ALL);
        }
        Efer(self.0 & other.0)
    }

    /// The flags set in this value and not in `other`.
    pub fn difference(self, other: Self) -> (r: Self)
        ensures
            r@ == self@ & !other@,
    {
        proof {
            use_type_invariant(self);
            use_type_invariant(other);
            lemma_closed(self.0, other.0, Self::ALL);
        }
        Efer(self.0 & !other.0)
    }

    /// The named flags that are not set in this value.
    pub fn complement(self) -> (r: Self)
        ensures
            r@ == keep(!self@, Self::ALL),
    {
        let word: u64 = truncate(!self.0, Self::ALL);
        Efer(word)
    }
}

impl Default for Efer {
    /// The empty set.
    fn default() -> (r: Self)
        ensures
            r@ == 0,
    {
        Efer::empty()
    }
}

} // verus!
