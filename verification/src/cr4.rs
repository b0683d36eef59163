//! Control register 4: processor extensions such as virtualization, I/O
//! breakpoints and page size.

use crate::bits::{
    check, keep, lemma_bounds, lemma_closed, strict, truncate, within, InvalidBits,
};
use vstd::prelude::*;

verus! {

/// A set of CR4 flags. Its view is the raw register word, which never holds
/// a bit outside [`Cr4::ALL`].
#[derive(Clone, Copy, Debug, PartialEq, Eq, Structural, Hash)]
pub struct Cr4(u64);

impl View for Cr4 {
    type V = u64;

    closed spec fn view(&self) -> u64 {
        self.0
    }
}

impl Cr4 {
    /// Enables the virtual interrupt flag in virtual-8086 mode.
    pub const VIRTUAL_MODE_EXTENSIONS: u64 = 0x1;

    /// Enables the virtual interrupt flag in protected mode.
    pub const PROTECTED_VIRTUAL_INTERRUPTS: u64 = 0x2;

    /// Restricts RDTSC to ring 0.
    pub const NO_TIMESTAMP: u64 = 0x4;

    /// Enables debug-register breaks on I/O space access.
    pub const DEBUGGING_EXTENSIONS: u64 = 0x8;

    /// Enables 4 MiB pages; ignored under PAE and in long mode.
    pub const PAGE_SIZE_EXTENSION: u64 = 0x10;

    /// Switches the page table layout to 36-bit physical addresses.
    pub const PHYSICAL_ADDRESS_EXTENSION: u64 = 0x20;

    /// Enables machine check interrupts.
    pub const MACHINE_CHECK_EXTENSION: u64 = 0x40;

    /// Lets address translations be shared between address spaces.
    pub const PAGE_GLOBAL: u64 = 0x80;

    /// Allows RDPMC at every privilege level instead of ring 0 only.
    pub const PERFORMANCE_COUNTER: u64 = 0x100;

    /// Enables the SSE instructions and fast FPU save and restore.
    pub const FXSR: u64 = 0x200;

    /// Enables unmasked SSE exceptions.
    pub const XMM_EXCEPTIONS: u64 = 0x400;

    /// Stops SGDT, SIDT, SLDT, SMSW and STR outside ring 0.
    pub const USE_MODE_INSTRUCTION_PREVENTION: u64 = 0x800;

    /// Enables five-level paging.
    pub const FIVE_LEVEL_PAGING: u64 = 0x1000;

    /// Enables Intel VT-x virtualization.
    pub const VIRTUAL_MACHINE_EXTENSIONS: u64 = 0x2000;

    /// Enables Intel Trusted Execution Technology.
    pub const SAFER_MODE_EXTENSIONS: u64 = 0x4000;

    /// Enables RDFSBASE, RDGSBASE, WRFSBASE and WRGSBASE.
    pub const FSGSBASE: u64 = 0x1_0000;

    /// Enables process-context identifiers: the low twelve bits of CR3 then
    /// hold an identifier instead of cache flags.
    pub const PCID: u64 = 0x2_0000;

    /// Enables XSAVE and processor extended state.
    pub const XSAVE: u64 = 0x4_0000;

    /// Faults on execution of code that belongs to a higher ring.
    pub const SMEP: u64 = 0x10_0000;

    /// Faults on access to data that belongs to a higher ring.
    pub const SMAP: u64 = 0x20_0000;

    /// Enables protection keys.
    pub const PROTECTION_KEY: u64 = 0x40_0000;

    /// Every named flag together.
    pub const ALL: u64 = 0x77_7fff;

    /// The raw word holds named flags only.
    #[verifier::type_invariant]
    pub open spec fn wf(self) -> bool {
        within(self@, Self::ALL)
    }

    /// Whether every bit of `mask` is set in this value.
    pub open spec fn has(self, mask: u64) -> bool {
        self@ & mask == mask
    }

    /// Two values with the same raw word are the same value.
    pub proof fn lemma_same_bits(a: Self, b: Self)
        requires
            a@ == b@,
        ensures
            a == b,
    {
    }

    /// `ALL` is made of the named flags, and no two of them share a bit:
    /// their union and their sum are the same word.
    pub proof fn lemma_all()
        ensures
            Self::ALL == Self::VIRTUAL_MODE_EXTENSIONS | Self::PROTECTED_VIRTUAL_INTERRUPTS
                | Self::NO_TIMESTAMP | Self::DEBUGGING_EXTENSIONS | Self::PAGE_SIZE_EXTENSION
                | Self::PHYSICAL_ADDRESS_EXTENSION | Self::MACHINE_CHECK_EXTENSION
                | Self::PAGE_GLOBAL | Self::PERFORMANCE_COUNTER | Self::FXSR
                | Self::XMM_EXCEPTIONS | Self::USE_MODE_INSTRUCTION_PREVENTION
                | Self::FIVE_LEVEL_PAGING | Self::VIRTUAL_MACHINE_EXTENSIONS
                | Self::SAFER_MODE_EXTENSIONS | Self::FSGSBASE | Self::PCID | Self::XSAVE
                | Self::SMEP | Self::SMAP | Self::PROTECTION_KEY,
            Self::ALL == Self::VIRTUAL_MODE_EXTENSIONS + Self::PROTECTED_VIRTUAL_INTERRUPTS
                + Self::NO_TIMESTAMP + Self::DEBUGGING_EXTENSIONS + Self::PAGE_SIZE_EXTENSION
                + Self::PHYSICAL_ADDRESS_EXTENSION + Self::MACHINE_CHECK_EXTENSION
                + Self::PAGE_GLOBAL + Self::PERFORMANCE_COUNTER + Self::FXSR
                + Self::XMM_EXCEPTIONS + Self::USE_MODE_INSTRUCTION_PREVENTION
                + Self::FIVE_LEVEL_PAGING + Self::VIRTUAL_MACHINE_EXTENSIONS
                + Self::SAFER_MODE_EXTENSIONS + Self::FSGSBASE + Self::PCID + Self::XSAVE
                + Self::SMEP + Self::SMAP + Self::PROTECTION_KEY,
    {
        assert(0x77_7fffu64 == 0x1u64 | 0x2 | 0x4 | 0x8 | 0x10 | 0x20 | 0x40 | 0x80 | 0x100
            | 0x200 | 0x400 | 0x800 | 0x1000 | 0x2000 | 0x4000 | 0x1_0000 | 0x2_0000 | 0x4_0000
            | 0x10_0000 | 0x20_0000 | 0x40_0000) by (bit_vector);
    }

    /// The set with no flag.
    pub fn empty() -> (r: Self)
        ensures
            r@ == 0,
    {
        proof {
            lemma_bounds(Self::ALL);
        }
        Cr4(0)
    }

    /// The set with every named flag.
    pub fn all() -> (r: Self)
        ensures
            r@ == Self::ALL,
    {
        let word: u64 = Self::ALL;
        proof {
            lemma_bounds(Self::ALL);
        }
        Cr4(word)
    }

    /// The raw register word.
    pub fn bits(&self) -> (r: u64)
        ensures
            r == self@,
            within(r, Self::ALL),
    {
        proof {
            use_type_invariant(self);
        }
        self.0
    }

    /// Strict construction: accepts `bits` only if it sets no bit that
    /// names no flag, and otherwise reports those bits.
    pub fn from_bits(bits: u64) -> (r: Result<Self, InvalidBits>)
        ensures
            r is Ok <==> within(bits, Self::ALL),
            match r {
                Ok(s) => strict(bits, Self::ALL) == Ok::<u64, InvalidBits>(s@),
                Err(e) => strict(bits, Self::ALL) == Err::<u64, InvalidBits>(e),
            },
    {
        match check(bits, Self::ALL) {
            Ok(word) => Ok(Cr4(word)),
            Err(e) => Err(e),
        }
    }

    /// Truncating construction: clears every bit of `bits` that names no
    /// flag.
    pub fn from_bits_truncate(bits: u64) -> (r: Self)
        ensures
            r@ == keep(bits, Self::ALL),
    {
        let word: u64 = truncate(bits, Self::ALL);
        Cr4(word)
    }

    /// Whether no bit is set.
    pub fn is_empty(&self) -> (r: bool)
        ensures
            r == (self@ == 0),
    {
        self.0 == 0
    }

    /// Whether every flag of `other` is set in this value.
    pub fn contains(&self, other: Self) -> (r: bool)
        ensures
            r == self.has(other@),
    {
        (self.0 & other.0) == other.0
    }

    /// Sets every flag of `other`.
    pub fn insert(&mut self, other: Self)
        ensures
            final(self)@ == old(self)@ | other@,
    {
        let word: u64 = self.0 | other.0;
        proof {
            use_type_invariant(&*self);
            use_type_invariant(other);
            lemma_closed(self.0, other.0, Self::ALL);
        }
        self.0 = word;
    }

    /// Clears every flag of `other`.
    pub fn remove(&mut self, other: Self)
        ensures
            final(self)@ == old(self)@ & !other@,
    {
        let word: u64 = self.0 & !other.0;
        proof {
            use_type_invariant(&*self);
            use_type_invariant(other);
            lemma_closed(self.0, other.0, Self::ALL);
        }
        self.0 = word;
    }

    /// Flips every flag of `other`.
    pub fn toggle(&mut self, other: Self)
        ensures
            final(self)@ == old(self)@ ^ other@,
    {
        let word: u64 = self.0 ^ other.0;
        proof {
            use_type_invariant(&*self);
            use_type_invariant(other);
            lemma_closed(self.0, other.0, Self::ALL);
        }
        self.0 = word;
    }

    /// The flags set in either value.
    pub fn union(self, other: Self) -> (r: Self)
        ensures
            r@ == self@ | other@,
    {
        proof {
            use_type_invariant(self);
            use_type_invariant(other);
            lemma_closed(self.0, other.0, Self::ALL);
        }
        Cr4(self.0 | other.0)
    }

    /// The flags set in both values.
    pub fn intersection(self, other: Self) -> (r: Self)
        ensures
            r@ == self@ & other@,
    {
        proof {
            use_type_invariant(self);
            use_type_invariant(other);
            lemma_closed(self.0, other.0, Self::ALL);
        }
        Cr4(self.0 & other.0)
    }

    /// The flags set in this value and not in `other`.
    pub fn difference(self, other: Self) -> (r: Self)
        ensures
            r@ == self@ & !other@,
    {
        proof {
            use_type_invariant(self);
            use_type_invariant(other);
            lemma_closed(self.0, other.0, Self::ALL);
        }
        Cr4(self.0 & !other.0)
    }

    /// The named flags that are not set in this value.
    pub fn complement(self) -> (r: Self)
        ensures
            r@ == keep(!self@, Self::ALL),
    {
        let word: u64 = truncate(!self.0, Self::ALL);
        Cr4(word)
    }
}

impl Default for Cr4 {
    /// The empty set.
    fn default() -> (r: Self)
        ensures
            r@ == 0,
    {
        Cr4::empty()
    }
}

} // verus!
