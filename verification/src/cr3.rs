//! Control register 3: the base of the top-level page table, and below it
//! either two cache-control flags or a process-context identifier.
//!
//! Which of the two the low twelve bits hold is decided by `Cr4::PCID`, which
//! the register itself does not record: every accessor of the low bits takes
//! the current CR4 value and is only defined for the matching mode.

use crate::bits::{
    check, field, get_field, keep, lemma_bounds, lemma_closed, lemma_field_round_trip, set_field,
    strict, truncate, with_field, within, InvalidBits,
};
use crate::cr4::Cr4;
use vstd::prelude::*;

verus! {

/// The cache-control flags of CR3, which the register holds while
/// process-context identifiers are switched off. Its view is the raw word,
/// which never holds a bit outside [`Cr3Flags::ALL`].
#[derive(Clone, Copy, Debug, PartialEq, Eq, Structural, Hash)]
pub struct Cr3Flags(u64);

impl View for Cr3Flags {
    type V = u64;

    closed spec fn view(&self) -> u64 {
        self.0
    }
}

impl Cr3Flags {
    /// Caches the top-level page table write-through instead of
    /// write-back.
    pub const PAGE_LEVEL_WRITETHROUGH: u64 = 0x8;

    /// Disables caching of the top-level page table.
    pub const PAGE_LEVEL_CACHE_DISABLE: u64 = 0x10;

    /// Every named flag together.
    pub const ALL: u64 = 0x18;

    /// The raw word holds named flags only.
    #[verifier::type_invariant]
    pub open spec fn wf(self) -> bool {
        within(self@, Self::ALL)
    }

    /// Whether every bit of `mask` is set in this value.
    pub open spec fn has(self, mask: u64) -> bool {
        self@ & mask == mask
    }

    /// Two values with the same raw word are the same value.
    pub proof fn lemma_same_bits(a: Self, b: Self)
        requires
            a@ == b@,
        ensures
            a == b,
    {
    }

    /// `ALL` is made of the named flags, and no two of them share a bit:
    /// their union and their sum are the same word.
    pub proof fn lemma_all()
        ensures
            Self::ALL == Self::PAGE_LEVEL_WRITETHROUGH | Self::PAGE_LEVEL_CACHE_DISABLE,
            Self::ALL == Self::PAGE_LEVEL_WRITETHROUGH + Self::PAGE_LEVEL_CACHE_DISABLE,
    {
        assert(0x18u64 == 0x8u64 | 0x10) by (bit_vector);
    }

    /// The set with no flag.
    pub fn empty() -> (r: Self)
        ensures
            r@ == 0,
    {
        proof {
            lemma_bounds(Self::ALL);
        }
        Cr3Flags(0)
    }

    /// The set with every named flag.
    pub fn all() -> (r: Self)
        ensures
            r@ == Self::ALL,
    {
        let word: u64 = Self::ALL;
        proof {
            lemma_bounds(Self::ALL);
        }
        Cr3Flags(word)
    }

    /// The raw register word.
    pub fn bits(&self) -> (r: u64)
        ensures
            r == self@,
            within(r, Self::ALL),
    {
        proof {
            use_type_invariant(self);
        }
        self.0
    }

    /// Strict construction: accepts `bits` only if it sets no bit that
    /// names no flag, and otherwise reports those bits.
    pub fn from_bits(bits: u64) -> (r: Result<Self, InvalidBits>)
        ensures
            r is Ok <==> within(bits, Self::ALL),
            match r {
                Ok(s) => strict(bits, Self::ALL) == Ok::<u64, InvalidBits>(s@),
                Err(e) => strict(bits, Self::ALL) == Err::<u64, InvalidBits>(e),
            },
    {
        match check(bits, Self::ALL) {
            Ok(word) => Ok(Cr3Flags(word)),
            Err(e) => Err(e),
        }
    }

    /// Truncating construction: clears every bit of `bits` that names no
    /// flag.
    pub fn from_bits_truncate(bits: u64) -> (r: Self)
        ensures
            r@ == keep(bits, Self::ALL),
    {
        let word: u64 = truncate(bits, Self::ALL);
        Cr3Flags(word)
    }

    /// Whether no bit is set.
    pub fn is_empty(&self) -> (r: bool)
        ensures
            r == (self@ == 0),
    {
        self.0 == 0
    }

    /// Whether every flag of `other` is set in this value.
    pub fn contains(&self, other: Self) -> (r: bool)
        ensures
            r == self.has(other@),
    {
        (self.0 & other.0) == other.0
    }

    /// Sets every flag of `other`.
    pub fn insert(&mut self, other: Self)
        ensures
            final(self)@ == old(self)@ | other@,
    {
        let word: u64 = self.0 | other.0;
        proof {
            use_type_invariant(&*self);
            use_type_invariant(other);
            lemma_closed(self.0, other.0, Self::ALL);
        }
        self.0 = word;
    }

    /// Clears every flag of `other`.
    pub fn remove(&mut self, other: Self)
        ensures
            final(self)@ == old(self)@ & !other@,
    {
        let word: u64 = self.0 & !other.0;
        proof {
            use_type_invariant(&*self);
            use_type_invariant(other);
            lemma_closed(self.0, other.0, Self::ALL);
        }
        self.0 = word;
    }

    /// Flips every flag of `other`.
    pub fn toggle(&mut self, other: Self)
        ensures
            final(self)@ == old(self)@ ^ other@,
    {
        let word: u64 = self.0 ^ other.0;
        proof {
            use_type_invariant(&*self);
            use_type_invariant(other);
            lemma_closed(self.0, other.0, Self::ALL);
        }
        self.0 = word;
    }

    /// The flags set in either value.
    pub fn union(self, other: Self) -> (r: Self)
        ensures
            r@ == self@ | other@,
    {
        proof {
            use_type_invariant(self);
            use_type_invariant(other);
            lemma_closed(self.0, other.0, Self::ALL);
        }
        Cr3Flags(self.0 | other.0)
    }

    /// The flags set in both values.
    pub fn intersection(self, other: Self) -> (r: Self)
        ensures
            r@ == self@ & other@,
    {
        proof {
            use_type_invariant(self);
            use_type_invariant(other);
            lemma_closed(self.0, other.0, Self::ALL);
        }
        Cr3Flags(self.0 & other.0)
    }

    /// The flags set in this value and not in `other`.
    pub fn difference(self, other: Self) -> (r: Self)
        ensures
            r@ == self@ & !other@,
    {
        proof {
            use_type_invariant(self);
            use_type_invariant(other);
            lemma_closed(self.0, other.0, Self::ALL);
        }
        Cr3Flags(self.0 & !other.0)
    }

    /// The named flags that are not set in this value.
    pub fn complement(self) -> (r: Self)
        ensures
            r@ == keep(!self@, Self::ALL),
    {
        let word: u64 = truncate(!self.0, Self::ALL);
        Cr3Flags(word)
    }
}

impl Default for Cr3Flags {
    /// The empty set.
    fn default() -> (r: Self)
        ensures
            r@ == 0,
    {
        Cr3Flags::empty()
    }
}

/// A CR3 value. Its view is the raw register word; every word is a value.
#[derive(Clone, Copy, Debug, PartialEq, Eq, Structural, Hash)]
pub struct Cr3(u64);

impl View for Cr3 {
    type V = u64;

    closed spec fn view(&self) -> u64 {
        self.0
    }
}

impl Cr3 {
    /// The low twelve bits: cache flags or process-context identifier.
    pub const MASK: u64 = 0xfff;

    /// The bits that hold the page-table base.
    pub const BASE: u64 = 0xffff_ffff_ffff_f000;

    /// The three lowest bits, which no interpretation uses.
    pub const RESERVED: u64 = 0x7;

    /// The largest physical address that the architecture can express.
    pub const ADDRESS_MAX: u64 = 0xf_ffff_ffff_ffff;

    /// The largest process-context identifier.
    pub const PCID_MAX: u16 = 0xfff;

    /// Whether `address` can be a page-table base: aligned to a page and
    /// within the architectural width.
    pub open spec fn is_base(address: u64) -> bool {
        keep(address, Self::MASK) == 0 && address <= Self::ADDRESS_MAX
    }

    /// The cache flags that `word` holds.
    pub open spec fn flags_of(word: u64) -> u64 {
        keep(word, Cr3Flags::ALL)
    }

    /// The process-context identifier that `word` holds.
    pub open spec fn pcid_of(word: u64) -> u64 {
        field(word, Self::MASK, 0)
    }

    /// The page-table base that `word` holds: bits 12 to 63, moved back to
    /// their place in the address.
    pub open spec fn base_of(word: u64) -> u64 {
        (word >> 12) << 12
    }

    /// `word` with its low twelve bits replaced by `low`.
    pub open spec fn with_low(word: u64, low: u64) -> u64 {
        with_field(word, Self::MASK, 0, low)
    }

    /// `word` with its page-table base replaced by `address`.
    pub open spec fn with_base(word: u64, address: u64) -> u64 {
        with_field(word, Self::BASE, 0, address)
    }

    /// Two values with the same raw word are the same value.
    pub proof fn lemma_same_bits(a: Self, b: Self)
        requires
            a@ == b@,
        ensures
            a == b,
    {
    }

    /// The base is what the base mask selects, and replacing the low bits
    /// or the base touches nothing of the other. As numbers, the identifier
    /// is the word modulo 4096 and the base is the word rounded down to a
    /// multiple of 4096.
    pub proof fn lemma_layout(word: u64, value: u64)
        ensures
            Self::base_of(word) == keep(word, Self::BASE),
            Self::BASE == !Self::MASK,
            Self::pcid_of(word) == word % 4096,
            Self::base_of(word) == (word / 4096) * 4096,
            Self::base_of(word) + Self::pcid_of(word) == word,
            Self::base_of(Self::with_low(word, value)) == Self::base_of(word),
            keep(Self::with_base(word, value), Self::MASK) == keep(word, Self::MASK),
    {
        assert((word >> 12) << 12 == word & 0xffff_ffff_ffff_f000) by (bit_vector);
        assert(0xffff_ffff_ffff_f000u64 == !0xfffu64) by (bit_vector);
        assert((word & 0xfff) >> 0u64 == word % 4096 && (word >> 12) << 12 == (word / 4096) * 4096)
            by (bit_vector);
        assert((((word & !0xfffu64) | ((value << 0u64) & 0xfff)) >> 12) << 12 == (word >> 12)
            << 12) by (bit_vector);
        assert(((word & !0xffff_ffff_ffff_f000u64) | ((value << 0u64) & 0xffff_ffff_ffff_f000))
            & 0xfff == word & 0xfff) by (bit_vector);
    }

    /// Cache flags that were stored while process-context identifiers are
    /// off are read back unchanged, the reserved bits below them are zero,
    /// and the page-table base is untouched.
    pub proof fn lemma_flags_round_trip(cr3: Cr3, cr4: Cr4, flags: Cr3Flags)
        requires
            !cr4.has(Cr4::PCID),
            flags.wf(),
        ensures
            Self::flags_of(Self::with_low(cr3@, flags@)) == flags@,
            keep(Self::with_low(cr3@, flags@), Self::MASK) == flags@,
            keep(Self::with_low(cr3@, flags@), Self::RESERVED) == 0,
            Self::base_of(Self::with_low(cr3@, flags@)) == Self::base_of(cr3@),
    {
        let word: u64 = cr3@;
        let low: u64 = flags@;
        assert(low & !0x18u64 == 0 ==> ((word & !0xfffu64) | ((low << 0u64) & 0xfff)) & 0x18 == low
            && ((word & !0xfffu64) | ((low << 0u64) & 0xfff)) & 0xfff == low && ((word
            & !0xfffu64) | ((low << 0u64) & 0xfff)) & 0x7 == 0) by (bit_vector);
        Self::lemma_layout(word, low);
    }

    /// A process-context identifier of at most twelve bits that was stored
    /// while identifiers are on is read back unchanged, and the page-table
    /// base is untouched.
    pub proof fn lemma_pcid_round_trip(cr3: Cr3, cr4: Cr4, pcid: u16)
        requires
            cr4.has(Cr4::PCID),
            pcid <= Self::PCID_MAX,
        ensures
            Self::pcid_of(Self::with_low(cr3@, pcid as u64)) == pcid,
            Self::base_of(Self::with_low(cr3@, pcid as u64)) == Self::base_of(cr3@),
    {
        let value: u64 = pcid as u64;
        assert(value <= 0xfff ==> ((value << 0u64) & 0xfff) >> 0u64 == value) by (bit_vector);
        lemma_field_round_trip(cr3@, Self::MASK, 0, value);
        Self::lemma_layout(cr3@, value);
    }

    /// A page-aligned address within the architectural width that was
    /// stored as the page-table base is read back unchanged, and the low
    /// twelve bits are untouched.
    pub proof fn lemma_base_round_trip(cr3: Cr3, address: u64)
        requires
            Self::is_base(address),
        ensures
            Self::base_of(Self::with_base(cr3@, address)) == address,
            keep(Self::with_base(cr3@, address), Self::MASK) == keep(cr3@, Self::MASK),
    {
        let word: u64 = cr3@;
        assert(address & 0xfff == 0 ==> ((((word & !0xffff_ffff_ffff_f000u64) | ((address << 0u64)
            & 0xffff_ffff_ffff_f000)) >> 12) << 12) == address) by (bit_vector);
        Self::lemma_layout(word, address);
    }

    /// The value with the raw word `bits`.
    pub fn new(bits: u64) -> (r: Self)
        ensures
            r@ == bits,
    {
        Cr3(bits)
    }

    /// The raw register word.
    pub fn bits(&self) -> (r: u64)
        ensures
            r == self@,
    {
        self.0
    }

    /// The cache flags, while process-context identifiers are off.
    pub fn flags(self, cr4: Cr4) -> (r: Cr3Flags)
        requires
            !cr4.has(Cr4::PCID),
        ensures
            r@ == Self::flags_of(self@),
    {
        Cr3Flags::from_bits_truncate(self.0)
    }

    /// Stores the cache flags, while process-context identifiers are off.
    /// The low twelve bits become the flags alone, so the reserved bits
    /// among them are cleared; the page-table base stays.
    pub fn set_flags(&mut self, cr4: Cr4, flags: Cr3Flags)
        requires
            !cr4.has(Cr4::PCID),
        ensures
            final(self)@ == Self::with_low(old(self)@, flags@),
            Self::flags_of(final(self)@) == flags@,
            keep(final(self)@, Self::MASK) == flags@,
            keep(final(self)@, Self::RESERVED) == 0,
            Self::base_of(final(self)@) == Self::base_of(old(self)@),
    {
        proof {
            use_type_invariant(flags);
            Self::lemma_flags_round_trip(*self, cr4, flags);
        }
        self.0 = set_field(self.0, Self::MASK, 0, flags.bits());
    }

    /// The process-context identifier, while identifiers are on.
    pub fn pcid(self, cr4: Cr4) -> (r: u16)
        requires
            cr4.has(Cr4::PCID),
        ensures
            r == Self::pcid_of(self@),
            r == self@ % 4096,
            r <= Self::PCID_MAX,
    {
        let word: u64 = self.0;
        proof {
            Self::lemma_layout(word, 0);
        }
        let low: u64 = get_field(word, Self::MASK, 0);
        assert(low <= 0xfff) by (bit_vector)
            requires
                low == (word & 0xfff) >> 0u64,
        ;
        low as u16
    }

    /// Stores a process-context identifier of at most twelve bits, while
    /// identifiers are on. The low twelve bits become the identifier; the
    /// page-table base stays.
    pub fn set_pcid(&mut self, cr4: Cr4, pcid: u16)
        requires
            cr4.has(Cr4::PCID),
            pcid <= Self::PCID_MAX,
        ensures
            final(self)@ == Self::with_low(old(self)@, pcid as u64),
            Self::pcid_of(final(self)@) == pcid,
            Self::base_of(final(self)@) == Self::base_of(old(self)@),
    {
        proof {
            Self::lemma_pcid_round_trip(*self, cr4, pcid);
        }
        self.0 = set_field(self.0, Self::MASK, 0, pcid as u64);
    }

    /// The physical address of the top-level page table: bits 12 to 63 of
    /// the register, at their place in the address.
    pub fn pml4(self) -> (r: u64)
        ensures
            r == Self::base_of(self@),
            r == (self@ / 4096) * 4096,
            keep(r, Self::MASK) == 0,
    {
        let word: u64 = self.0;
        proof {
            Self::lemma_layout(word, 0);
        }
        assert(((word >> 12) << 12) & 0xfff == 0) by (bit_vector);
        (word >> 12) << 12
    }

    /// Stores the physical address of the top-level page table, which is
    /// page-aligned and within the architectural width. The low twelve bits
    /// stay.
    pub fn set_pml4(&mut self, pml4: u64)
        requires
            Self::is_base(pml4),
        ensures
            final(self)@ == Self::with_base(old(self)@, pml4),
            Self::base_of(final(self)@) == pml4,
            keep(final(self)@, Self::MASK) == keep(old(self)@, Self::MASK),
    {
        proof {
            Self::lemma_base_round_trip(*self, pml4);
        }
        self.0 = set_field(self.0, Self::BASE, 0, pml4);
    }
}

impl Default for Cr3 {
    /// The zero register: no flag, no identifier, base address zero.
    fn default() -> (r: Self)
        ensures
            r@ == 0,
    {
        Cr3(0)
    }
}

} // verus!
