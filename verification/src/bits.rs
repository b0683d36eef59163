//! Bit-level vocabulary shared by every register model.
//!
//! A register is modelled by its raw 64-bit word. A flag set is a word that
//! lies within the mask of its named bits; a composite field is a run of bits
//! selected by a mask and read at a shift.

use vstd::prelude::*;

verus! {

/// The reason a strict construction was refused: the bits of the input that
/// name no flag of the register.
#[derive(Clone, Copy, Debug, PartialEq, Eq, Structural)]
pub struct InvalidBits {
    pub unknown: u64,
}

/// Whether bit `i` of `word` is set.
pub open spec fn bit(word: u64, i: u64) -> bool {
    (word >> i) & 1 == 1
}

/// Whether every set bit of `word` is also set in `mask`.
pub open spec fn within(word: u64, mask: u64) -> bool {
    word & !mask == 0
}

/// The part of `word` that lies inside `mask`.
pub open spec fn keep(word: u64, mask: u64) -> u64 {
    word & mask
}

/// The outcome of accepting `word` only if it lies within `mask`.
pub open spec fn strict(word: u64, mask: u64) -> Result<u64, InvalidBits> {
    if within(word, mask) {
        Ok(word)
    } else {
        Err(InvalidBits { unknown: word & !mask })
    }
}

/// The value of the field of `word` selected by `mask`, read at `shift`.
pub open spec fn field(word: u64, mask: u64, shift: u64) -> u64 {
    (word & mask) >> shift
}

/// `word` with the field selected by `mask` replaced by `value` placed at
/// `shift`; bits outside `mask` are those of `word`.
pub open spec fn with_field(word: u64, mask: u64, shift: u64, value: u64) -> u64 {
    (word & !mask) | ((value << shift) & mask)
}

/// Whether `value` can be stored in the field selected by `mask` at `shift`
/// and read back unchanged.
pub open spec fn fits(value: u64, mask: u64, shift: u64) -> bool {
    ((value << shift) & mask) >> shift == value
}

/// Truncation lands within the mask, keeps exactly the bits that the mask
/// selects, and changes nothing of a word that already lies within it.
pub proof fn lemma_keep(word: u64, mask: u64)
    ensures
        within(keep(word, mask), mask),
        within(word, mask) <==> keep(word, mask) == word,
        forall|i: u64|
            i < 64 ==> (#[trigger] bit(keep(word, mask), i) <==> bit(word, i) && bit(mask, i)),
{
    assert((word & mask) & !mask == 0) by (bit_vector);
    assert(word & !mask == 0 <==> word & mask == word) by (bit_vector);
    assert(forall|i: u64|
        i < 64 ==> (((word & mask) >> i) & 1 == 1 <==> (word >> i) & 1 == 1 && (mask >> i) & 1
            == 1)) by (bit_vector);
}

/// The empty word and the mask itself lie within the mask, and truncation
/// leaves both as they are.
pub proof fn lemma_bounds(mask: u64)
    ensures
        within(0, mask),
        within(mask, mask),
        keep(0, mask) == 0,
        keep(mask, mask) == mask,
{
    assert(0u64 & !mask == 0 && mask & !mask == 0 && 0u64 & mask == 0 && mask & mask == mask)
        by (bit_vector);
}

/// Strict construction accepts every word that lies within the mask and
/// hands it back unchanged, and so does truncation.
pub proof fn lemma_known_round_trip(word: u64, mask: u64)
    requires
        within(word, mask),
    ensures
        strict(word, mask) == Ok::<u64, InvalidBits>(word),
        keep(word, mask) == word,
{
    lemma_keep(word, mask);
}

/// A word with a bit outside the mask is refused by strict construction,
/// which reports the offending bits; truncation accepts it and clears every
/// bit outside the mask, so the result differs from the input.
pub proof fn lemma_unknown_rejected(word: u64, mask: u64)
    requires
        !within(word, mask),
    ensures
        strict(word, mask) == Err::<u64, InvalidBits>(InvalidBits { unknown: word & !mask }),
        word & !mask != 0,
        within(keep(word, mask), mask),
        keep(word, mask) != word,
        forall|i: u64| i < 64 && !bit(mask, i) ==> !(#[trigger] bit(keep(word, mask), i)),
{
    lemma_keep(word, mask);
}

/// The set operations keep two words that lie within a mask inside it.
pub proof fn lemma_closed(a: u64, b: u64, mask: u64)
    requires
        within(a, mask),
        within(b, mask),
    ensures
        within(a | b, mask),
        within(a & b, mask),
        within(a & !b, mask),
        within(a ^ b, mask),
{
    assert(a & !mask == 0 && b & !mask == 0 ==> (a | b) & !mask == 0 && (a & b) & !mask == 0 && (a
        & !b) & !mask == 0 && (a ^ b) & !mask == 0) by (bit_vector);
}

/// A word that lies within a mask also lies within every wider mask.
pub proof fn lemma_within_wider(word: u64, mask: u64, wider: u64)
    requires
        within(word, mask),
        within(mask, wider),
    ensures
        within(word, wider),
{
    assert(word & !mask == 0 && mask & !wider == 0 ==> word & !wider == 0) by (bit_vector);
}

/// Writing a field and reading it back gives the value written, and the
/// bits outside the field keep their former state.
pub proof fn lemma_field_round_trip(word: u64, mask: u64, shift: u64, value: u64)
    requires
        shift < 64,
        fits(value, mask, shift),
    ensures
        field(with_field(word, mask, shift, value), mask, shift) == value,
        keep(with_field(word, mask, shift, value), !mask) == keep(word, !mask),
        forall|i: u64|
            i < 64 && !bit(mask, i) ==> (#[trigger] bit(with_field(word, mask, shift, value), i)
                <==> bit(word, i)),
{
    assert((((word & !mask) | ((value << shift) & mask)) & mask) >> shift == ((value << shift)
        & mask) >> shift) by (bit_vector);
    assert(((word & !mask) | ((value << shift) & mask)) & !mask == word & !mask) by (bit_vector);
    assert(forall|i: u64|
        i < 64 && (mask >> i) & 1 != 1 ==> ((((word & !mask) | ((value << shift) & mask)) >> i) & 1
            == 1 <==> (word >> i) & 1 == 1)) by (bit_vector);
}

/// Writing a field leaves the word within any mask that held both the old
/// word and the field.
pub proof fn lemma_field_within(word: u64, mask: u64, shift: u64, value: u64, layout: u64)
    requires
        within(word, layout),
        within(mask, layout),
    ensures
        within(with_field(word, mask, shift, value), layout),
{
    assert(word & !layout == 0 && mask & !layout == 0 ==> ((word & !mask) | ((value << shift)
        & mask)) & !layout == 0) by (bit_vector);
}

/// Clears every bit of `word` that lies outside `mask`.
pub fn truncate(word: u64, mask: u64) -> (r: u64)
    ensures
        r == keep(word, mask),
        within(r, mask),
{
    proof {
        lemma_keep(word, mask);
    }
    word & mask
}

/// Accepts `word` if it lies within `mask`, and otherwise reports the bits
/// that do not.
pub fn check(word: u64, mask: u64) -> (r: Result<u64, InvalidBits>)
    ensures
        r == strict(word, mask),
{
    let unknown: u64 = word & !mask;
    if unknown == 0 {
        Ok(word)
    } else {
        Err(InvalidBits { unknown })
    }
}

/// Reads the field of `word` selected by `mask` at `shift`.
pub fn get_field(word: u64, mask: u64, shift: u64) -> (r: u64)
    requires
        shift < 64,
    ensures
        r == field(word, mask, shift),
{
    (word & mask) >> shift
}

/// Replaces the field of `word` selected by `mask` by `value` placed at
/// `shift`.
pub fn set_field(word: u64, mask: u64, shift: u64, value: u64) -> (r: u64)
    requires
        shift < 64,
    ensures
        r == with_field(word, mask, shift, value),
{
    (word & !mask) | ((value << shift) & mask)
}

} // verus!
