//! Bit packing of fields inside a storage word.
//!
//! A field is `len` contiguous bits starting at bit `low` (bit 0 is the least
//! significant). All words are handled as `u64`; narrower storage words are
//! widened before and narrowed after, which the lemmas below show to be exact.
use vstd::prelude::*;

verus! {

/// The all-ones word of `len` bits (`1 <= len <= 64`), built without a shift by 64.
pub open spec fn mask(len: u64) -> u64 {
    if len >= 64 {
        0xffff_ffff_ffff_ffffu64
    } else {
        !(0xffff_ffff_ffff_ffffu64 << len)
    }
}

/// The value of the field `[low + len - 1 : low]` of `word`.
pub open spec fn field_of(word: u64, low: u64, len: u64) -> u64 {
    (word >> low) & mask(len)
}

/// `word` with the field `[low + len - 1 : low]` replaced by the low `len` bits of `val`.
pub open spec fn with_field(word: u64, low: u64, len: u64, val: u64) -> u64 {
    (word & !(mask(len) << low)) | ((val & mask(len)) << low)
}

/// Whether bit `i` of `word` is one.
pub open spec fn bit_of(word: u64, i: u64) -> bool {
    (word >> i) & 1u64 == 1u64
}

/// Whether `i` lies inside the field `[low + len - 1 : low]`.
pub open spec fn in_field(i: u64, low: u64, len: u64) -> bool {
    low <= i && i < low + len
}

/// `word` with the field restored to the same bits of `reset`.
pub open spec fn reset_field(word: u64, low: u64, len: u64, reset: u64) -> u64 {
    with_field(word, low, len, field_of(reset, low, len))
}

/// Whether `word` fits in `width` bits.
pub open spec fn fits(word: u64, width: u64) -> bool {
    width >= 64 || word >> width == 0
}

/// Builds `mask(len)`.
pub fn field_mask(len: u64) -> (r: u64)
    requires
        1 <= len <= 64,
    ensures
        r == mask(len),
{
    if len == 64 {
        0xffff_ffff_ffff_ffffu64
    } else {
        !(0xffff_ffff_ffff_ffffu64 << len)
    }
}

/// Extracts a field: `(word >> low) & mask(len)`.
pub fn get_field(word: u64, low: u64, len: u64) -> (r: u64)
    requires
        1 <= len,
        low + len <= 64,
    ensures
        r == field_of(word, low, len),
{
    (word >> low) & field_mask(len)
}

/// Replaces a field, dropping the bits of `val` above the field's width.
pub fn set_field(word: u64, low: u64, len: u64, val: u64) -> (r: u64)
    requires
        1 <= len,
        low + len <= 64,
    ensures
        r == with_field(word, low, len, val),
{
    let m = field_mask(len);
    (word & !(m << low)) | ((val & m) << low)
}

/// Restores a field to the same bits of `reset`, leaving every other bit alone.
pub fn restore_field(word: u64, low: u64, len: u64, reset: u64) -> (r: u64)
    requires
        1 <= len,
        low + len <= 64,
    ensures
        r == reset_field(word, low, len, reset),
{
    set_field(word, low, len, get_field(reset, low, len))
}

/// Reading a field back after setting it gives the value cut to the field's width.
pub proof fn lemma_get_after_set(word: u64, low: u64, len: u64, val: u64)
    requires
        1 <= len,
        low + len <= 64,
    ensures
        field_of(with_field(word, low, len, val), low, len) == val & mask(len),
{
    assert(((((word & !(mask(len) << low)) | ((val & mask(len)) << low)) >> low) & mask(len))
        == val & mask(len)) by (bit_vector)
        requires
            1 <= len,
            low + len <= 64,
    ;
}

/// Setting a field leaves one bit outside it unchanged.
pub proof fn lemma_set_keeps_bit(word: u64, low: u64, len: u64, val: u64, i: u64)
    requires
        1 <= len,
        low + len <= 64,
        i < 64,
        !in_field(i, low, len),
    ensures
        bit_of(with_field(word, low, len, val), i) == bit_of(word, i),
{
    assert(((((word & !(mask(len) << low)) | ((val & mask(len)) << low)) >> i) & 1u64 == 1u64)
        == ((word >> i) & 1u64 == 1u64)) by (bit_vector)
        requires
            1 <= len,
            low + len <= 64,
            i < 64,
            !(low <= i && i < low + len),
    ;
}

/// Setting a field changes no bit of the word outside the field.
pub proof fn lemma_set_keeps_others(word: u64, low: u64, len: u64, val: u64)
    requires
        1 <= len,
        low + len <= 64,
    ensures
        forall|i: u64|
            i < 64 && !in_field(i, low, len) ==> #[trigger] bit_of(with_field(word, low, len, val), i)
                == bit_of(word, i),
{
    assert forall|i: u64| i < 64 && !in_field(i, low, len) implies #[trigger] bit_of(
        with_field(word, low, len, val),
        i,
    ) == bit_of(word, i) by {
        lemma_set_keeps_bit(word, low, len, val, i);
    }
}

/// Setting a field twice to one value is the same as setting it once.
pub proof fn lemma_set_idempotent(word: u64, low: u64, len: u64, val: u64)
    requires
        1 <= len,
        low + len <= 64,
    ensures
        with_field(with_field(word, low, len, val), low, len, val) == with_field(
            word,
            low,
            len,
            val,
        ),
{
    assert(((((word & !(mask(len) << low)) | ((val & mask(len)) << low)) & !(mask(len) << low)) | (
    (val & mask(len)) << low)) == ((word & !(mask(len) << low)) | ((val & mask(len)) << low)))
        by (bit_vector)
        requires
            1 <= len,
            low + len <= 64,
    ;
}

/// Restoring a field twice gives the same word as restoring it once.
pub proof fn lemma_reset_idempotent(word: u64, low: u64, len: u64, reset: u64)
    requires
        1 <= len,
        low + len <= 64,
    ensures
        reset_field(reset_field(word, low, len, reset), low, len, reset) == reset_field(
            word,
            low,
            len,
            reset,
        ),
{
    lemma_set_idempotent(word, low, len, field_of(reset, low, len));
}

/// A field's value fits in any width at least as wide as the field.
pub proof fn lemma_field_fits(word: u64, low: u64, len: u64, width: u64)
    requires
        1 <= len <= width,
        low + len <= 64,
        width <= 64,
    ensures
        fits(field_of(word, low, len), width),
{
    assert(width >= 64 || ((word >> low) & mask(len)) >> width == 0) by (bit_vector)
        requires
            1 <= len <= width,
            low + len <= 64,
            width <= 64,
    ;
}

/// Setting a field that lies inside the low `width` bits keeps a word of that width narrow.
pub proof fn lemma_set_fits(word: u64, low: u64, len: u64, val: u64, width: u64)
    requires
        1 <= len,
        low + len <= width,
        width <= 64,
        fits(word, width),
    ensures
        fits(with_field(word, low, len, val), width),
{
    assert(width >= 64 || ((word & !(mask(len) << low)) | ((val & mask(len)) << low)) >> width
        == 0) by (bit_vector)
        requires
            1 <= len,
            low + len <= width,
            width <= 64,
            width >= 64 || word >> width == 0,
    ;
}

/// A word fits in 8, 16 or 32 bits exactly when it is below the matching power of two.
pub proof fn lemma_fits_bound(word: u64)
    ensures
        fits(word, 8) == (word < 0x100),
        fits(word, 16) == (word < 0x1_0000),
        fits(word, 32) == (word < 0x1_0000_0000),
{
    assert((word >> 8u64 == 0) == (word < 0x100) && (word >> 16u64 == 0) == (word < 0x1_0000) && (
    word >> 32u64 == 0) == (word < 0x1_0000_0000)) by (bit_vector);
}

/// A word that fits in `a` bits fits in any wider width.
pub proof fn lemma_fits_wider(word: u64, a: u64, b: u64)
    requires
        a <= b,
        fits(word, a),
    ensures
        fits(word, b),
{
    assert(b >= 64 || word >> b == 0) by (bit_vector)
        requires
            a <= b,
            a >= 64 || word >> a == 0,
    ;
}

/// A one-bit field is the bit itself.
pub proof fn lemma_one_bit_field(word: u64, b: u64)
    requires
        b < 64,
    ensures
        (field_of(word, b, 1) == 1) == bit_of(word, b),
        field_of(word, b, 1) <= 1,
{
    assert((((word >> b) & mask(1)) == 1) == (((word >> b) & 1u64) == 1u64) && ((word >> b) & mask(
        1,
    )) <= 1) by (bit_vector)
        requires
            b < 64,
    ;
}

/// Setting a single bit makes it read as set, and changes no other bit of the word.
pub proof fn lemma_set_bit(word: u64, b: u64)
    requires
        b < 64,
    ensures
        bit_of(with_field(word, b, 1, 1), b),
        forall|i: u64| i < 64 && i != b ==> #[trigger] bit_of(with_field(word, b, 1, 1), i) == bit_of(word, i),
{
    lemma_get_after_set(word, b, 1, 1);
    lemma_one_bit_field(with_field(word, b, 1, 1), b);
    assert(1u64 & mask(1) == 1) by (bit_vector);
    lemma_set_keeps_others(word, b, 1, 1);
}

/// Setting a field reads back as the value cut to the field's width, and changes no bit
/// of the word outside the field.
pub proof fn lemma_set_range(word: u64, low: u64, len: u64, val: u64)
    requires
        1 <= len,
        low + len <= 64,
    ensures
        field_of(with_field(word, low, len, val), low, len) == val & mask(len),
        forall|i: u64|
            i < 64 && !in_field(i, low, len) ==> #[trigger] bit_of(with_field(word, low, len, val), i)
                == bit_of(word, i),
{
    lemma_get_after_set(word, low, len, val);
    lemma_set_keeps_others(word, low, len, val);
}

} // verus!
