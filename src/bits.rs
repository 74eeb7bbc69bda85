//! Bitfield extraction and two's-complement sign extension.
use vstd::prelude::*;

verus! {

/// Mask with the low `width` bits set (`width <= 32`), held in 64 bits so
/// that a full-width mask needs no special case.
pub open spec fn low_mask(width: u32) -> u64 {
    ((1u64 << width) - 1) as u64
}

/// Bits `[pos, pos + width)` of `word`, right-justified.
pub open spec fn field(word: u32, width: u32, pos: u32) -> u32 {
    (((word as u64) >> pos) & low_mask(width)) as u32
}

/// `word` with bits `[pos, pos + width)` replaced by the low `width` bits of
/// `value`; all other bits are kept.
pub open spec fn deposit(word: u32, value: u32, width: u32, pos: u32) -> u32 {
    (((word as u64) & !(low_mask(width) << pos)) | (((value as u64) & low_mask(width)) << pos)) as u32
}

/// Returns bits `[pos, pos + width)` of `word`, right-justified.
pub fn extract_field(word: u32, width: u32, pos: u32) -> (r: u32)
    requires
        width + pos <= 32,
    ensures
        r == field(word, width, pos),
        r < (1u64 << width),
{
    assert(1 <= (1u64 << width) <= 0x1_0000_0000) by (bit_vector)
        requires
            width <= 32,
    ;
    let mask: u64 = (1u64 << width) - 1;
    let bits: u64 = ((word as u64) >> pos) & mask;
    assert(bits == field(word, width, pos) && bits < (1u64 << width)) by (bit_vector)
        requires
            width + pos <= 32,
            mask == ((1u64 << width) - 1) as u64,
            bits == ((word as u64) >> pos) & mask,
    ;
    let r = bits as u32;
    r
}

/// Extracting a field recovers exactly the value that was deposited there,
/// whatever the surrounding word held.
pub proof fn lemma_extract_recovers_deposit(word: u32, value: u32, width: u32, pos: u32)
    requires
        width + pos <= 32,
        (value as u64) < (1u64 << width),
    ensures
        field(deposit(word, value, width, pos), width, pos) == value,
{
    assert(field(deposit(word, value, width, pos), width, pos) == value) by (bit_vector)
        requires
            width + pos <= 32,
            (value as u64) < (1u64 << width),
    ;
}

/// Bit `n - 1` of `v`, the sign bit of an `n`-bit two's-complement value.
pub open spec fn sign_bit(v: u64, n: u64) -> bool {
    (v >> ((n - 1) as u64)) & 1 == 1
}

/// `v` read as an `n`-bit two's-complement value and widened to 64 bits:
/// every bit from `n` upwards takes the value of the sign bit.
pub open spec fn sext(v: u64, n: u64) -> u64 {
    if sign_bit(v, n) {
        v | (!0u64 << n)
    } else {
        v
    }
}

/// Sign-extends the `bits`-bit value `val` to 64 bits.
pub fn signext_nto64(val: u64, bits: u64) -> (r: u64)
    requires
        1 <= bits <= 63,
    ensures
        r == sext(val, bits),
        !sign_bit(val, bits) ==> r == val,
        sign_bit(val, bits) ==> r == val | (!0u64 << bits),
        val < (1u64 << bits) ==> r as i64 == (if val < (1u64 << ((bits - 1) as u64)) {
            val as int
        } else {
            val - (1u64 << bits)
        }),
{
    let r = if (val >> (bits - 1)) & 1 == 1 {
        val | (!0u64 << bits)
    } else {
        val
    };
    assert(val < (1u64 << bits) ==> r as i64 == (if val < (1u64 << ((bits - 1) as u64)) {
        val as int
    } else {
        val - (1u64 << bits)
    })) by (bit_vector)
        requires
            1 <= bits <= 63,
            r == (if (val >> ((bits - 1) as u64)) & 1 == 1 {
                val | (!0u64 << bits)
            } else {
                val
            }),
    ;
    r
}

/// Sign-extends a 12-bit immediate to 64 bits.
pub fn signext12to64(val: u32) -> (r: u64)
    ensures
        r == sext(val as u64, 12),
{
    signext_nto64(val as u64, 12)
}

/// Sign-extends a 20-bit immediate to 64 bits.
pub fn signext20to64(val: u32) -> (r: u64)
    ensures
        r == sext(val as u64, 20),
{
    signext_nto64(val as u64, 20)
}

/// An arithmetic right shift by `shamt` equals the logical right shift
/// sign-extended from its `64 - shamt` significant bits.
pub proof fn lemma_sra_is_sext_of_srl(x: u64, shamt: u64)
    requires
        1 <= shamt <= 63,
    ensures
        ((x as i64) >> shamt) as u64 == sext(x >> shamt, (64 - shamt) as u64),
{
    assert(((x as i64) >> shamt) as u64 == sext(x >> shamt, (64 - shamt) as u64)) by (bit_vector)
        requires
            1 <= shamt <= 63,
    ;
}

} // verus!
