//! Shared facts about the bit-level operations the interpreter leans on:
//! address alignment masks, byte extraction, and sign extension.

use vstd::prelude::*;

verus! {

/// Word- and halfword-alignment masks do what their names say.
pub proof fn lemma_align_facts()
    by (bit_vector)
    ensures
        forall|a: u32| #[trigger] (a & 0xFFFF_FFFCu32) % 4 == 0,
        forall|a: u32| a % 4 == 0 ==> #[trigger] (a & 0xFFFF_FFFCu32) == a,
        forall|a: u32| #[trigger] (a & 0xFFFF_FFFEu32) % 2 == 0,
        forall|a: u32| a % 2 == 0 ==> #[trigger] (a & 0xFFFF_FFFEu32) == a,
        forall|a: u32| #[trigger] (a & 0xFFFF_FFFCu32) == a - a % 4,
        forall|a: u32| #[trigger] (a & 0xFFFF_FFFEu32) == a - a % 2,
{
}

/// Sign-extends a field of `m` possible values: a `value` below `m / 2` is
/// kept, one at or above it is shifted down into the top of the 32-bit range.
/// With `m` a power of two and `value < m` this is ordinary two's-complement
/// sign extension of a `value` of `log2(m)` bits.
pub open spec fn sign_extend_spec(value: u32, m: u32) -> u32 {
    if value >= m / 2 {
        value.wrapping_sub(m)
    } else {
        value
    }
}

/// Sign-extends a field of `m` possible values (`m` a power of two,
/// `value < m`).
pub fn sign_extend(value: u32, m: u32) -> (r: u32)
    ensures
        r == sign_extend_spec(value, m),
{
    if value >= m / 2 {
        value.wrapping_sub(m)
    } else {
        value
    }
}

/// A little-endian word reassembled from its four bytes is the word itself.
pub proof fn lemma_word_bytes_roundtrip(v: u32)
    by (bit_vector)
    ensures
        ((v as u8) as u32) | (((v >> 8) as u8) as u32) << 8 | (((v >> 16) as u8) as u32) << 16 | ((
        (v >> 24) as u8) as u32) << 24 == v,
{
}

/// How setting, clearing and combining 64-bit words acts on each single bit.
pub proof fn lemma_u64_bit_ops()
    by (bit_vector)
    ensures
        forall|x: u64, s: u64, t: u64|
            s < 64 && t < 64 ==> (((#[trigger] ((x | (1u64 << s)) >> t)) % 2 == 1) <==> (s == t || (x >> t) % 2 == 1)),
        forall|x: u64, s: u64, t: u64|
            s < 64 && t < 64 ==> (((#[trigger] ((x & !(1u64 << s)) >> t)) % 2 == 1) <==> (s != t && (x >> t) % 2 == 1)),
        forall|x: u64, y: u64, t: u64|
            t < 64 ==> (((#[trigger] ((x | y) >> t)) % 2 == 1) <==> ((x >> t) % 2 == 1 || (y >> t) % 2 == 1)),
        forall|x: u64, y: u64, t: u64|
            t < 64 ==> (((#[trigger] ((x & y) >> t)) % 2 == 1) <==> ((x >> t) % 2 == 1 && (y >> t) % 2 == 1)),
        forall|x: u64, y: u64, t: u64|
            t < 64 ==> (((#[trigger] ((x & !y) >> t)) % 2 == 1) <==> ((x >> t) % 2 == 1 && (y >> t) % 2 != 1)),
        forall|x: u64, t: u64|
            t < 64 ==> (((#[trigger] ((!x) >> t)) % 2 == 1) <==> ((x >> t) % 2 != 1)),
{
}

/// The two constant words: all-zero has no bit set, all-one every bit.
pub proof fn lemma_u64_const_bits(t: u64)
    requires
        t < 64,
    ensures
        (0u64 >> t) % 2 == 0,
        (0xFFFF_FFFF_FFFF_FFFFu64 >> t) % 2 == 1,
{
    assert((0u64 >> t) % 2 == 0) by (bit_vector)
        requires
            t < 64,
    ;
    assert((0xFFFF_FFFF_FFFF_FFFFu64 >> t) % 2 == 1) by (bit_vector)
        requires
            t < 64,
    ;
}

/// Setting bit 15 of a halfword leaves its low fifteen bits alone.
pub proof fn lemma_u16_set_bit15(c: u16)
    by (bit_vector)
    ensures
        (c | 0x8000) % 32 == c % 32,
        ((c | 0x8000) >> 5u16) % 32 == (c >> 5u16) % 32,
        ((c | 0x8000) >> 10u16) % 32 == (c >> 10u16) % 32,
        c | 0x8000 >= 0x8000,
        c >= 0x8000 ==> c | 0x8000 == c,
{
}

/// Bounds on a product follow from bounds on its factors.
pub proof fn lemma_mul_le(a: int, b: int, am: int, bm: int)
    by (nonlinear_arith)
    requires
        0 <= a <= am,
        0 <= b <= bm,
    ensures
        a * b <= am * bm,
{
}

} // verus!
