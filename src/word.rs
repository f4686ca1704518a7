//! Arithmetic on 16-bit words: sign extension and the condition-flag rule.
use vstd::prelude::*;
use vstd::arithmetic::power2::pow2;
use vstd::arithmetic::power2::lemma_pow2_unfold;
use vstd::bits::lemma_u16_pow2_no_overflow;
use vstd::bits::lemma_u16_shl_is_mul;

verus! {

/// Condition flag: the last value written was positive.
pub const FL_POS: u16 = 1;

/// Condition flag: the last value written was zero.
pub const FL_ZRO: u16 = 2;

/// Condition flag: the last value written was negative (bit 15 set).
pub const FL_NEG: u16 = 4;

/// 16-bit wrapping addition.
pub open spec fn wadd(a: u16, b: u16) -> u16 {
    ((a + b) % 0x10000) as u16
}

/// A condition register holds exactly one of the three flags.
pub open spec fn is_flag(c: u16) -> bool {
    c == FL_POS || c == FL_ZRO || c == FL_NEG
}

/// The flag that describes the sign of `v` as a two's-complement word.
pub open spec fn flag_of(v: u16) -> u16 {
    if v == 0 {
        FL_ZRO
    } else if v >= 0x8000 {
        FL_NEG
    } else {
        FL_POS
    }
}

/// The flag that describes the sign of `v`.
pub fn sign_flag(v: u16) -> (r: u16)
    ensures
        r == flag_of(v),
        is_flag(r),
{
    if v == 0 {
        FL_ZRO
    } else if v >> 15 == 1 {
        assert(v >> 15 == 1 <==> v >= 0x8000) by (bit_vector);
        FL_NEG
    } else {
        assert(v >> 15 == 1 <==> v >= 0x8000) by (bit_vector);
        FL_POS
    }
}

/// The low `n` bits of `v`, read as a two's-complement number of `n` bits
/// and written back as a 16-bit word.
pub open spec fn sext(v: u16, n: nat) -> u16 {
    let low = v as int % pow2(n) as int;
    if low >= pow2((n - 1) as nat) {
        (low - pow2(n) + 0x10000) as u16
    } else {
        low as u16
    }
}

/// Sign-extends the low `bit_count` bits of `value` to 16 bits.
pub fn sign_extend(value: u16, bit_count: u16) -> (r: u16)
    requires
        1 <= bit_count <= 15,
    ensures
        r == sext(value, bit_count as nat),
{
    let n = bit_count;
    let m: u16 = 1u16 << n;
    proof {
        lemma_u16_pow2_no_overflow(n as nat);
        lemma_u16_shl_is_mul(1, n);
        lemma_pow2_unfold(n as nat);
    }
    let mask: u16 = m - 1;
    let shift: u16 = n - 1;
    let low: u16 = value & mask;
    let top: u16 = (low >> shift) & 1;
    assert(low == value % m) by (bit_vector)
        requires
            m == 1u16 << n,
            1 <= n <= 15,
            mask + 1 == m,
            low == value & mask,
    ;
    assert(top == 1 <==> low >= m / 2) by (bit_vector)
        requires
            m == 1u16 << n,
            1 <= n <= 15,
            mask + 1 == m,
            shift + 1 == n,
            low == value & mask,
            top == (low >> shift) & 1,
    ;
    if top == 1 {
        let r: u16 = low | !mask;
        assert(r as int == low - m + 0x10000) by (bit_vector)
            requires
                m == 1u16 << n,
                1 <= n <= 15,
                mask + 1 == m,
                low == value & mask,
                r == low | !mask,
                low >= m / 2,
        ;
        r
    } else {
        low
    }
}

} // verus!
