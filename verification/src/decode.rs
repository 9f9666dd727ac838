//! Field extraction from a 16-bit instruction word.
//!
//! Every extractor is a total function of the word. Its contract states the
//! field by division and remainder, and the executable body computes it by
//! shifting and masking.

use vstd::arithmetic::power2::{lemma2_to64, pow2};
use vstd::bits::{lemma_u16_shl_is_mul, lemma_u16_shr_is_div};
use vstd::prelude::*;

verus! {

/// Bits 15 to 12 of `i`.
pub open spec fn spec_opc(i: u16) -> u16 {
    (i / 0x1000) as u16
}

/// Bits 11 to 9 of `i`.
pub open spec fn spec_dr(i: u16) -> u16 {
    ((i / 0x200) % 8) as u16
}

/// Bits 8 to 6 of `i`.
pub open spec fn spec_sr1(i: u16) -> u16 {
    ((i / 0x40) % 8) as u16
}

/// Bits 2 to 0 of `i`.
pub open spec fn spec_sr2(i: u16) -> u16 {
    (i % 8) as u16
}

/// Bits 4 to 0 of `i`.
pub open spec fn spec_imm(i: u16) -> u16 {
    (i % 0x20) as u16
}

/// Bit 5 of `i`.
pub open spec fn spec_fimm(i: u16) -> u16 {
    ((i / 0x20) % 2) as u16
}

/// Bit 11 of `i`.
pub open spec fn spec_fl(i: u16) -> u16 {
    ((i / 0x800) % 2) as u16
}

/// Bits 11 to 9 of `i`.
pub open spec fn spec_fcnd(i: u16) -> u16 {
    ((i / 0x200) % 8) as u16
}

/// Bits 7 to 0 of `i`.
pub open spec fn spec_trp(i: u16) -> u16 {
    (i % 0x100) as u16
}

/// Two to the power `k`, for `k` from 0 to 16.
#[verifier::inline]
pub open spec fn two_to(k: int) -> int {
    if k <= 0 {
        0x1
    } else if k == 1 {
        0x2
    } else if k == 2 {
        0x4
    } else if k == 3 {
        0x8
    } else if k == 4 {
        0x10
    } else if k == 5 {
        0x20
    } else if k == 6 {
        0x40
    } else if k == 7 {
        0x80
    } else if k == 8 {
        0x100
    } else if k == 9 {
        0x200
    } else if k == 10 {
        0x400
    } else if k == 11 {
        0x800
    } else if k == 12 {
        0x1000
    } else if k == 13 {
        0x2000
    } else if k == 14 {
        0x4000
    } else if k == 15 {
        0x8000
    } else {
        0x10000
    }
}

/// Whether bit `k` of `n` is set.
pub open spec fn bit(n: u16, k: int) -> bool {
    (n as int / two_to(k)) % 2 == 1
}

/// The 16-bit word `r` read as a two's-complement number.
pub open spec fn signed16(r: u16) -> int {
    if r < 0x8000 {
        r as int
    } else {
        r as int - 0x10000
    }
}

/// The `b`-bit field `v` read as a two's-complement number.
pub open spec fn signed_field(v: u16, b: int) -> int {
    if bit(v, b - 1) {
        v as int - two_to(b)
    } else {
        v as int
    }
}

/// The word that `sext` gives for `n` and a width of `b` bits: where bit
/// `b - 1` of `n` is clear, `n` itself; where it is set, the low `b` bits of
/// `n` with every bit from `b` upward set.
pub open spec fn spec_sext(n: u16, b: i16) -> u16 {
    if bit(n, b - 1) {
        (n as int % two_to(b as int) + 0x10000 - two_to(b as int)) as u16
    } else {
        n
    }
}

/// The 5-bit immediate of `i`, sign-extended.
pub open spec fn spec_sextimm(i: u16) -> u16 {
    spec_sext(spec_imm(i), 5)
}

/// The 6-bit offset of `i`, sign-extended.
pub open spec fn spec_poff(i: u16) -> u16 {
    spec_sext((i % 0x40) as u16, 6)
}

/// The 9-bit offset of `i`, sign-extended.
pub open spec fn spec_poff9(i: u16) -> u16 {
    spec_sext((i % 0x200) as u16, 9)
}

/// The 11-bit offset of `i`, sign-extended.
pub open spec fn spec_poff11(i: u16) -> u16 {
    spec_sext((i % 0x800) as u16, 11)
}

/// The operation code: bits 15 to 12.
#[verifier::when_used_as_spec(spec_opc)]
pub fn opc(i: u16) -> (r: u16)
    ensures
        r == spec_opc(i),
        r < 16,
{
    assert(i >> 12 == i / 0x1000) by (bit_vector);
    i >> 12
}

/// The destination register: bits 11 to 9.
#[verifier::when_used_as_spec(spec_dr)]
pub fn dr(i: u16) -> (r: u16)
    ensures
        r == spec_dr(i),
        r < 8,
{
    assert((i >> 9) & 0x7 == (i / 0x200) % 8) by (bit_vector);
    (i >> 9) & 0x7
}

/// The first source register: bits 8 to 6.
#[verifier::when_used_as_spec(spec_sr1)]
pub fn sr1(i: u16) -> (r: u16)
    ensures
        r == spec_sr1(i),
        r < 8,
{
    assert((i >> 6) & 0x7 == (i / 0x40) % 8) by (bit_vector);
    (i >> 6) & 0x7
}

/// The second source register: bits 2 to 0.
#[verifier::when_used_as_spec(spec_sr2)]
pub fn sr2(i: u16) -> (r: u16)
    ensures
        r == spec_sr2(i),
        r < 8,
{
    assert(i & 0x7 == i % 8) by (bit_vector);
    i & 0x7
}

/// The raw 5-bit immediate: bits 4 to 0.
#[verifier::when_used_as_spec(spec_imm)]
pub fn imm(i: u16) -> (r: u16)
    ensures
        r == spec_imm(i),
        r < 32,
{
    assert(i & 0x1F == i % 0x20) by (bit_vector);
    i & 0x1F
}

/// The immediate-mode flag: bit 5.
#[verifier::when_used_as_spec(spec_fimm)]
pub fn fimm(i: u16) -> (r: u16)
    ensures
        r == spec_fimm(i),
        r < 2,
{
    assert((i >> 5) & 1 == (i / 0x20) % 2) by (bit_vector);
    (i >> 5) & 1
}

/// The long-form flag of a subroutine call: bit 11.
#[verifier::when_used_as_spec(spec_fl)]
pub fn fl(i: u16) -> (r: u16)
    ensures
        r == spec_fl(i),
        r < 2,
{
    assert((i >> 11) & 1 == (i / 0x800) % 2) by (bit_vector);
    (i >> 11) & 1
}

/// The branch condition mask: bits 11 to 9.
#[verifier::when_used_as_spec(spec_fcnd)]
pub fn fcnd(i: u16) -> (r: u16)
    ensures
        r == spec_fcnd(i),
        r < 8,
{
    assert((i >> 9) & 0x7 == (i / 0x200) % 8) by (bit_vector);
    (i >> 9) & 0x7
}

/// The trap vector: bits 7 to 0.
#[verifier::when_used_as_spec(spec_trp)]
pub fn trp(i: u16) -> (r: u16)
    ensures
        r == spec_trp(i),
        r < 256,
{
    assert(i & 0xFF == i % 0x100) by (bit_vector);
    i & 0xFF
}

/// Widens the `b`-bit field `n` to 16 bits, repeating its top bit.
#[verifier::when_used_as_spec(spec_sext)]
pub fn sext(n: u16, b: i16) -> (r: u16)
    requires
        1 <= b <= 15,
    ensures
        r == spec_sext(n, b),
{
    let width: u16 = b as u16;
    let top: u16 = width - 1;
    proof {
        lemma_two_to_is_power(top as int);
        lemma_u16_shr_is_div(n, top);
        let shifted = n >> top;
        assert(shifted & 1 == shifted % 2) by (bit_vector);
    }
    if ((n >> top) & 1) == 1 {
        proof {
            lemma_fill_from(n, width);
        }
        return n | (0xFFFF << width);
    }
    n
}

/// `two_to` is the power of two.
pub proof fn lemma_two_to_is_power(k: int)
    requires
        0 <= k <= 16,
    ensures
        two_to(k) == pow2(k as nat),
{
    lemma2_to64();
}

/// Setting every bit of `n` from bit `b` upward keeps the low `b` bits and
/// adds `2^16 - 2^b`.
proof fn lemma_fill_from(n: u16, b: u16)
    requires
        1 <= b <= 15,
    ensures
        (n | (0xFFFFu16 << b)) as int == n as int % two_to(b as int) + 0x10000 - two_to(b as int),
{
    let p: u16 = 1u16 << b;
    lemma_two_to_is_power(b as int);
    lemma_u16_shl_is_mul(1u16, b);
    assert(p == two_to(b as int));
    assert((n | (0xFFFFu16 << b)) == (n % p) + (0xFFFFu16 - p) + 1) by (bit_vector)
        requires
            1 <= b <= 15,
            p == 1u16 << b,
    ;
}

/// Sign extension is two's-complement widening: for a field `v` of `b` bits,
/// the extended word read as a signed 16-bit number equals `v` read as a
/// signed `b`-bit number, its low `b` bits are those of `v`, and each bit
/// from `b - 1` upward repeats the sign bit of `v`.
pub proof fn lemma_sext_widens(v: u16, b: i16)
    requires
        1 <= b <= 15,
        v < two_to(b as int),
    ensures
        signed16(spec_sext(v, b)) == signed_field(v, b as int),
        spec_sext(v, b) as int % two_to(b as int) == v,
        forall|k: int| b - 1 <= k < 16 ==> #[trigger] bit(spec_sext(v, b), k) == bit(v, b - 1),
{
    let r = spec_sext(v, b);
    let width: u16 = b as u16;
    let top: u16 = (b - 1) as u16;
    let p: u16 = 1u16 << width;
    lemma_two_to_is_power(b as int);
    lemma_two_to_is_power(b - 1);
    lemma_u16_shl_is_mul(1u16, width);
    lemma_u16_shr_is_div(v, top);
    lemma_fill_from(v, width);
    let x: u16 = if (v >> top) % 2 == 1 {
        v | (0xFFFFu16 << width)
    } else {
        v
    };
    assert(v % p == v) by (bit_vector)
        requires
            v < p,
    ;
    assert(x == r);
    assert(x % p == v && (x >= 0x8000 <==> (v >> top) % 2 == 1) && ((v >> top) % 2 == 1 ==> x + p
        == v + 0x10000)) by (bit_vector)
        requires
            1 <= width <= 15,
            top == width - 1,
            p == 1u16 << width,
            v < p,
            x == if (v >> top) % 2 == 1 {
                v | (0xFFFFu16 << width)
            } else {
                v
            },
    ;
    assert forall|k: int| b - 1 <= k < 16 implies #[trigger] bit(r, k) == bit(v, b - 1) by {
        let kk: u16 = k as u16;
        lemma_two_to_is_power(k);
        lemma_u16_shr_is_div(r, kk);
        assert((x >> kk) % 2 == (v >> top) % 2) by (bit_vector)
            requires
                1 <= width <= 15,
                top == width - 1,
                top <= kk < 16,
                p == 1u16 << width,
                v < p,
                x == if (v >> top) % 2 == 1 {
                    v | (0xFFFFu16 << width)
                } else {
                    v
                },
        ;
    }
}

/// The 5-bit immediate, sign-extended to 16 bits.
#[verifier::when_used_as_spec(spec_sextimm)]
pub fn sextimm(i: u16) -> (r: u16)
    ensures
        r == spec_sextimm(i),
{
    sext(imm(i), 5)
}

/// The 6-bit register-relative offset, sign-extended to 16 bits.
#[verifier::when_used_as_spec(spec_poff)]
pub fn poff(i: u16) -> (r: u16)
    ensures
        r == spec_poff(i),
{
    assert(i & 0x3F == i % 0x40) by (bit_vector);
    sext(i & 0x3F, 6)
}

/// The 9-bit offset relative to the program counter, sign-extended to 16 bits.
#[verifier::when_used_as_spec(spec_poff9)]
pub fn poff9(i: u16) -> (r: u16)
    ensures
        r == spec_poff9(i),
{
    assert(i & 0x1FF == i % 0x200) by (bit_vector);
    sext(i & 0x1FF, 9)
}

/// The 11-bit offset relative to the program counter, sign-extended to 16 bits.
#[verifier::when_used_as_spec(spec_poff11)]
pub fn poff11(i: u16) -> (r: u16)
    ensures
        r == spec_poff11(i),
{
    assert(i & 0x7FF == i % 0x800) by (bit_vector);
    sext(i & 0x7FF, 11)
}

} // verus!
