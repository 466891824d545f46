//! Twiddle factors: exact roots of unity in the complex ring.
//!
//! The scalar field has a cyclic multiplicative group of order 2^16 with
//! generator 3, so for every power-of-two length `n` up to 2^16 an exact
//! analog of `exp(-2*pi*j*k/n)` exists. With `u = 3^(2^14)` (a square root
//! of `-1`) and `w = 3^(2^16/n)`, the twiddle at index `k` is the pair
//! `((w^k + w^-k)/2, +-(w^k - w^-k)/(2u))`: the exact discrete cosine and
//! sine. The forward twiddle is the conjugate of the inverse twiddle.

use vstd::prelude::*;
use crate::modp::{P, s_reduced, s_add, s_sub, s_mul, s_neg, mmul};
use crate::complex::{Complex, c_wf, c_rot90, seq_wf};

verus! {

/// Order of the multiplicative group of the scalar field.
pub const GROUP_ORDER: u64 = 65536;

/// The inverse of 2 in the scalar field.
pub const INV2: u64 = 32769;

/// The inverse of `u = 3^(2^14)` in the scalar field.
pub const INV_U: u64 = 256;

/// `3^e` in the scalar field, by squaring.
pub open spec fn pow3_spec(e: nat) -> u64
    decreases e,
{
    if e == 0 {
        1
    } else if e % 2 == 0 {
        s_mul(pow3_spec(e / 2), pow3_spec(e / 2))
    } else {
        s_mul(3, pow3_spec((e - 1) as nat))
    }
}

/// Every power of the generator is reduced.
pub proof fn lemma_pow3_reduced(e: nat)
    ensures
        s_reduced(pow3_spec(e)),
    decreases e,
{
    if e == 0 {
    } else if e % 2 == 0 {
        lemma_pow3_reduced(e / 2);
    } else {
        lemma_pow3_reduced((e - 1) as nat);
    }
}

/// The twiddle factor `W_k` of a length-`n` transform: the exact analog of
/// `exp(-2*pi*j*k/n)` for the forward direction, and its conjugate
/// (`exp(+2*pi*j*k/n)`) for the inverse direction.
#[verifier::opaque]
pub open spec fn twiddle_spec(k: nat, n: nat, inverse: bool) -> Complex
    recommends
        1 <= n,
        (GROUP_ORDER as nat) % n == 0,
{
    let t = (((GROUP_ORDER as nat) / n) * k) % (GROUP_ORDER as nat);
    let a = pow3_spec(t);
    let a_inv = pow3_spec(((((GROUP_ORDER as int) - (t as int)) % (GROUP_ORDER as int)) as nat));
    let re = s_mul(s_add(a, a_inv), INV2);
    let im_plus = s_mul(s_mul(s_sub(a, a_inv), INV2), INV_U);
    if inverse {
        Complex { re, im: im_plus }
    } else {
        Complex { re, im: s_neg(im_plus) }
    }
}

/// Every twiddle factor is well formed.
pub broadcast proof fn lemma_twiddle_wf(k: nat, n: nat, inverse: bool)
    ensures
        c_wf(#[trigger] twiddle_spec(k, n, inverse)),
{
    reveal(twiddle_spec);
}

/// The table of the first `count` twiddles of a length-`n` transform.
pub open spec fn twiddle_table_spec(count: nat, n: nat, inverse: bool) -> Seq<Complex> {
    Seq::new(count, |i: int| twiddle_spec(i as nat, n, inverse))
}

/// `3^e` in the scalar field.
pub fn pow3(e: u64) -> (r: u64)
    ensures
        r == pow3_spec(e as nat),
        s_reduced(r),
    decreases e,
{
    if e == 0 {
        1
    } else if e % 2 == 0 {
        let h = pow3(e / 2);
        mmul(h, h)
    } else {
        let h = pow3(e - 1);
        mmul(3, h)
    }
}

/// The `k`-th twiddle factor of a length-`n` transform.
pub fn single_twiddle(k: usize, n: usize, inverse: bool) -> (r: Complex)
    requires
        1 <= n,
        (GROUP_ORDER as int) % (n as int) == 0,
        k < n,
    ensures
        r == twiddle_spec(k as nat, n as nat, inverse),
        c_wf(r),
{
    proof {
        reveal(twiddle_spec);
        if n > GROUP_ORDER {
            vstd::arithmetic::div_mod::lemma_small_mod(GROUP_ORDER as nat, n as nat);
        }
        assert((GROUP_ORDER as int) / (n as int) * (k as int) <= (GROUP_ORDER as int) / (n as int) * (n as int)) by (nonlinear_arith)
            requires 0 <= (GROUP_ORDER as int) / (n as int) && 0 <= k <= n;
        vstd::arithmetic::div_mod::lemma_fundamental_div_mod(GROUP_ORDER as int, n as int);
    }
    let stride = (GROUP_ORDER as usize) / n;
    let t = ((stride * k) % (GROUP_ORDER as usize)) as u64;
    let a = pow3(t);
    let a_inv = pow3((GROUP_ORDER - t) % GROUP_ORDER);
    let re = mmul(crate::modp::madd(a, a_inv), INV2);
    let im_plus = mmul(mmul(crate::modp::msub(a, a_inv), INV2), INV_U);
    if inverse {
        Complex { re, im: im_plus }
    } else {
        Complex { re, im: crate::modp::mneg(im_plus) }
    }
}

/// Rotates a sample by 90 degrees: multiplication by `-j` for the forward
/// direction and by `j` for the inverse direction.
pub fn rotate_90(value: Complex, inverse: bool) -> (r: Complex)
    requires
        c_wf(value),
    ensures
        r == c_rot90(value, inverse),
        c_wf(r),
{
    proof {
        reveal(crate::complex::c_rot90);
    }
    if inverse {
        Complex { re: crate::modp::mneg(value.im), im: value.re }
    } else {
        Complex { re: value.im, im: crate::modp::mneg(value.re) }
    }
}

/// The twiddle at index zero is one, for every length and direction.
pub proof fn lemma_twiddle_zero(n: nat, inverse: bool)
    requires
        1 <= n,
    ensures
        twiddle_spec(0, n, inverse) == crate::complex::c_one(),
{
    reveal(twiddle_spec);
    assert(((GROUP_ORDER as nat) / n) * 0 == 0);
    assert((0 as nat) % (GROUP_ORDER as nat) == 0);
    assert(pow3_spec(0) == 1);
    assert(s_mul(s_add(1, 1), INV2) == 1);
    assert(s_mul(s_mul(s_sub(1, 1), INV2), INV_U) == 0);
    assert(s_neg(0) == 0);
}

/// One doubling step of the power chain.
pub proof fn lemma_pow3_double(e: nat)
    requires
        e >= 1,
    ensures
        pow3_spec(2 * e) == s_mul(pow3_spec(e), pow3_spec(e)),
{
    assert((2 * e) % 2 == 0);
    assert((2 * e) / 2 == e);
}

/// One odd step of the power chain.
pub proof fn lemma_pow3_odd(e: nat)
    requires
        e % 2 == 1,
    ensures
        pow3_spec(e) == s_mul(3, pow3_spec((e - 1) as nat)),
{
}

/// The generator powers at the low exponents of the squaring chains.
#[verifier::rlimit(100)]
#[verifier::spinoff_prover]
proof fn lemma_pow3_vals_low()
    ensures
        pow3_spec(1) == 3,
        pow3_spec(2) == 9,
        pow3_spec(3) == 27,
        pow3_spec(4) == 81,
        pow3_spec(5) == 243,
        pow3_spec(6) == 729,
        pow3_spec(7) == 2187,
        pow3_spec(8) == 6561,
        pow3_spec(10) == 59049,
        pow3_spec(12) == 7145,
        pow3_spec(14) == 64305,
        pow3_spec(16) == 54449,
        pow3_spec(20) == 19390,
        pow3_spec(24) == 63239,
        pow3_spec(28) == 10473,
        pow3_spec(32) == 61869,
        pow3_spec(40) == 51868,
        pow3_spec(48) == 37844,
        pow3_spec(56) == 40328,
        pow3_spec(64) == 19139,
        pow3_spec(80) == 61111,
        pow3_spec(96) == 53812,
        pow3_spec(112) == 46929,
        pow3_spec(128) == 15028,
        pow3_spec(160) == 59450,
        pow3_spec(192) == 44536,
        pow3_spec(224) == 25693,
        pow3_spec(256) == 282,
{
    assert(pow3_spec(0) == 1);
    assert(pow3_spec(1) == 3) by { lemma_pow3_odd(1); }
    assert(pow3_spec(2) == 9) by { lemma_pow3_double(1); }
    assert(pow3_spec(3) == 27) by { lemma_pow3_odd(3); }
    assert(pow3_spec(4) == 81) by { lemma_pow3_double(2); }
    assert(pow3_spec(5) == 243) by { lemma_pow3_odd(5); }
    assert(pow3_spec(6) == 729) by { lemma_pow3_double(3); }
    assert(pow3_spec(7) == 2187) by { lemma_pow3_odd(7); }
    assert(pow3_spec(8) == 6561) by { lemma_pow3_double(4); }
    assert(pow3_spec(10) == 59049) by { lemma_pow3_double(5); }
    assert(pow3_spec(12) == 7145) by { lemma_pow3_double(6); }
    assert(pow3_spec(14) == 64305) by { lemma_pow3_double(7); }
    assert(pow3_spec(16) == 54449) by { lemma_pow3_double(8); }
    assert(pow3_spec(20) == 19390) by { lemma_pow3_double(10); }
    assert(pow3_spec(24) == 63239) by { lemma_pow3_double(12); }
    assert(pow3_spec(28) == 10473) by { lemma_pow3_double(14); }
    assert(pow3_spec(32) == 61869) by { lemma_pow3_double(16); }
    assert(pow3_spec(40) == 51868) by { lemma_pow3_double(20); }
    assert(pow3_spec(48) == 37844) by { lemma_pow3_double(24); }
    assert(pow3_spec(56) == 40328) by { lemma_pow3_double(28); }
    assert(pow3_spec(64) == 19139) by { lemma_pow3_double(32); }
    assert(pow3_spec(80) == 61111) by { lemma_pow3_double(40); }
    assert(pow3_spec(96) == 53812) by { lemma_pow3_double(48); }
    assert(pow3_spec(112) == 46929) by { lemma_pow3_double(56); }
    assert(pow3_spec(128) == 15028) by { lemma_pow3_double(64); }
    assert(pow3_spec(160) == 59450) by { lemma_pow3_double(80); }
    assert(pow3_spec(192) == 44536) by { lemma_pow3_double(96); }
    assert(pow3_spec(224) == 25693) by { lemma_pow3_double(112); }
    assert(pow3_spec(256) == 282) by { lemma_pow3_double(128); }
}

/// The generator powers at the four exponents the size-8 twiddles need.
#[verifier::rlimit(100)]
#[verifier::spinoff_prover]
proof fn lemma_pow3_vals()
    ensures
        pow3_spec(8192) == 4096,
        pow3_spec(57344) == 65521,
        pow3_spec(24576) == 16,
        pow3_spec(40960) == 61441,
{
    lemma_pow3_vals_low();
    assert(pow3_spec(320) == 23164) by { lemma_pow3_double(160); }
    assert(pow3_spec(384) == 43528) by { lemma_pow3_double(192); }
    assert(pow3_spec(448) == 41585) by { lemma_pow3_double(224); }
    assert(pow3_spec(512) == 13987) by { lemma_pow3_double(256); }
    assert(pow3_spec(640) == 19477) by { lemma_pow3_double(320); }
    assert(pow3_spec(768) == 12114) by { lemma_pow3_double(384); }
    assert(pow3_spec(896) == 52943) by { lemma_pow3_double(448); }
    assert(pow3_spec(1024) == 8224) by { lemma_pow3_double(512); }
    assert(pow3_spec(1280) == 25373) by { lemma_pow3_double(640); }
    assert(pow3_spec(1536) == 11653) by { lemma_pow3_double(768); }
    assert(pow3_spec(1792) == 9296) by { lemma_pow3_double(896); }
    assert(pow3_spec(2048) == 65529) by { lemma_pow3_double(1024); }
    assert(pow3_spec(2560) == 19178) by { lemma_pow3_double(1280); }
    assert(pow3_spec(3072) == 65282) by { lemma_pow3_double(1536); }
    assert(pow3_spec(3584) == 37850) by { lemma_pow3_double(1792); }
    assert(pow3_spec(4096) == 64) by { lemma_pow3_double(2048); }
    assert(pow3_spec(5120) == 2040) by { lemma_pow3_double(2560); }
    assert(pow3_spec(6144) == 65025) by { lemma_pow3_double(3072); }
    assert(pow3_spec(7168) == 49217) by { lemma_pow3_double(3584); }
    assert(pow3_spec(8192) == 4096) by { lemma_pow3_double(4096); }
    assert(pow3_spec(10240) == 32769) by { lemma_pow3_double(5120); }
    assert(pow3_spec(12288) == 65533) by { lemma_pow3_double(6144); }
    assert(pow3_spec(14336) == 32) by { lemma_pow3_double(7168); }
    assert(pow3_spec(20480) == 49153) by { lemma_pow3_double(10240); }
    assert(pow3_spec(24576) == 16) by { lemma_pow3_double(12288); }
    assert(pow3_spec(28672) == 1024) by { lemma_pow3_double(14336); }
    assert(pow3_spec(40960) == 61441) by { lemma_pow3_double(20480); }
    assert(pow3_spec(57344) == 65521) by { lemma_pow3_double(28672); }
}

/// The third power-of-eight twiddle is the negated conjugate of the first:
/// `W_8^3 == -conj(W_8)`, in both directions.
#[verifier::rlimit(100)]
#[verifier::spinoff_prover]
pub proof fn lemma_w8_third(inverse: bool)
    ensures
        twiddle_spec(3, 8, inverse) == crate::complex::c_neg(
            crate::complex::c_conj(twiddle_spec(1, 8, inverse)),
        ),
{
    reveal(twiddle_spec);
    reveal(crate::complex::c_neg);
    reveal(crate::complex::c_conj);
    lemma_pow3_vals();
    assert((((GROUP_ORDER as nat) / 8) * 1) % (GROUP_ORDER as nat) == 8192);
    assert((((GROUP_ORDER as int) - 8192) % (GROUP_ORDER as int)) as nat == 57344);
    assert((((GROUP_ORDER as nat) / 8) * 3) % (GROUP_ORDER as nat) == 24576);
    assert((((GROUP_ORDER as int) - 24576) % (GROUP_ORDER as int)) as nat == 40960);
    assert(s_add(4096, 65521) == 4080);
    assert(s_mul(4080, INV2) == 2040);
    assert(s_sub(4096, 65521) == 4112);
    assert(s_mul(4112, INV2) == 2056);
    assert(s_mul(2056, INV_U) == 2040);
    assert(s_add(16, 61441) == 61457);
    assert(s_mul(61457, INV2) == 63497);
    assert(s_sub(16, 61441) == 4112);
    assert(s_neg(2040) == 63497);
    assert(s_neg(63497) == 2040);
    assert(twiddle_spec(1, 8, true) == (Complex { re: 2040, im: 2040 }));
    assert(twiddle_spec(1, 8, false) == (Complex { re: 2040, im: 63497 }));
    assert(twiddle_spec(3, 8, true) == (Complex { re: 63497, im: 2040 }));
    assert(twiddle_spec(3, 8, false) == (Complex { re: 63497, im: 63497 }));
}

/// The generator powers the size-2 and size-4 twiddles need.
proof fn lemma_pow3_vals_small()
    ensures
        pow3_spec(16384) == 65281,
        pow3_spec(32768) == 65536,
        pow3_spec(49152) == 256,
{
    lemma_pow3_vals();
    assert(pow3_spec(16384) == 65281) by { lemma_pow3_double(8192); }
    assert(pow3_spec(32768) == 65536) by { lemma_pow3_double(16384); }
    assert(pow3_spec(49152) == 256) by { lemma_pow3_double(24576); }
}

/// The size-2 twiddle at index one is minus one, in both directions.
#[verifier::rlimit(100)]
#[verifier::spinoff_prover]
pub proof fn lemma_w2(inverse: bool)
    ensures
        twiddle_spec(1, 2, inverse) == crate::complex::c_neg(crate::complex::c_one()),
{
    reveal(twiddle_spec);
    reveal(crate::complex::c_neg);
    lemma_pow3_vals_small();
    assert((((GROUP_ORDER as nat) / 2) * 1) % (GROUP_ORDER as nat) == 32768);
    assert((((GROUP_ORDER as int) - 32768) % (GROUP_ORDER as int)) as nat == 32768);
    assert(s_add(65536, 65536) == 65535);
    assert(s_mul(65535, INV2) == 65536);
    assert(s_sub(65536, 65536) == 0);
    assert(s_mul(0, INV2) == 0);
    assert(s_mul(0, INV_U) == 0);
    assert(s_neg(0) == 0);
    assert(s_neg(1) == 65536);
}

/// The size-4 twiddles: a rotated one, minus one, and a negated rotated
/// one, in both directions.
#[verifier::rlimit(100)]
#[verifier::spinoff_prover]
pub proof fn lemma_w4(inverse: bool)
    ensures
        twiddle_spec(1, 4, inverse) == crate::complex::c_rot90(crate::complex::c_one(), inverse),
        twiddle_spec(2, 4, inverse) == crate::complex::c_neg(crate::complex::c_one()),
        twiddle_spec(3, 4, inverse) == crate::complex::c_neg(
            crate::complex::c_rot90(crate::complex::c_one(), inverse),
        ),
{
    reveal(twiddle_spec);
    reveal(crate::complex::c_neg);
    reveal(crate::complex::c_rot90);
    lemma_pow3_vals_small();
    assert((((GROUP_ORDER as nat) / 4) * 1) % (GROUP_ORDER as nat) == 16384);
    assert((((GROUP_ORDER as int) - 16384) % (GROUP_ORDER as int)) as nat == 49152);
    assert((((GROUP_ORDER as nat) / 4) * 2) % (GROUP_ORDER as nat) == 32768);
    assert((((GROUP_ORDER as int) - 32768) % (GROUP_ORDER as int)) as nat == 32768);
    assert((((GROUP_ORDER as nat) / 4) * 3) % (GROUP_ORDER as nat) == 49152);
    assert((((GROUP_ORDER as int) - 49152) % (GROUP_ORDER as int)) as nat == 16384);
    assert(s_add(65281, 256) == 0);
    assert(s_mul(0, INV2) == 0);
    assert(s_sub(65281, 256) == 65025);
    assert(s_mul(65025, INV2) == 65281);
    assert(s_mul(65281, INV_U) == 1);
    assert(s_sub(256, 65281) == 512);
    assert(s_mul(512, INV2) == 256);
    assert(s_mul(256, INV_U) == 65536);
    assert(s_add(65536, 65536) == 65535);
    assert(s_mul(65535, INV2) == 65536);
    assert(s_sub(65536, 65536) == 0);
    assert(s_mul(0, INV_U) == 0);
    assert(s_neg(0) == 0);
    assert(s_neg(1) == 65536);
    assert(s_neg(65536) == 1);
}

/// The table of the first `count` twiddles of a length-`n` transform.
pub fn twiddle_table(count: usize, n: usize, inverse: bool) -> (r: Vec<Complex>)
    requires
        1 <= n,
        (GROUP_ORDER as int) % (n as int) == 0,
        count <= n,
    ensures
        r@ == twiddle_table_spec(count as nat, n as nat, inverse),
        seq_wf(r@),
{
    let mut table: Vec<Complex> = Vec::new();
    let mut i: usize = 0;
    while i < count
        invariant
            i <= count,
            count <= n,
            1 <= n,
            (GROUP_ORDER as int) % (n as int) == 0,
            table@.len() == i,
            forall|j: int| 0 <= j < i ==> table@[j] == twiddle_spec(j as nat, n as nat, inverse),
            seq_wf(table@),
        decreases count - i,
    {
        let w = single_twiddle(i, n, inverse);
        table.push(w);
        i += 1;
    }
    proof {
        assert(table@ =~= twiddle_table_spec(count as nat, n as nat, inverse));
    }
    table
}

} // verus!
