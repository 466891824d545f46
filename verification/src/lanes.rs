//! The register model of the vectorized kernels: one 256-bit vector as
//! eight scalar lanes holding four interleaved complex samples, together
//! with the lane shuffles the kernels are choreographed from (unpack
//! low/high, in-lane permutes, 128-bit cross-lane permutes, blends and the
//! alternating fused multiply add/subtract).

use vstd::prelude::*;
use crate::modp::{s_reduced, s_add, s_sub, s_mul, s_neg, madd, msub, mmul, mneg};
use crate::complex::{Complex, c_add, c_sub, c_mul, c_conj, c_rot90, c_wf, seq_wf};

verus! {

/// One 256-bit register: eight scalar lanes, four complex samples
/// interleaved as `re0, im0, re1, im1, re2, im2, re3, im3`.
#[derive(Clone, Copy)]
pub struct Reg {
    pub s0: u64,
    pub s1: u64,
    pub s2: u64,
    pub s3: u64,
    pub s4: u64,
    pub s5: u64,
    pub s6: u64,
    pub s7: u64,
}

/// Every lane of the register is reduced.
pub open spec fn reg_wf(r: Reg) -> bool {
    s_reduced(r.s0) && s_reduced(r.s1) && s_reduced(r.s2) && s_reduced(r.s3) && s_reduced(r.s4)
        && s_reduced(r.s5) && s_reduced(r.s6) && s_reduced(r.s7)
}

/// The first complex lane.
pub open spec fn rc0(r: Reg) -> Complex {
    Complex { re: r.s0, im: r.s1 }
}

/// The second complex lane.
pub open spec fn rc1(r: Reg) -> Complex {
    Complex { re: r.s2, im: r.s3 }
}

/// The third complex lane.
pub open spec fn rc2(r: Reg) -> Complex {
    Complex { re: r.s4, im: r.s5 }
}

/// The fourth complex lane.
pub open spec fn rc3(r: Reg) -> Complex {
    Complex { re: r.s6, im: r.s7 }
}

/// The complex lane at index `j`.
pub open spec fn rc_lane(r: Reg, j: int) -> Complex {
    if j == 0 {
        rc0(r)
    } else if j == 1 {
        rc1(r)
    } else if j == 2 {
        rc2(r)
    } else {
        rc3(r)
    }
}

/// Loads four consecutive complex samples into a register.
pub fn load_reg(buffer: &[Complex], idx: usize) -> (r: Reg)
    requires
        idx + 4 <= buffer@.len(),
        seq_wf(buffer@),
    ensures
        rc0(r) == buffer@[idx as int],
        rc1(r) == buffer@[idx + 1],
        rc2(r) == buffer@[idx + 2],
        rc3(r) == buffer@[idx + 3],
        reg_wf(r),
{
    Reg {
        s0: buffer[idx].re,
        s1: buffer[idx].im,
        s2: buffer[idx + 1].re,
        s3: buffer[idx + 1].im,
        s4: buffer[idx + 2].re,
        s5: buffer[idx + 2].im,
        s6: buffer[idx + 3].re,
        s7: buffer[idx + 3].im,
    }
}

/// Packs four complex samples into one register.
pub fn pack_reg(a: Complex, b: Complex, c: Complex, d: Complex) -> (r: Reg)
    requires
        c_wf(a),
        c_wf(b),
        c_wf(c),
        c_wf(d),
    ensures
        rc0(r) == a,
        rc1(r) == b,
        rc2(r) == c,
        rc3(r) == d,
        reg_wf(r),
{
    Reg { s0: a.re, s1: a.im, s2: b.re, s3: b.im, s4: c.re, s5: c.im, s6: d.re, s7: d.im }
}

/// Stores the four complex lanes of a register to four consecutive samples.
pub fn store_reg(buffer: &mut [Complex], idx: usize, r: Reg)
    requires
        idx + 4 <= old(buffer)@.len(),
        seq_wf(old(buffer)@),
        reg_wf(r),
    ensures
        final(buffer)@.len() == old(buffer)@.len(),
        final(buffer)@[idx as int] == rc0(r),
        final(buffer)@[idx + 1] == rc1(r),
        final(buffer)@[idx + 2] == rc2(r),
        final(buffer)@[idx + 3] == rc3(r),
        forall|j: int|
            0 <= j < old(buffer)@.len() && !(idx <= j < idx + 4) ==> final(buffer)@[j] == old(
                buffer,
            )@[j],
        final(buffer)@ == old(buffer)@.update(idx as int, rc0(r)).update(idx + 1, rc1(r)).update(
            idx + 2,
            rc2(r),
        ).update(idx + 3, rc3(r)),
        seq_wf(final(buffer)@),
{
    buffer[idx] = Complex { re: r.s0, im: r.s1 };
    buffer[idx + 1] = Complex { re: r.s2, im: r.s3 };
    buffer[idx + 2] = Complex { re: r.s4, im: r.s5 };
    buffer[idx + 3] = Complex { re: r.s6, im: r.s7 };
}

/// Duplicates the even (real) lanes: `a0 a0 a2 a2 a4 a4 a6 a6`.
pub fn moveldup(a: Reg) -> (r: Reg)
    ensures
        r == (Reg { s0: a.s0, s1: a.s0, s2: a.s2, s3: a.s2, s4: a.s4, s5: a.s4, s6: a.s6, s7: a.s6 }),
{
    Reg { s0: a.s0, s1: a.s0, s2: a.s2, s3: a.s2, s4: a.s4, s5: a.s4, s6: a.s6, s7: a.s6 }
}

/// Duplicates the odd (imaginary) lanes: `a1 a1 a3 a3 a5 a5 a7 a7`.
pub fn movehdup(a: Reg) -> (r: Reg)
    ensures
        r == (Reg { s0: a.s1, s1: a.s1, s2: a.s3, s3: a.s3, s4: a.s5, s5: a.s5, s6: a.s7, s7: a.s7 }),
{
    Reg { s0: a.s1, s1: a.s1, s2: a.s3, s3: a.s3, s4: a.s5, s5: a.s5, s6: a.s7, s7: a.s7 }
}

/// Swaps adjacent lanes (real with imaginary): `a1 a0 a3 a2 a5 a4 a7 a6`.
pub fn permute_swap_adjacent(a: Reg) -> (r: Reg)
    ensures
        r == (Reg { s0: a.s1, s1: a.s0, s2: a.s3, s3: a.s2, s4: a.s5, s5: a.s4, s6: a.s7, s7: a.s6 }),
{
    Reg { s0: a.s1, s1: a.s0, s2: a.s3, s3: a.s2, s4: a.s5, s5: a.s4, s6: a.s7, s7: a.s6 }
}

/// Swaps the middle pair of each 128-bit half: `a0 a2 a1 a3 a4 a6 a5 a7`.
pub fn permute_swap_middle(a: Reg) -> (r: Reg)
    ensures
        r == (Reg { s0: a.s0, s1: a.s2, s2: a.s1, s3: a.s3, s4: a.s4, s5: a.s6, s6: a.s5, s7: a.s7 }),
{
    Reg { s0: a.s0, s1: a.s2, s2: a.s1, s3: a.s3, s4: a.s4, s5: a.s6, s6: a.s5, s7: a.s7 }
}

/// Swaps real with imaginary in the odd complex lanes only:
/// `a0 a1 a3 a2 a4 a5 a7 a6`.
pub fn permute_swap_odd_complex(a: Reg) -> (r: Reg)
    ensures
        r == (Reg { s0: a.s0, s1: a.s1, s2: a.s3, s3: a.s2, s4: a.s4, s5: a.s5, s6: a.s7, s7: a.s6 }),
{
    Reg { s0: a.s0, s1: a.s1, s2: a.s3, s3: a.s2, s4: a.s4, s5: a.s5, s6: a.s7, s7: a.s6 }
}

/// The low 128-bit halves of two registers: `a0 a1 a2 a3 b0 b1 b2 b3`.
pub fn permute128_low(a: Reg, b: Reg) -> (r: Reg)
    ensures
        r == (Reg { s0: a.s0, s1: a.s1, s2: a.s2, s3: a.s3, s4: b.s0, s5: b.s1, s6: b.s2, s7: b.s3 }),
{
    Reg { s0: a.s0, s1: a.s1, s2: a.s2, s3: a.s3, s4: b.s0, s5: b.s1, s6: b.s2, s7: b.s3 }
}

/// The high 128-bit halves of two registers: `a4 a5 a6 a7 b4 b5 b6 b7`.
pub fn permute128_high(a: Reg, b: Reg) -> (r: Reg)
    ensures
        r == (Reg { s0: a.s4, s1: a.s5, s2: a.s6, s3: a.s7, s4: b.s4, s5: b.s5, s6: b.s6, s7: b.s7 }),
{
    Reg { s0: a.s4, s1: a.s5, s2: a.s6, s3: a.s7, s4: b.s4, s5: b.s5, s6: b.s6, s7: b.s7 }
}

/// Interleaves the low lanes of each 128-bit half:
/// `a0 b0 a1 b1 a4 b4 a5 b5`.
pub fn unpacklo(a: Reg, b: Reg) -> (r: Reg)
    ensures
        r == (Reg { s0: a.s0, s1: b.s0, s2: a.s1, s3: b.s1, s4: a.s4, s5: b.s4, s6: a.s5, s7: b.s5 }),
{
    Reg { s0: a.s0, s1: b.s0, s2: a.s1, s3: b.s1, s4: a.s4, s5: b.s4, s6: a.s5, s7: b.s5 }
}

/// Interleaves the high lanes of each 128-bit half:
/// `a2 b2 a3 b3 a6 b6 a7 b7`.
pub fn unpackhi(a: Reg, b: Reg) -> (r: Reg)
    ensures
        r == (Reg { s0: a.s2, s1: b.s2, s2: a.s3, s3: b.s3, s4: a.s6, s5: b.s6, s6: a.s7, s7: b.s7 }),
{
    Reg { s0: a.s2, s1: b.s2, s2: a.s3, s3: b.s3, s4: a.s6, s5: b.s6, s6: a.s7, s7: b.s7 }
}

/// Lanewise addition.
pub fn madd_lanes(a: Reg, b: Reg) -> (r: Reg)
    requires
        reg_wf(a),
        reg_wf(b),
    ensures
        r.s0 == s_add(a.s0, b.s0),
        r.s1 == s_add(a.s1, b.s1),
        r.s2 == s_add(a.s2, b.s2),
        r.s3 == s_add(a.s3, b.s3),
        r.s4 == s_add(a.s4, b.s4),
        r.s5 == s_add(a.s5, b.s5),
        r.s6 == s_add(a.s6, b.s6),
        r.s7 == s_add(a.s7, b.s7),
        reg_wf(r),
{
    Reg {
        s0: madd(a.s0, b.s0),
        s1: madd(a.s1, b.s1),
        s2: madd(a.s2, b.s2),
        s3: madd(a.s3, b.s3),
        s4: madd(a.s4, b.s4),
        s5: madd(a.s5, b.s5),
        s6: madd(a.s6, b.s6),
        s7: madd(a.s7, b.s7),
    }
}

/// Lanewise subtraction.
pub fn msub_lanes(a: Reg, b: Reg) -> (r: Reg)
    requires
        reg_wf(a),
        reg_wf(b),
    ensures
        r.s0 == s_sub(a.s0, b.s0),
        r.s1 == s_sub(a.s1, b.s1),
        r.s2 == s_sub(a.s2, b.s2),
        r.s3 == s_sub(a.s3, b.s3),
        r.s4 == s_sub(a.s4, b.s4),
        r.s5 == s_sub(a.s5, b.s5),
        r.s6 == s_sub(a.s6, b.s6),
        r.s7 == s_sub(a.s7, b.s7),
        reg_wf(r),
{
    Reg {
        s0: msub(a.s0, b.s0),
        s1: msub(a.s1, b.s1),
        s2: msub(a.s2, b.s2),
        s3: msub(a.s3, b.s3),
        s4: msub(a.s4, b.s4),
        s5: msub(a.s5, b.s5),
        s6: msub(a.s6, b.s6),
        s7: msub(a.s7, b.s7),
    }
}

/// Lanewise multiplication.
pub fn mul_lanes(a: Reg, b: Reg) -> (r: Reg)
    requires
        reg_wf(a),
        reg_wf(b),
    ensures
        r.s0 == s_mul(a.s0, b.s0),
        r.s1 == s_mul(a.s1, b.s1),
        r.s2 == s_mul(a.s2, b.s2),
        r.s3 == s_mul(a.s3, b.s3),
        r.s4 == s_mul(a.s4, b.s4),
        r.s5 == s_mul(a.s5, b.s5),
        r.s6 == s_mul(a.s6, b.s6),
        r.s7 == s_mul(a.s7, b.s7),
        reg_wf(r),
{
    Reg {
        s0: mmul(a.s0, b.s0),
        s1: mmul(a.s1, b.s1),
        s2: mmul(a.s2, b.s2),
        s3: mmul(a.s3, b.s3),
        s4: mmul(a.s4, b.s4),
        s5: mmul(a.s5, b.s5),
        s6: mmul(a.s6, b.s6),
        s7: mmul(a.s7, b.s7),
    }
}

/// Fused multiply with alternating subtract/add: `a*b - c` in the even
/// lanes, `a*b + c` in the odd lanes.
pub fn fmaddsub(a: Reg, b: Reg, c: Reg) -> (r: Reg)
    requires
        reg_wf(a),
        reg_wf(b),
        reg_wf(c),
    ensures
        r.s0 == s_sub(s_mul(a.s0, b.s0), c.s0),
        r.s1 == s_add(s_mul(a.s1, b.s1), c.s1),
        r.s2 == s_sub(s_mul(a.s2, b.s2), c.s2),
        r.s3 == s_add(s_mul(a.s3, b.s3), c.s3),
        r.s4 == s_sub(s_mul(a.s4, b.s4), c.s4),
        r.s5 == s_add(s_mul(a.s5, b.s5), c.s5),
        r.s6 == s_sub(s_mul(a.s6, b.s6), c.s6),
        r.s7 == s_add(s_mul(a.s7, b.s7), c.s7),
        reg_wf(r),
{
    Reg {
        s0: msub(mmul(a.s0, b.s0), c.s0),
        s1: madd(mmul(a.s1, b.s1), c.s1),
        s2: msub(mmul(a.s2, b.s2), c.s2),
        s3: madd(mmul(a.s3, b.s3), c.s3),
        s4: msub(mmul(a.s4, b.s4), c.s4),
        s5: madd(mmul(a.s5, b.s5), c.s5),
        s6: msub(mmul(a.s6, b.s6), c.s6),
        s7: madd(mmul(a.s7, b.s7), c.s7),
    }
}

/// Fused multiply with alternating add/subtract: `a*b + c` in the even
/// lanes, `a*b - c` in the odd lanes.
pub fn fmsubadd(a: Reg, b: Reg, c: Reg) -> (r: Reg)
    requires
        reg_wf(a),
        reg_wf(b),
        reg_wf(c),
    ensures
        r.s0 == s_add(s_mul(a.s0, b.s0), c.s0),
        r.s1 == s_sub(s_mul(a.s1, b.s1), c.s1),
        r.s2 == s_add(s_mul(a.s2, b.s2), c.s2),
        r.s3 == s_sub(s_mul(a.s3, b.s3), c.s3),
        r.s4 == s_add(s_mul(a.s4, b.s4), c.s4),
        r.s5 == s_sub(s_mul(a.s5, b.s5), c.s5),
        r.s6 == s_add(s_mul(a.s6, b.s6), c.s6),
        r.s7 == s_sub(s_mul(a.s7, b.s7), c.s7),
        reg_wf(r),
{
    Reg {
        s0: madd(mmul(a.s0, b.s0), c.s0),
        s1: msub(mmul(a.s1, b.s1), c.s1),
        s2: madd(mmul(a.s2, b.s2), c.s2),
        s3: msub(mmul(a.s3, b.s3), c.s3),
        s4: madd(mmul(a.s4, b.s4), c.s4),
        s5: msub(mmul(a.s5, b.s5), c.s5),
        s6: madd(mmul(a.s6, b.s6), c.s6),
        s7: msub(mmul(a.s7, b.s7), c.s7),
    }
}

/// Negates every lane (the xor with a sign mask).
pub fn negate_lanes(a: Reg) -> (r: Reg)
    requires
        reg_wf(a),
    ensures
        r.s0 == s_neg(a.s0),
        r.s1 == s_neg(a.s1),
        r.s2 == s_neg(a.s2),
        r.s3 == s_neg(a.s3),
        r.s4 == s_neg(a.s4),
        r.s5 == s_neg(a.s5),
        r.s6 == s_neg(a.s6),
        r.s7 == s_neg(a.s7),
        reg_wf(r),
{
    Reg {
        s0: mneg(a.s0),
        s1: mneg(a.s1),
        s2: mneg(a.s2),
        s3: mneg(a.s3),
        s4: mneg(a.s4),
        s5: mneg(a.s5),
        s6: mneg(a.s6),
        s7: mneg(a.s7),
    }
}

/// Takes `b` in the even (real) lanes, `a` in the odd lanes.
pub fn blend_even(a: Reg, b: Reg) -> (r: Reg)
    ensures
        r == (Reg { s0: b.s0, s1: a.s1, s2: b.s2, s3: a.s3, s4: b.s4, s5: a.s5, s6: b.s6, s7: a.s7 }),
{
    Reg { s0: b.s0, s1: a.s1, s2: b.s2, s3: a.s3, s4: b.s4, s5: a.s5, s6: b.s6, s7: a.s7 }
}

/// Takes `b` in the odd (imaginary) lanes, `a` in the even lanes.
pub fn blend_odd(a: Reg, b: Reg) -> (r: Reg)
    ensures
        r == (Reg { s0: a.s0, s1: b.s1, s2: a.s2, s3: b.s3, s4: a.s4, s5: b.s5, s6: a.s6, s7: b.s7 }),
{
    Reg { s0: a.s0, s1: b.s1, s2: a.s2, s3: b.s3, s4: a.s4, s5: b.s5, s6: a.s6, s7: b.s7 }
}

/// Takes `b` in scalar lanes 2 and 6 (the real lanes of the odd complex
/// lanes), `a` elsewhere.
pub fn blend_odd_complex_re(a: Reg, b: Reg) -> (r: Reg)
    ensures
        r == (Reg { s0: a.s0, s1: a.s1, s2: b.s2, s3: a.s3, s4: a.s4, s5: a.s5, s6: b.s6, s7: a.s7 }),
{
    Reg { s0: a.s0, s1: a.s1, s2: b.s2, s3: a.s3, s4: a.s4, s5: a.s5, s6: b.s6, s7: a.s7 }
}

/// Takes `b` in scalar lanes 3 and 7 (the imaginary lanes of the odd
/// complex lanes), `a` elsewhere.
pub fn blend_odd_complex_im(a: Reg, b: Reg) -> (r: Reg)
    ensures
        r == (Reg { s0: a.s0, s1: a.s1, s2: a.s2, s3: b.s3, s4: a.s4, s5: a.s5, s6: a.s6, s7: b.s7 }),
{
    Reg { s0: a.s0, s1: a.s1, s2: a.s2, s3: b.s3, s4: a.s4, s5: a.s5, s6: a.s6, s7: b.s7 }
}

} // verus!
