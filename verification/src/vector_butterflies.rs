//! The register-level building blocks of the fixed-size kernels: column
//! butterflies packed four complex lanes wide, the lane-choreographed
//! complex multiply and its conjugate variant, the direction-dependent
//! 90-degree rotations, the 4x4 transpose and the 2-row even/odd split.

use vstd::prelude::*;
use crate::complex::{Complex, c_add, c_sub, c_mul, c_conj, c_neg, c_rot90, c_wf, lemma_c_add_neg, lemma_c_sub_neg, lemma_c_mul_neg_left};
use crate::lanes::{
    Reg, reg_wf, rc0, rc1, rc2, rc3, moveldup, movehdup, permute_swap_adjacent,
    permute_swap_middle, permute_swap_odd_complex, permute128_low, permute128_high, unpacklo,
    unpackhi, mul_lanes, fmaddsub, fmsubadd, negate_lanes, blend_even, blend_odd,
    blend_odd_complex_re, blend_odd_complex_im, madd_lanes, msub_lanes,
};
use crate::twiddles::twiddle_spec;

verus! {

broadcast use crate::complex::group_complex_wf;

/// Four parallel column 2-point butterflies: lanewise sum and difference.
pub fn column_butterfly2(row0: Reg, row1: Reg) -> (r: (Reg, Reg))
    requires
        reg_wf(row0),
        reg_wf(row1),
    ensures
        rc0(r.0) == c_add(rc0(row0), rc0(row1)),
        rc1(r.0) == c_add(rc1(row0), rc1(row1)),
        rc2(r.0) == c_add(rc2(row0), rc2(row1)),
        rc3(r.0) == c_add(rc3(row0), rc3(row1)),
        rc0(r.1) == c_sub(rc0(row0), rc0(row1)),
        rc1(r.1) == c_sub(rc1(row0), rc1(row1)),
        rc2(r.1) == c_sub(rc2(row0), rc2(row1)),
        rc3(r.1) == c_sub(rc3(row0), rc3(row1)),
        reg_wf(r.0),
        reg_wf(r.1),
{
    proof {
        reveal(c_add);
        reveal(c_sub);
    }
    (madd_lanes(row0, row1), msub_lanes(row0, row1))
}

/// The variant that flips the sign of `row1` before each operation: the
/// difference lands in the first output, the sum in the second.
pub fn column_butterfly2_negaterow1(row0: Reg, row1: Reg) -> (r: (Reg, Reg))
    requires
        reg_wf(row0),
        reg_wf(row1),
    ensures
        rc0(r.0) == c_sub(rc0(row0), rc0(row1)),
        rc1(r.0) == c_sub(rc1(row0), rc1(row1)),
        rc2(r.0) == c_sub(rc2(row0), rc2(row1)),
        rc3(r.0) == c_sub(rc3(row0), rc3(row1)),
        rc0(r.1) == c_add(rc0(row0), rc0(row1)),
        rc1(r.1) == c_add(rc1(row0), rc1(row1)),
        rc2(r.1) == c_add(rc2(row0), rc2(row1)),
        rc3(r.1) == c_add(rc3(row0), rc3(row1)),
        reg_wf(r.0),
        reg_wf(r.1),
{
    proof {
        reveal(c_add);
        reveal(c_sub);
    }
    (msub_lanes(row0, row1), madd_lanes(row0, row1))
}

/// Lanewise complex multiplication `left * right`, choreographed as
/// duplicate-even / duplicate-odd copies of the left operand, a lane swap
/// of the right operand, and an alternating fused multiply add/subtract.
pub fn complex_multiply(left: Reg, right: Reg) -> (r: Reg)
    requires
        reg_wf(left),
        reg_wf(right),
    ensures
        rc0(r) == c_mul(rc0(left), rc0(right)),
        rc1(r) == c_mul(rc1(left), rc1(right)),
        rc2(r) == c_mul(rc2(left), rc2(right)),
        rc3(r) == c_mul(rc3(left), rc3(right)),
        reg_wf(r),
{
    let left_real = moveldup(left);
    let left_imag = movehdup(left);
    let right_shuffled = permute_swap_adjacent(right);
    let output_right = mul_lanes(left_imag, right_shuffled);
    let r = fmaddsub(left_real, right, output_right);
    proof {
        reveal(c_mul);
    }
    r
}

/// Lanewise complex multiplication `conj(left) * right`: the same
/// choreography with the alternation flipped.
pub fn complex_conj_multiply(left: Reg, right: Reg) -> (r: Reg)
    requires
        reg_wf(left),
        reg_wf(right),
    ensures
        rc0(r) == c_mul(c_conj(rc0(left)), rc0(right)),
        rc1(r) == c_mul(c_conj(rc1(left)), rc1(right)),
        rc2(r) == c_mul(c_conj(rc2(left)), rc2(right)),
        rc3(r) == c_mul(c_conj(rc3(left)), rc3(right)),
        reg_wf(r),
{
    let left_real = moveldup(left);
    let left_imag = movehdup(left);
    let right_shuffled = permute_swap_adjacent(right);
    let output_right = mul_lanes(left_imag, right_shuffled);
    let r = fmsubadd(left_real, right, output_right);
    proof {
        reveal(c_mul);
        reveal(c_conj);
        lemma_conj_mul_lane(rc0(left), rc0(right));
        lemma_conj_mul_lane(rc1(left), rc1(right));
        lemma_conj_mul_lane(rc2(left), rc2(right));
        lemma_conj_mul_lane(rc3(left), rc3(right));
    }
    r
}

/// One complex lane of the conjugate multiply: the fused subtract/add form
/// equals multiplication by the conjugate.
proof fn lemma_conj_mul_lane(a: Complex, b: Complex)
    requires
        c_wf(a),
        c_wf(b),
    ensures
        c_mul(c_conj(a), b) == (Complex {
            re: crate::modp::s_add(crate::modp::s_mul(a.re, b.re), crate::modp::s_mul(a.im, b.im)),
            im: crate::modp::s_sub(crate::modp::s_mul(a.re, b.im), crate::modp::s_mul(a.im, b.re)),
        }),
{
    reveal(c_mul);
    reveal(c_conj);
    crate::modp::lemma_s_mul_neg_left(a.im, b.im);
    crate::modp::lemma_s_mul_neg_left(a.im, b.re);
    crate::modp::lemma_s_sub_neg(
        crate::modp::s_mul(a.re, b.re),
        crate::modp::s_mul(a.im, b.im),
    );
    crate::modp::lemma_s_add_neg(
        crate::modp::s_mul(a.re, b.im),
        crate::modp::s_mul(a.im, b.re),
    );
}

/// Rotates every complex lane by 90 degrees: swap the real and imaginary
/// lanes, negate a copy, and blend in the negated lanes the direction asks
/// for.
pub fn butterfly4_twiddle(elements: Reg, inverse: bool) -> (r: Reg)
    requires
        reg_wf(elements),
    ensures
        rc0(r) == c_rot90(rc0(elements), inverse),
        rc1(r) == c_rot90(rc1(elements), inverse),
        rc2(r) == c_rot90(rc2(elements), inverse),
        rc3(r) == c_rot90(rc3(elements), inverse),
        reg_wf(r),
{
    let swapped = permute_swap_adjacent(elements);
    let negated = negate_lanes(swapped);
    proof {
        reveal(c_rot90);
    }
    if inverse {
        blend_even(swapped, negated)
    } else {
        blend_odd(swapped, negated)
    }
}

/// Rotates only the odd complex lanes by 90 degrees.
pub fn butterfly4_twiddle_alternating(elements: Reg, inverse: bool) -> (r: Reg)
    requires
        reg_wf(elements),
    ensures
        rc0(r) == rc0(elements),
        rc2(r) == rc2(elements),
        rc1(r) == c_rot90(rc1(elements), inverse),
        rc3(r) == c_rot90(rc3(elements), inverse),
        reg_wf(r),
{
    let swapped = permute_swap_odd_complex(elements);
    let negated = negate_lanes(swapped);
    proof {
        reveal(c_rot90);
    }
    if inverse {
        blend_odd_complex_re(swapped, negated)
    } else {
        blend_odd_complex_im(swapped, negated)
    }
}

/// Splits two registers (eight consecutive complex samples) into their
/// even-indexed and odd-indexed samples: a 2xN to Nx2 transpose done with
/// two 128-bit cross-lane permutes, unpack-lo and unpack-hi, then two
/// in-lane permutes.
pub fn split_evens(row0: Reg, row1: Reg) -> (r: (Reg, Reg))
    requires
        reg_wf(row0),
        reg_wf(row1),
    ensures
        rc0(r.0) == rc0(row0),
        rc1(r.0) == rc2(row0),
        rc2(r.0) == rc0(row1),
        rc3(r.0) == rc2(row1),
        rc0(r.1) == rc1(row0),
        rc1(r.1) == rc3(row0),
        rc2(r.1) == rc1(row1),
        rc3(r.1) == rc3(row1),
        reg_wf(r.0),
        reg_wf(r.1),
{
    let permuted0 = permute128_low(row0, row1);
    let permuted1 = permute128_high(row0, row1);
    let unpacked1 = unpackhi(permuted0, permuted1);
    let unpacked0 = unpacklo(permuted0, permuted1);
    let output1 = permute_swap_middle(unpacked1);
    let output0 = permute_swap_middle(unpacked0);
    (output0, output1)
}

/// Transposes a 4x4 complex matrix held as four registers: two
/// unpack-lo/unpack-hi pairs, four in-lane permutes, four 128-bit
/// cross-lane permutes.
pub fn transpose_4x4(col0: Reg, col1: Reg, col2: Reg, col3: Reg) -> (r: (Reg, Reg, Reg, Reg))
    requires
        reg_wf(col0),
        reg_wf(col1),
        reg_wf(col2),
        reg_wf(col3),
    ensures
        rc0(r.0) == rc0(col0),
        rc1(r.0) == rc0(col1),
        rc2(r.0) == rc0(col2),
        rc3(r.0) == rc0(col3),
        rc0(r.1) == rc1(col0),
        rc1(r.1) == rc1(col1),
        rc2(r.1) == rc1(col2),
        rc3(r.1) == rc1(col3),
        rc0(r.2) == rc2(col0),
        rc1(r.2) == rc2(col1),
        rc2(r.2) == rc2(col2),
        rc3(r.2) == rc2(col3),
        rc0(r.3) == rc3(col0),
        rc1(r.3) == rc3(col1),
        rc2(r.3) == rc3(col2),
        rc3(r.3) == rc3(col3),
        reg_wf(r.0),
        reg_wf(r.1),
        reg_wf(r.2),
        reg_wf(r.3),
{
    let unpacked_0 = unpacklo(col0, col1);
    let unpacked_1 = unpackhi(col0, col1);
    let unpacked_2 = unpacklo(col2, col3);
    let unpacked_3 = unpackhi(col2, col3);

    let swapped_0 = permute_swap_middle(unpacked_0);
    let swapped_1 = permute_swap_middle(unpacked_1);
    let swapped_2 = permute_swap_middle(unpacked_2);
    let swapped_3 = permute_swap_middle(unpacked_3);

    let output_0 = permute128_low(swapped_0, swapped_2);
    let output_1 = permute128_low(swapped_1, swapped_3);
    let output_2 = permute128_high(swapped_0, swapped_2);
    let output_3 = permute128_high(swapped_1, swapped_3);

    (output_0, output_1, output_2, output_3)
}

/// Four parallel column 4-point butterflies, outputs in natural order: per
/// complex lane `k` the outputs are `bf4_spec` of the four inputs at lane
/// `k`.
pub fn column_butterfly4(row0: Reg, row1: Reg, row2: Reg, row3: Reg, inverse: bool) -> (r: (
    Reg,
    Reg,
    Reg,
    Reg,
))
    requires
        reg_wf(row0),
        reg_wf(row1),
        reg_wf(row2),
        reg_wf(row3),
    ensures
        (rc0(r.0), rc0(r.1), rc0(r.2), rc0(r.3)) == crate::butterflies::bf4_spec(
            rc0(row0), rc0(row1), rc0(row2), rc0(row3), inverse),
        (rc1(r.0), rc1(r.1), rc1(r.2), rc1(r.3)) == crate::butterflies::bf4_spec(
            rc1(row0), rc1(row1), rc1(row2), rc1(row3), inverse),
        (rc2(r.0), rc2(r.1), rc2(r.2), rc2(r.3)) == crate::butterflies::bf4_spec(
            rc2(row0), rc2(row1), rc2(row2), rc2(row3), inverse),
        (rc3(r.0), rc3(r.1), rc3(r.2), rc3(r.3)) == crate::butterflies::bf4_spec(
            rc3(row0), rc3(row1), rc3(row2), rc3(row3), inverse),
        reg_wf(r.0),
        reg_wf(r.1),
        reg_wf(r.2),
        reg_wf(r.3),
{
    proof {
        reveal(crate::butterflies::bf4_spec);
    }
    let (mid0, mid2) = column_butterfly2(row0, row2);
    let (mid1, mid3_pretwiddle) = column_butterfly2(row1, row3);
    let mid3 = butterfly4_twiddle(mid3_pretwiddle, inverse);
    let (output0, output1) = column_butterfly2(mid0, mid1);
    let (output2, output3) = column_butterfly2(mid2, mid3);
    (output0, output2, output1, output3)
}

/// A register holds four copies of `W_8`, the packed twiddle vector of the
/// 8-point column butterfly.
pub open spec fn w8_packed(tw: Reg, inverse: bool) -> bool {
    &&& rc0(tw) == twiddle_spec(1, 8, inverse)
    &&& rc1(tw) == twiddle_spec(1, 8, inverse)
    &&& rc2(tw) == twiddle_spec(1, 8, inverse)
    &&& rc3(tw) == twiddle_spec(1, 8, inverse)
}

/// Four parallel column 8-point butterflies, outputs in natural order,
/// treated as a 2x4 array: column 4-point butterflies, the packed `W_8`
/// twiddles on the odd column (the third rotated in place, the fourth
/// multiplied by the conjugate with the final negation rolled into a
/// sign-flipped 2-point butterfly), then 2-point butterflies across the
/// columns.
pub fn column_butterfly8(
    row0: Reg,
    row1: Reg,
    row2: Reg,
    row3: Reg,
    row4: Reg,
    row5: Reg,
    row6: Reg,
    row7: Reg,
    twiddles: Reg,
    inverse: bool,
) -> (r: (Reg, Reg, Reg, Reg, Reg, Reg, Reg, Reg))
    requires
        reg_wf(row0),
        reg_wf(row1),
        reg_wf(row2),
        reg_wf(row3),
        reg_wf(row4),
        reg_wf(row5),
        reg_wf(row6),
        reg_wf(row7),
        reg_wf(twiddles),
        w8_packed(twiddles, inverse),
    ensures
        (rc0(r.0), rc0(r.1), rc0(r.2), rc0(r.3), rc0(r.4), rc0(r.5), rc0(r.6), rc0(r.7))
            == crate::butterflies::bf8t_spec(
            rc0(row0), rc0(row1), rc0(row2), rc0(row3), rc0(row4), rc0(row5), rc0(row6), rc0(row7),
            inverse),
        (rc1(r.0), rc1(r.1), rc1(r.2), rc1(r.3), rc1(r.4), rc1(r.5), rc1(r.6), rc1(r.7))
            == crate::butterflies::bf8t_spec(
            rc1(row0), rc1(row1), rc1(row2), rc1(row3), rc1(row4), rc1(row5), rc1(row6), rc1(row7),
            inverse),
        (rc2(r.0), rc2(r.1), rc2(r.2), rc2(r.3), rc2(r.4), rc2(r.5), rc2(r.6), rc2(r.7))
            == crate::butterflies::bf8t_spec(
            rc2(row0), rc2(row1), rc2(row2), rc2(row3), rc2(row4), rc2(row5), rc2(row6), rc2(row7),
            inverse),
        (rc3(r.0), rc3(r.1), rc3(r.2), rc3(r.3), rc3(r.4), rc3(r.5), rc3(r.6), rc3(r.7))
            == crate::butterflies::bf8t_spec(
            rc3(row0), rc3(row1), rc3(row2), rc3(row3), rc3(row4), rc3(row5), rc3(row6), rc3(row7),
            inverse),
        reg_wf(r.0),
        reg_wf(r.1),
        reg_wf(r.2),
        reg_wf(r.3),
        reg_wf(r.4),
        reg_wf(r.5),
        reg_wf(r.6),
        reg_wf(r.7),
{
    let (mid0, mid2, mid4, mid6) = column_butterfly4(row0, row2, row4, row6, inverse);
    let (mid1, mid3, mid5, mid7) = column_butterfly4(row1, row3, row5, row7, inverse);

    let mid3_twiddled = complex_multiply(twiddles, mid3);
    let mid5_twiddled = butterfly4_twiddle(mid5, inverse);
    let mid7_twiddled_neg = complex_conj_multiply(twiddles, mid7);

    let (final0, final1) = column_butterfly2(mid0, mid1);
    let (final2, final3) = column_butterfly2(mid2, mid3_twiddled);
    let (final4, final5) = column_butterfly2(mid4, mid5_twiddled);
    let (final6, final7) = column_butterfly2_negaterow1(mid6, mid7_twiddled_neg);

    proof {
        reveal(crate::butterflies::bf8t_spec);
        let w1 = twiddle_spec(1, 8, inverse);
        crate::twiddles::lemma_w8_third(inverse);
        lemma_c_mul_neg_left(c_conj(w1), rc0(mid7));
        lemma_c_mul_neg_left(c_conj(w1), rc1(mid7));
        lemma_c_mul_neg_left(c_conj(w1), rc2(mid7));
        lemma_c_mul_neg_left(c_conj(w1), rc3(mid7));
        lemma_c_add_neg(rc0(mid6), rc0(mid7_twiddled_neg));
        lemma_c_add_neg(rc1(mid6), rc1(mid7_twiddled_neg));
        lemma_c_add_neg(rc2(mid6), rc2(mid7_twiddled_neg));
        lemma_c_add_neg(rc3(mid6), rc3(mid7_twiddled_neg));
        lemma_c_sub_neg(rc0(mid6), rc0(mid7_twiddled_neg));
        lemma_c_sub_neg(rc1(mid6), rc1(mid7_twiddled_neg));
        lemma_c_sub_neg(rc2(mid6), rc2(mid7_twiddled_neg));
        lemma_c_sub_neg(rc3(mid6), rc3(mid7_twiddled_neg));
    }

    (final0, final2, final4, final6, final1, final3, final5, final7)
}

} // verus!
