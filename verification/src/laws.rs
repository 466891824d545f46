//! Laws the engine satisfies, stated and proved once and for all inputs.

use vstd::prelude::*;
use crate::complex::{
    Complex, c_add, c_mul, c_neg, c_one, c_rot90, c_sub, c_wf, c_zero, seq_wf,
    lemma_c_add_assoc, lemma_c_add_comm, lemma_c_add_neg, lemma_c_add_zero_left,
    lemma_c_mul_neg_right, lemma_c_mul_one_right, lemma_c_mul_rot_one, lemma_c_neg_add,
    lemma_c_rot90_sub, lemma_c_sub_swap,
};
use crate::butterflies::{bf2_spec, bf4_spec, Butterfly2, Butterfly4};
use crate::dft::{dft_seq, dft_sum};
use crate::traits::FftInline;
use crate::twiddles::{lemma_twiddle_zero, lemma_w2, lemma_w4, twiddle_spec};
use crate::split_radix::{SplitRadix, SplitRadixAvx};

verus! {

broadcast use crate::complex::group_complex_wf;

/// Handle immutability: a transform handle is a pure function of its
/// construction, so two calls on equal inputs produce equal outputs. The
/// statement is over `apply`, which `process_inline` is proved to compute.
pub proof fn lemma_handle_deterministic<F: FftInline>(fft: &F, a: Seq<Complex>, b: Seq<Complex>)
    requires
        a == b,
    ensures
        fft.apply(a) == fft.apply(b),
{
}

/// The scalar and the vectorized split radix compute the same mathematics:
/// over the same inner transforms and direction, their transforms agree on
/// every input.
pub proof fn lemma_split_radix_paths_agree<H: FftInline, Q: FftInline>(
    scalar: &SplitRadix<H, Q>,
    vectorized: &SplitRadixAvx<H, Q>,
    x: Seq<Complex>,
)
    requires
        scalar.wf(),
        vectorized.wf(),
        scalar.fft_half == vectorized.fft_half,
        scalar.fft_quarter == vectorized.fft_quarter,
        scalar.spec_inverse() == vectorized.spec_inverse(),
    ensures
        scalar.apply(x) == vectorized.apply(x),
{
}

/// Four summands regrouped: `((a + b) + c) + d == (a + c) + (b + d)`.
proof fn lemma_c_add4_rearrange(a: Complex, b: Complex, c: Complex, d: Complex)
    requires
        c_wf(a),
        c_wf(b),
        c_wf(c),
        c_wf(d),
    ensures
        c_add(c_add(c_add(a, b), c), d) == c_add(c_add(a, c), c_add(b, d)),
{
    lemma_c_add_assoc(a, b, c);
    lemma_c_add_comm(b, c);
    lemma_c_add_assoc(a, c, b);
    lemma_c_add_assoc(c_add(a, c), b, d);
}

/// Correctness of the size-2 leaf against the reference: its transform is
/// the defining DFT sum.
pub proof fn lemma_butterfly2_matches_reference(b: &Butterfly2, x: Seq<Complex>)
    requires
        b.wf(),
        x.len() == 2,
        seq_wf(x),
    ensures
        b.apply(x) == dft_seq(x, b.spec_inverse()),
{
    let inverse = b.spec_inverse();
    reveal(bf2_spec);
    reveal_with_fuel(dft_sum, 4);
    lemma_twiddle_zero(2, inverse);
    lemma_w2(inverse);
    lemma_c_mul_one_right(x[0]);
    lemma_c_mul_one_right(x[1]);
    lemma_c_add_zero_left(c_mul(x[0], twiddle_spec(0, 2, inverse)));
    lemma_c_mul_neg_right(x[1], c_one());
    lemma_c_add_neg(x[0], x[1]);
    assert(b.apply(x) =~= dft_seq(x, inverse));
}

/// Correctness of the size-4 leaf against the reference: its transform is
/// the defining DFT sum.
#[verifier::rlimit(100)]
#[verifier::spinoff_prover]
pub proof fn lemma_butterfly4_matches_reference(b: &Butterfly4, x: Seq<Complex>)
    requires
        b.wf(),
        x.len() == 4,
        seq_wf(x),
    ensures
        b.apply(x) == dft_seq(x, b.spec_inverse()),
{
    let inverse = b.spec_inverse();
    let x0 = x[0];
    let x1 = x[1];
    let x2 = x[2];
    let x3 = x[3];
    let rot1 = c_rot90(x1, inverse);
    let rot3 = c_rot90(x3, inverse);
    reveal(bf4_spec);
    reveal_with_fuel(dft_sum, 6);
    lemma_twiddle_zero(4, inverse);
    lemma_w4(inverse);

    lemma_c_mul_one_right(x0);
    lemma_c_mul_one_right(x1);
    lemma_c_mul_one_right(x2);
    lemma_c_mul_one_right(x3);
    lemma_c_add_zero_left(c_mul(x0, twiddle_spec(0, 4, inverse)));
    lemma_c_mul_rot_one(x1, inverse);
    lemma_c_mul_rot_one(x3, inverse);
    lemma_c_mul_neg_right(x1, c_one());
    lemma_c_mul_neg_right(x2, c_one());
    lemma_c_mul_neg_right(x3, c_one());
    lemma_c_mul_neg_right(x1, c_rot90(c_one(), inverse));
    lemma_c_mul_neg_right(x3, c_rot90(c_one(), inverse));

    // Frequency zero: the plain sum regrouped into the even and odd halves.
    lemma_c_add4_rearrange(x0, x1, x2, x3);

    // Frequency one: sums with the odd half rotated.
    lemma_c_add4_rearrange(x0, rot1, c_neg(x2), c_neg(rot3));
    lemma_c_add_neg(x0, x2);
    lemma_c_add_neg(rot1, rot3);
    lemma_c_rot90_sub(x1, x3, inverse);

    // Frequency two: the difference of the two sums.
    lemma_c_add4_rearrange(x0, c_neg(x1), x2, c_neg(x3));
    lemma_c_neg_add(x1, x3);
    lemma_c_add_neg(c_add(x0, x2), c_add(x1, x3));

    // Frequency three: the difference with the rotation negated.
    lemma_c_add4_rearrange(x0, c_neg(rot1), c_neg(x2), rot3);
    lemma_c_add_comm(c_neg(rot1), rot3);
    lemma_c_add_neg(rot3, rot1);
    lemma_c_sub_swap(rot1, rot3);
    lemma_c_add_neg(c_sub(x0, x2), c_rot90(c_sub(x1, x3), inverse));

    assert(b.apply(x) =~= dft_seq(x, inverse));
}

} // verus!
