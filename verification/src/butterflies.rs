//! Butterfly building blocks: the radix-2, radix-4 and radix-8 output
//! formulas shared by the scalar leaves and the fixed-size kernels, and the
//! size-2 / size-4 scalar leaf transforms that seed the recursion when
//! reference correctness matters more than speed.

use vstd::prelude::*;
use crate::complex::{Complex, c_add, c_sub, c_mul, c_rot90, c_wf, seq_wf};
use crate::traits::FftInline;
use crate::twiddles::{rotate_90, twiddle_spec};

verus! {

broadcast use crate::complex::group_complex_wf;

/// The 2-point transform: `(x0 + x1, x0 - x1)`.
#[verifier::opaque]
pub open spec fn bf2_spec(x0: Complex, x1: Complex) -> (Complex, Complex) {
    (c_add(x0, x1), c_sub(x0, x1))
}

/// The 4-point transform in natural output order. With `s = x0 + x2`,
/// `d = x0 - x2`, `s' = x1 + x3` and `d'` the 90-degree rotation of
/// `x1 - x3`, the outputs are `(s + s', d + d', s - s', d - d')`.
#[verifier::opaque]
pub open spec fn bf4_spec(x0: Complex, x1: Complex, x2: Complex, x3: Complex, inverse: bool)
    -> (Complex, Complex, Complex, Complex)
{
    let s0 = c_add(x0, x2);
    let d0 = c_sub(x0, x2);
    let s1 = c_add(x1, x3);
    let d1 = c_rot90(c_sub(x1, x3), inverse);
    (c_add(s0, s1), c_add(d0, d1), c_sub(s0, s1), c_sub(d0, d1))
}

/// The 8-point transform in natural output order, as the 2-column by 4-row
/// mixed-radix factorization: 4-point transforms down the even and odd
/// decimations, twiddles `W_8^r` on the odd column, then 2-point butterflies
/// across the columns.
#[verifier::opaque]
pub open spec fn bf8t_spec(
    x0: Complex,
    x1: Complex,
    x2: Complex,
    x3: Complex,
    x4: Complex,
    x5: Complex,
    x6: Complex,
    x7: Complex,
    inverse: bool,
) -> (Complex, Complex, Complex, Complex, Complex, Complex, Complex, Complex) {
    let e = bf4_spec(x0, x2, x4, x6, inverse);
    let o = bf4_spec(x1, x3, x5, x7, inverse);
    let t1 = c_mul(twiddle_spec(1, 8, inverse), o.1);
    let t2 = c_rot90(o.2, inverse);
    let t3 = c_mul(twiddle_spec(3, 8, inverse), o.3);
    (
        c_add(e.0, o.0),
        c_add(e.1, t1),
        c_add(e.2, t2),
        c_add(e.3, t3),
        c_sub(e.0, o.0),
        c_sub(e.1, t1),
        c_sub(e.2, t2),
        c_sub(e.3, t3),
    )
}

/// The components of a 4-point transform are always well formed.
pub broadcast proof fn lemma_bf4_spec_wf(
    x0: Complex,
    x1: Complex,
    x2: Complex,
    x3: Complex,
    inverse: bool,
)
    ensures
        #![trigger bf4_spec(x0, x1, x2, x3, inverse)]
        c_wf(bf4_spec(x0, x1, x2, x3, inverse).0),
        c_wf(bf4_spec(x0, x1, x2, x3, inverse).1),
        c_wf(bf4_spec(x0, x1, x2, x3, inverse).2),
        c_wf(bf4_spec(x0, x1, x2, x3, inverse).3),
{
    reveal(bf4_spec);
}

/// The components of an 8-point transform are always well formed.
pub broadcast proof fn lemma_bf8t_spec_wf(
    x0: Complex,
    x1: Complex,
    x2: Complex,
    x3: Complex,
    x4: Complex,
    x5: Complex,
    x6: Complex,
    x7: Complex,
    inverse: bool,
)
    ensures
        #![trigger bf8t_spec(x0, x1, x2, x3, x4, x5, x6, x7, inverse)]
        c_wf(bf8t_spec(x0, x1, x2, x3, x4, x5, x6, x7, inverse).0),
        c_wf(bf8t_spec(x0, x1, x2, x3, x4, x5, x6, x7, inverse).1),
        c_wf(bf8t_spec(x0, x1, x2, x3, x4, x5, x6, x7, inverse).2),
        c_wf(bf8t_spec(x0, x1, x2, x3, x4, x5, x6, x7, inverse).3),
        c_wf(bf8t_spec(x0, x1, x2, x3, x4, x5, x6, x7, inverse).4),
        c_wf(bf8t_spec(x0, x1, x2, x3, x4, x5, x6, x7, inverse).5),
        c_wf(bf8t_spec(x0, x1, x2, x3, x4, x5, x6, x7, inverse).6),
        c_wf(bf8t_spec(x0, x1, x2, x3, x4, x5, x6, x7, inverse).7),
{
    reveal(bf8t_spec);
}

/// The well-formedness facts of the butterfly formulas.
pub broadcast group group_butterfly_wf {
    lemma_bf4_spec_wf,
    lemma_bf8t_spec_wf,
}

/// The 8-point transform of a sequence.
pub open spec fn bf8_spec(x: Seq<Complex>, inverse: bool) -> Seq<Complex>
    recommends
        x.len() == 8,
{
    let r = bf8t_spec(x[0], x[1], x[2], x[3], x[4], x[5], x[6], x[7], inverse);
    seq![r.0, r.1, r.2, r.3, r.4, r.5, r.6, r.7]
}

/// The size-2 scalar leaf transform.
pub struct Butterfly2 {
    pub inverse: bool,
}

impl Butterfly2 {
    /// A size-2 leaf; the direction only matters to callers that compose it.
    pub fn new(inverse: bool) -> (r: Butterfly2)
        ensures
            r.wf(),
            r.spec_len() == 2,
            r.spec_inverse() == inverse,
    {
        Butterfly2 { inverse }
    }
}

impl FftInline for Butterfly2 {
    open spec fn wf(&self) -> bool {
        true
    }

    open spec fn spec_len(&self) -> nat {
        2
    }

    open spec fn spec_inverse(&self) -> bool {
        self.inverse
    }

    open spec fn spec_scratch_len(&self) -> nat {
        0
    }

    open spec fn apply(&self, x: Seq<Complex>) -> Seq<Complex> {
        seq![bf2_spec(x[0], x[1]).0, bf2_spec(x[0], x[1]).1]
    }

    proof fn lemma_apply_shape(&self, x: Seq<Complex>) {
        reveal(bf2_spec);
    }

    fn len(&self) -> (r: usize) {
        2
    }

    fn is_inverse(&self) -> (r: bool) {
        self.inverse
    }

    fn get_required_scratch_len(&self) -> (r: usize) {
        0
    }

    fn process_inline(&self, buffer: &mut [Complex], scratch: &mut [Complex]) {
        let x0 = buffer[0];
        let x1 = buffer[1];
        buffer[0] = x0.add_c(x1);
        buffer[1] = x0.sub_c(x1);
        proof {
            reveal(bf2_spec);
            assert(buffer@ =~= self.apply(old(buffer)@));
        }
    }
}

/// The size-4 scalar leaf transform: the standard 4-point DFT with a
/// direction-dependent 90-degree rotation.
pub struct Butterfly4 {
    pub inverse: bool,
}

impl Butterfly4 {
    /// A size-4 leaf for the given direction.
    pub fn new(inverse: bool) -> (r: Butterfly4)
        ensures
            r.wf(),
            r.spec_len() == 4,
            r.spec_inverse() == inverse,
    {
        Butterfly4 { inverse }
    }
}

impl FftInline for Butterfly4 {
    open spec fn wf(&self) -> bool {
        true
    }

    open spec fn spec_len(&self) -> nat {
        4
    }

    open spec fn spec_inverse(&self) -> bool {
        self.inverse
    }

    open spec fn spec_scratch_len(&self) -> nat {
        0
    }

    open spec fn apply(&self, x: Seq<Complex>) -> Seq<Complex> {
        let r = bf4_spec(x[0], x[1], x[2], x[3], self.inverse);
        seq![r.0, r.1, r.2, r.3]
    }

    proof fn lemma_apply_shape(&self, x: Seq<Complex>) {
        reveal(bf4_spec);
    }

    fn len(&self) -> (r: usize) {
        4
    }

    fn is_inverse(&self) -> (r: bool) {
        self.inverse
    }

    fn get_required_scratch_len(&self) -> (r: usize) {
        0
    }

    fn process_inline(&self, buffer: &mut [Complex], scratch: &mut [Complex]) {
        let x0 = buffer[0];
        let x1 = buffer[1];
        let x2 = buffer[2];
        let x3 = buffer[3];
        let s0 = x0.add_c(x2);
        let d0 = x0.sub_c(x2);
        let s1 = x1.add_c(x3);
        let d1 = rotate_90(x1.sub_c(x3), self.inverse);
        buffer[0] = s0.add_c(s1);
        buffer[1] = d0.add_c(d1);
        buffer[2] = s0.sub_c(s1);
        buffer[3] = d0.sub_c(d1);
        proof {
            reveal(bf4_spec);
            assert(buffer@ =~= self.apply(old(buffer)@));
        }
    }
}

} // verus!
