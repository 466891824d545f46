//! Complex samples over the scalar ring: pairs `(re, im)` of reduced
//! residues, the exact stand-in for an interleaved complex sample.

use vstd::prelude::*;
use crate::modp::{P, s_reduced, s_add, s_sub, s_mul, s_neg, madd, msub, mmul, mneg};

verus! {

/// One complex sample: a real and an imaginary component in the scalar ring.
#[derive(Clone, Copy, PartialEq, Eq, Structural, Debug)]
pub struct Complex {
    pub re: u64,
    pub im: u64,
}

/// A sample is well formed when both components are reduced.
pub open spec fn c_wf(a: Complex) -> bool {
    s_reduced(a.re) && s_reduced(a.im)
}

/// Every sample of a sequence is well formed.
pub open spec fn seq_wf(s: Seq<Complex>) -> bool {
    forall|i: int| 0 <= i < s.len() ==> c_wf(#[trigger] s[i])
}

/// Spec-level complex addition.
#[verifier::opaque]
pub open spec fn c_add(a: Complex, b: Complex) -> Complex {
    Complex { re: s_add(a.re, b.re), im: s_add(a.im, b.im) }
}

/// Spec-level complex subtraction.
#[verifier::opaque]
pub open spec fn c_sub(a: Complex, b: Complex) -> Complex {
    Complex { re: s_sub(a.re, b.re), im: s_sub(a.im, b.im) }
}

/// Spec-level complex negation.
#[verifier::opaque]
pub open spec fn c_neg(a: Complex) -> Complex {
    Complex { re: s_neg(a.re), im: s_neg(a.im) }
}

/// Spec-level complex multiplication: `(ac - bd, ad + bc)`.
#[verifier::opaque]
pub open spec fn c_mul(a: Complex, b: Complex) -> Complex {
    Complex {
        re: s_sub(s_mul(a.re, b.re), s_mul(a.im, b.im)),
        im: s_add(s_mul(a.re, b.im), s_mul(a.im, b.re)),
    }
}

/// Spec-level complex conjugate.
#[verifier::opaque]
pub open spec fn c_conj(a: Complex) -> Complex {
    Complex { re: a.re, im: s_neg(a.im) }
}

/// Spec-level 90-degree rotation: multiplication by `-j` for the forward
/// direction and by `j` for the inverse direction.
#[verifier::opaque]
pub open spec fn c_rot90(a: Complex, inverse: bool) -> Complex {
    if inverse {
        Complex { re: s_neg(a.im), im: a.re }
    } else {
        Complex { re: a.im, im: s_neg(a.re) }
    }
}

/// The additive identity.
pub open spec fn c_zero() -> Complex {
    Complex { re: 0, im: 0 }
}

/// The multiplicative identity.
pub open spec fn c_one() -> Complex {
    Complex { re: 1, im: 0 }
}

impl Complex {
    /// The additive identity, as a value.
    pub fn zero() -> (r: Complex)
        ensures
            r == c_zero(),
            c_wf(r),
    {
        Complex { re: 0, im: 0 }
    }

    /// Complex addition.
    pub fn add_c(self, o: Complex) -> (r: Complex)
        requires
            c_wf(self),
            c_wf(o),
        ensures
            r == c_add(self, o),
            c_wf(r),
    {
        proof {
            reveal(c_add);
        }
        Complex { re: madd(self.re, o.re), im: madd(self.im, o.im) }
    }

    /// Complex subtraction.
    pub fn sub_c(self, o: Complex) -> (r: Complex)
        requires
            c_wf(self),
            c_wf(o),
        ensures
            r == c_sub(self, o),
            c_wf(r),
    {
        proof {
            reveal(c_sub);
        }
        Complex { re: msub(self.re, o.re), im: msub(self.im, o.im) }
    }

    /// Complex negation.
    pub fn neg_c(self) -> (r: Complex)
        requires
            c_wf(self),
        ensures
            r == c_neg(self),
            c_wf(r),
    {
        proof {
            reveal(c_neg);
        }
        Complex { re: mneg(self.re), im: mneg(self.im) }
    }

    /// Complex multiplication.
    pub fn mul_c(self, o: Complex) -> (r: Complex)
        requires
            c_wf(self),
            c_wf(o),
        ensures
            r == c_mul(self, o),
            c_wf(r),
    {
        proof {
            reveal(c_mul);
        }
        Complex {
            re: msub(mmul(self.re, o.re), mmul(self.im, o.im)),
            im: madd(mmul(self.re, o.im), mmul(self.im, o.re)),
        }
    }

    /// Complex conjugate.
    pub fn conj(self) -> (r: Complex)
        requires
            c_wf(self),
        ensures
            r == c_conj(self),
            c_wf(r),
    {
        proof {
            reveal(c_conj);
        }
        Complex { re: self.re, im: mneg(self.im) }
    }
}

/// Addition always yields a well-formed sample.
pub broadcast proof fn lemma_c_add_wf(a: Complex, b: Complex)
    ensures
        c_wf(#[trigger] c_add(a, b)),
{
    reveal(c_add);
}

/// Subtraction always yields a well-formed sample.
pub broadcast proof fn lemma_c_sub_wf(a: Complex, b: Complex)
    ensures
        c_wf(#[trigger] c_sub(a, b)),
{
    reveal(c_sub);
}

/// Negation always yields a well-formed sample.
pub broadcast proof fn lemma_c_neg_wf(a: Complex)
    ensures
        c_wf(#[trigger] c_neg(a)),
{
    reveal(c_neg);
}

/// Multiplication always yields a well-formed sample.
pub broadcast proof fn lemma_c_mul_wf(a: Complex, b: Complex)
    ensures
        c_wf(#[trigger] c_mul(a, b)),
{
    reveal(c_mul);
}

/// Conjugation keeps a well-formed sample well formed.
pub broadcast proof fn lemma_c_conj_wf(a: Complex)
    ensures
        c_wf(a) ==> c_wf(#[trigger] c_conj(a)),
{
    reveal(c_conj);
}

/// Rotation keeps a well-formed sample well formed.
pub broadcast proof fn lemma_c_rot90_wf(a: Complex, inverse: bool)
    ensures
        c_wf(a) ==> c_wf(#[trigger] c_rot90(a, inverse)),
{
    reveal(c_rot90);
}

/// Adding a negation is subtraction.
pub proof fn lemma_c_add_neg(a: Complex, b: Complex)
    requires
        c_wf(a),
        c_wf(b),
    ensures
        c_add(a, c_neg(b)) == c_sub(a, b),
{
    reveal(c_add);
    reveal(c_sub);
    reveal(c_neg);
    crate::modp::lemma_s_add_neg(a.re, b.re);
    crate::modp::lemma_s_add_neg(a.im, b.im);
}

/// Subtracting a negation is addition.
pub proof fn lemma_c_sub_neg(a: Complex, b: Complex)
    requires
        c_wf(a),
        c_wf(b),
    ensures
        c_sub(a, c_neg(b)) == c_add(a, b),
{
    reveal(c_add);
    reveal(c_sub);
    reveal(c_neg);
    crate::modp::lemma_s_sub_neg(a.re, b.re);
    crate::modp::lemma_s_sub_neg(a.im, b.im);
}

/// Negation distributes out of a product on the left.
pub proof fn lemma_c_mul_neg_left(a: Complex, b: Complex)
    requires
        c_wf(a),
        c_wf(b),
    ensures
        c_mul(c_neg(a), b) == c_neg(c_mul(a, b)),
{
    reveal(c_mul);
    reveal(c_neg);
    crate::modp::lemma_s_mul_neg_left(a.re, b.re);
    crate::modp::lemma_s_mul_neg_left(a.im, b.im);
    crate::modp::lemma_s_mul_neg_left(a.re, b.im);
    crate::modp::lemma_s_mul_neg_left(a.im, b.re);
    crate::modp::lemma_s_neg_sub(s_mul(a.re, b.re), s_mul(a.im, b.im));
    crate::modp::lemma_s_neg_add(s_mul(a.re, b.im), s_mul(a.im, b.re));
}

/// Zero is the additive identity.
pub proof fn lemma_c_add_zero_left(a: Complex)
    requires
        c_wf(a),
    ensures
        c_add(c_zero(), a) == a,
{
    reveal(c_add);
    crate::modp::lemma_s_mul_one(a.re);
    crate::modp::lemma_s_mul_one(a.im);
}

/// One is the multiplicative identity.
pub proof fn lemma_c_mul_one_right(a: Complex)
    requires
        c_wf(a),
    ensures
        c_mul(a, c_one()) == a,
{
    reveal(c_mul);
    crate::modp::lemma_s_mul_one(a.re);
    crate::modp::lemma_s_mul_one(a.im);
}

/// Complex addition is commutative.
pub proof fn lemma_c_add_comm(a: Complex, b: Complex)
    ensures
        c_add(a, b) == c_add(b, a),
{
    reveal(c_add);
}

/// Complex addition is associative.
pub proof fn lemma_c_add_assoc(a: Complex, b: Complex, c: Complex)
    requires
        c_wf(a),
        c_wf(b),
        c_wf(c),
    ensures
        c_add(c_add(a, b), c) == c_add(a, c_add(b, c)),
{
    reveal(c_add);
    crate::modp::lemma_s_add_assoc(a.re, b.re, c.re);
    crate::modp::lemma_s_add_assoc(a.im, b.im, c.im);
}

/// Negation distributes out of a product on the right.
pub proof fn lemma_c_mul_neg_right(a: Complex, b: Complex)
    requires
        c_wf(a),
        c_wf(b),
    ensures
        c_mul(a, c_neg(b)) == c_neg(c_mul(a, b)),
{
    reveal(c_mul);
    reveal(c_neg);
    crate::modp::lemma_s_mul_neg_right(a.re, b.re);
    crate::modp::lemma_s_mul_neg_right(a.im, b.im);
    crate::modp::lemma_s_mul_neg_right(a.re, b.im);
    crate::modp::lemma_s_mul_neg_right(a.im, b.re);
    crate::modp::lemma_s_neg_sub(s_mul(a.re, b.re), s_mul(a.im, b.im));
    crate::modp::lemma_s_neg_add(s_mul(a.re, b.im), s_mul(a.im, b.re));
}

/// Negation distributes over addition.
pub proof fn lemma_c_neg_add(a: Complex, b: Complex)
    requires
        c_wf(a),
        c_wf(b),
    ensures
        c_add(c_neg(a), c_neg(b)) == c_neg(c_add(a, b)),
{
    reveal(c_add);
    reveal(c_neg);
    crate::modp::lemma_s_neg_add(a.re, b.re);
    crate::modp::lemma_s_neg_add(a.im, b.im);
}

/// Swapping the operands of a subtraction negates it.
pub proof fn lemma_c_sub_swap(a: Complex, b: Complex)
    requires
        c_wf(a),
        c_wf(b),
    ensures
        c_sub(b, a) == c_neg(c_sub(a, b)),
{
    reveal(c_sub);
    reveal(c_neg);
    crate::modp::lemma_s_sub_swap(a.re, b.re);
    crate::modp::lemma_s_sub_swap(a.im, b.im);
}

/// Rotation distributes over subtraction.
pub proof fn lemma_c_rot90_sub(a: Complex, b: Complex, inverse: bool)
    requires
        c_wf(a),
        c_wf(b),
    ensures
        c_rot90(c_sub(a, b), inverse) == c_sub(c_rot90(a, inverse), c_rot90(b, inverse)),
{
    reveal(c_sub);
    reveal(c_rot90);
    crate::modp::lemma_s_neg_sub(a.re, b.re);
    crate::modp::lemma_s_neg_sub(a.im, b.im);
}

/// Multiplying by a rotated one rotates.
pub proof fn lemma_c_mul_rot_one(a: Complex, inverse: bool)
    requires
        c_wf(a),
    ensures
        c_mul(a, c_rot90(c_one(), inverse)) == c_rot90(a, inverse),
{
    reveal(c_mul);
    reveal(c_rot90);
    crate::modp::lemma_s_mul_one(a.re);
    crate::modp::lemma_s_mul_one(a.im);
    if inverse {
        assert(c_rot90(c_one(), true) == (Complex { re: 0, im: 1 }));
        assert(s_sub(s_mul(a.re, 0), s_mul(a.im, 1)) == s_neg(a.im));
        assert(s_add(s_mul(a.re, 1), s_mul(a.im, 0)) == a.re);
    } else {
        assert(s_neg(0) == 0) by {
            vstd::arithmetic::div_mod::lemma_small_mod(0, P as nat);
        }
        assert(c_rot90(c_one(), false) == (Complex { re: 0, im: 65536 }));
        assert(s_sub(s_mul(a.re, 0), s_mul(a.im, 65536)) == a.im) by {
            crate::modp::lemma_s_mul_neg_one(a.im);
            crate::modp::lemma_s_sub_neg(0, a.im);
        }
        assert(s_add(s_mul(a.re, 65536), s_mul(a.im, 0)) == s_neg(a.re)) by {
            crate::modp::lemma_s_mul_neg_one(a.re);
            crate::modp::lemma_s_mul_one(crate::modp::s_neg(a.re));
        }
    }
}

/// The well-formedness facts of the complex operations.
pub broadcast group group_complex_wf {
    lemma_c_add_wf,
    lemma_c_sub_wf,
    lemma_c_neg_wf,
    lemma_c_mul_wf,
    lemma_c_conj_wf,
    lemma_c_rot90_wf,
}

} // verus!
