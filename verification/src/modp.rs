//! The scalar ring of the engine: integers modulo the Fermat prime 65537.
//!
//! Every sample component, twiddle component and register lane is a reduced
//! residue, a `u64` strictly below [`P`]. The exec operations return reduced
//! results and are specified against the spec-level operations `s_add`,
//! `s_sub`, `s_mul` and `s_neg`.

use vstd::prelude::*;

verus! {

/// The scalar modulus: the Fermat prime 2^16 + 1.
pub const P: u64 = 65537;

/// A scalar is reduced when it lies in `[0, P)`.
pub open spec fn s_reduced(a: u64) -> bool {
    a < P
}

/// Spec-level addition in the ring.
pub open spec fn s_add(a: u64, b: u64) -> u64 {
    (((a + b) % (P as int))) as u64
}

/// Spec-level subtraction in the ring.
pub open spec fn s_sub(a: u64, b: u64) -> u64 {
    (((a - b) % (P as int))) as u64
}

/// Spec-level negation in the ring.
pub open spec fn s_neg(a: u64) -> u64 {
    (((0 - a) % (P as int))) as u64
}

/// Spec-level multiplication in the ring.
pub open spec fn s_mul(a: u64, b: u64) -> u64 {
    (((a * b) % (P as int))) as u64
}

/// Adding a negation is subtraction.
pub proof fn lemma_s_add_neg(a: u64, b: u64)
    requires
        s_reduced(a),
        s_reduced(b),
    ensures
        s_add(a, s_neg(b)) == s_sub(a, b),
{
    vstd::arithmetic::div_mod::lemma_small_mod(a as nat, P as nat);
    vstd::arithmetic::div_mod::lemma_add_mod_noop(a as int, 0 - b, P as int);
}

/// Subtracting a negation is addition.
pub proof fn lemma_s_sub_neg(a: u64, b: u64)
    requires
        s_reduced(a),
        s_reduced(b),
    ensures
        s_sub(a, s_neg(b)) == s_add(a, b),
{
    vstd::arithmetic::div_mod::lemma_small_mod(a as nat, P as nat);
    vstd::arithmetic::div_mod::lemma_sub_mod_noop(a as int, 0 - b, P as int);
}

/// Negation distributes out of a product on the left.
pub proof fn lemma_s_mul_neg_left(a: u64, b: u64)
    requires
        s_reduced(a),
        s_reduced(b),
    ensures
        s_mul(s_neg(a), b) == s_neg(s_mul(a, b)),
{
    vstd::arithmetic::div_mod::lemma_mul_mod_noop_left(0 - a, b as int, P as int);
    assert((0 - a) * b == 0 - a * b) by (nonlinear_arith);
    vstd::arithmetic::div_mod::lemma_sub_mod_noop(0, (a * b) as int, P as int);
    vstd::arithmetic::div_mod::lemma_small_mod(0, P as nat);
}

/// Negating both operands of a subtraction negates the result.
pub proof fn lemma_s_neg_sub(a: u64, b: u64)
    requires
        s_reduced(a),
        s_reduced(b),
    ensures
        s_sub(s_neg(a), s_neg(b)) == s_neg(s_sub(a, b)),
{
    vstd::arithmetic::div_mod::lemma_sub_mod_noop(0 - a, 0 - b, P as int);
    vstd::arithmetic::div_mod::lemma_sub_mod_noop(0, (a - b) as int, P as int);
    vstd::arithmetic::div_mod::lemma_small_mod(0, P as nat);
}

/// Negating both operands of an addition negates the result.
pub proof fn lemma_s_neg_add(a: u64, b: u64)
    requires
        s_reduced(a),
        s_reduced(b),
    ensures
        s_add(s_neg(a), s_neg(b)) == s_neg(s_add(a, b)),
{
    vstd::arithmetic::div_mod::lemma_add_mod_noop(0 - a, 0 - b, P as int);
    vstd::arithmetic::div_mod::lemma_sub_mod_noop(0, (a + b) as int, P as int);
    vstd::arithmetic::div_mod::lemma_small_mod(0, P as nat);
}

/// Negation distributes out of a product on the right.
pub proof fn lemma_s_mul_neg_right(a: u64, b: u64)
    requires
        s_reduced(a),
        s_reduced(b),
    ensures
        s_mul(a, s_neg(b)) == s_neg(s_mul(a, b)),
{
    vstd::arithmetic::div_mod::lemma_mul_mod_noop_right(a as int, 0 - b, P as int);
    assert(a * (0 - b) == 0 - a * b) by (nonlinear_arith);
    vstd::arithmetic::div_mod::lemma_sub_mod_noop(0, (a * b) as int, P as int);
    vstd::arithmetic::div_mod::lemma_small_mod(0, P as nat);
}

/// One is the multiplicative identity.
pub proof fn lemma_s_mul_one(a: u64)
    requires
        s_reduced(a),
    ensures
        s_mul(a, 1) == a,
        s_mul(1, a) == a,
        s_mul(a, 0) == 0,
        s_mul(0, a) == 0,
        s_add(0, a) == a,
        s_add(a, 0) == a,
{
    vstd::arithmetic::div_mod::lemma_small_mod(a as nat, P as nat);
    vstd::arithmetic::div_mod::lemma_small_mod(0, P as nat);
}

/// Multiplying by the residue of minus one negates.
pub proof fn lemma_s_mul_neg_one(a: u64)
    requires
        s_reduced(a),
    ensures
        s_mul(a, 65536) == s_neg(a),
{
    assert(a * 65536 == (P as int) * (a as int) + (0 - a));
    vstd::arithmetic::div_mod::lemma_mod_multiples_vanish(a as int, 0 - a, P as int);
}

/// Addition is associative.
pub proof fn lemma_s_add_assoc(a: u64, b: u64, c: u64)
    requires
        s_reduced(a),
        s_reduced(b),
        s_reduced(c),
    ensures
        s_add(s_add(a, b), c) == s_add(a, s_add(b, c)),
{
    vstd::arithmetic::div_mod::lemma_add_mod_noop((a + b) as int, c as int, P as int);
    vstd::arithmetic::div_mod::lemma_add_mod_noop(a as int, (b + c) as int, P as int);
    vstd::arithmetic::div_mod::lemma_small_mod(a as nat, P as nat);
    vstd::arithmetic::div_mod::lemma_small_mod(c as nat, P as nat);
}

/// Swapping the operands of a subtraction negates it.
pub proof fn lemma_s_sub_swap(a: u64, b: u64)
    requires
        s_reduced(a),
        s_reduced(b),
    ensures
        s_sub(b, a) == s_neg(s_sub(a, b)),
{
    vstd::arithmetic::div_mod::lemma_sub_mod_noop(0, (a - b) as int, P as int);
    vstd::arithmetic::div_mod::lemma_small_mod(0, P as nat);
}

/// Reduced addition.
pub fn madd(a: u64, b: u64) -> (r: u64)
    requires
        s_reduced(a),
        s_reduced(b),
    ensures
        r == s_add(a, b),
        s_reduced(r),
{
    (a + b) % P
}

/// Reduced subtraction.
pub fn msub(a: u64, b: u64) -> (r: u64)
    requires
        s_reduced(a),
        s_reduced(b),
    ensures
        r == s_sub(a, b),
        s_reduced(r),
{
    proof {
        vstd::arithmetic::div_mod::lemma_mod_sub_multiples_vanish(a - b, P as int);
    }
    (a + (P - b)) % P
}

/// Reduced negation.
pub fn mneg(a: u64) -> (r: u64)
    requires
        s_reduced(a),
    ensures
        r == s_neg(a),
        s_reduced(r),
{
    proof {
        vstd::arithmetic::div_mod::lemma_mod_sub_multiples_vanish(0 - a, P as int);
    }
    (P - a) % P
}

/// Reduced multiplication.
pub fn mmul(a: u64, b: u64) -> (r: u64)
    requires
        s_reduced(a),
        s_reduced(b),
    ensures
        r == s_mul(a, b),
        s_reduced(r),
{
    proof {
        assert(a * b <= 65536 * 65536) by (nonlinear_arith)
            requires a <= 65536 && b <= 65536;
    }
    (a * b) % P
}

} // verus!
