//! The direct-summation reference transform.
//!
//! `Dft` computes `X_k = sum_n x_n * W_(k*n mod N)` by definition. It is the
//! specification every other algorithm is tested against, and the leaf
//! transform that seeds the split-radix recursion when reference correctness
//! matters more than speed.

use vstd::prelude::*;
use crate::complex::{Complex, c_add, c_mul, c_wf, c_zero, seq_wf};
use crate::traits::FftInline;
use crate::twiddles::{twiddle_spec, twiddle_table, twiddle_table_spec, GROUP_ORDER};

verus! {

broadcast use crate::complex::group_complex_wf, crate::twiddles::lemma_twiddle_wf;

/// The partial sum of the first `m` terms of the DFT of `x` at frequency `k`.
pub open spec fn dft_sum(x: Seq<Complex>, k: nat, inverse: bool, m: nat) -> Complex
    decreases m,
{
    if m == 0 {
        c_zero()
    } else {
        c_add(
            dft_sum(x, k, inverse, (m - 1) as nat),
            c_mul(x[m - 1], twiddle_spec((((k * (m - 1)) as int % (x.len() as int)) as nat), x.len(), inverse)),
        )
    }
}

/// The `k`-th output of the discrete Fourier transform of `x`.
pub open spec fn dft_point(x: Seq<Complex>, k: nat, inverse: bool) -> Complex {
    dft_sum(x, k, inverse, x.len())
}

/// The discrete Fourier transform of `x`: the defining sum, unnormalized,
/// with `W_t = exp(-2*pi*j*t/N)` for forward and its conjugate for inverse.
pub open spec fn dft_seq(x: Seq<Complex>, inverse: bool) -> Seq<Complex> {
    Seq::new(x.len(), |k: int| dft_point(x, k as nat, inverse))
}

/// A direct-summation transform handle.
pub struct Dft {
    pub twiddles: Vec<Complex>,
    pub len: usize,
    pub inverse: bool,
}

impl Dft {
    /// Precomputes the full twiddle table for a length-`len` direct DFT.
    pub fn new(len: usize, inverse: bool) -> (r: Dft)
        requires
            1 <= len,
            (GROUP_ORDER as int) % (len as int) == 0,
        ensures
            r.wf(),
            r.spec_len() == len,
            r.spec_inverse() == inverse,
    {
        let twiddles = twiddle_table(len, len, inverse);
        Dft { twiddles, len, inverse }
    }
}

impl FftInline for Dft {
    open spec fn wf(&self) -> bool {
        &&& 1 <= self.len
        &&& (GROUP_ORDER as int) % (self.len as int) == 0
        &&& self.twiddles@ == twiddle_table_spec(self.len as nat, self.len as nat, self.inverse)
    }

    open spec fn spec_len(&self) -> nat {
        self.len as nat
    }

    open spec fn spec_inverse(&self) -> bool {
        self.inverse
    }

    open spec fn spec_scratch_len(&self) -> nat {
        self.len as nat
    }

    open spec fn apply(&self, x: Seq<Complex>) -> Seq<Complex> {
        dft_seq(x, self.inverse)
    }

    proof fn lemma_apply_shape(&self, x: Seq<Complex>) {
    }

    fn len(&self) -> (r: usize) {
        self.len
    }

    fn is_inverse(&self) -> (r: bool) {
        self.inverse
    }

    fn get_required_scratch_len(&self) -> (r: usize) {
        self.len
    }

    fn process_inline(&self, buffer: &mut [Complex], scratch: &mut [Complex]) {
        let n = self.len;
        proof {
            if n > GROUP_ORDER {
                vstd::arithmetic::div_mod::lemma_small_mod(GROUP_ORDER as nat, n as nat);
            }
        }
        let ghost x = buffer@;
        let mut k: usize = 0;
        while k < n
            invariant
                self.wf(),
                n == self.len,
                buffer@ == x,
                x.len() == n,
                seq_wf(x),
                scratch@.len() == old(scratch)@.len(),
                n <= scratch@.len(),
                n <= GROUP_ORDER,
                k <= n,
                seq_wf(scratch@),
                forall|t: int| 0 <= t < k ==> scratch@[t] == dft_point(x, t as nat, self.inverse),
            decreases n - k,
        {
            let mut acc = Complex::zero();
            let mut j: usize = 0;
            while j < n
                invariant
                    self.wf(),
                    n == self.len,
                    buffer@ == x,
                    x.len() == n,
                    seq_wf(x),
                    k < n,
                    n <= GROUP_ORDER,
                    j <= n,
                    c_wf(acc),
                    acc == dft_sum(x, k as nat, self.inverse, j as nat),
                decreases n - j,
            {
                proof {
                    assert(k * j < 65536 * 65536) by (nonlinear_arith)
                        requires k < n && j < n && n <= 65536;
                }
                let t = (k * j) % n;
                proof {
                    assert(self.twiddles@[t as int] == twiddle_spec(t as nat, n as nat, self.inverse));
                }
                acc = acc.add_c(buffer[j].mul_c(self.twiddles[t]));
                j += 1;
            }
            scratch[k] = acc;
            k += 1;
        }
        let mut i: usize = 0;
        while i < n
            invariant
                n == self.len,
                buffer@.len() == n,
                scratch@.len() == old(scratch)@.len(),
                n <= scratch@.len(),
                i <= n,
                seq_wf(scratch@),
                seq_wf(buffer@),
                forall|t: int| 0 <= t < n ==> scratch@[t] == dft_point(x, t as nat, self.spec_inverse()),
                forall|t: int| 0 <= t < i ==> buffer@[t] == dft_point(x, t as nat, self.spec_inverse()),
            decreases n - i,
        {
            buffer[i] = scratch[i];
            i += 1;
        }
        proof {
            assert(buffer@ =~= self.apply(x));
        }
    }
}

} // verus!
