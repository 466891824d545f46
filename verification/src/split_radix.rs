//! The split-radix decomposition: a size-`N` transform reduced to one
//! size-`N/2` transform on the even-indexed samples and two size-`N/4`
//! transforms on the odd residue classes, recombined with twiddle rotations.

use vstd::prelude::*;
use crate::complex::{Complex, c_add, c_sub, c_mul, c_conj, c_rot90, c_wf, seq_wf};
use crate::traits::FftInline;
use crate::twiddles::{rotate_90, twiddle_spec, twiddle_table, twiddle_table_spec, GROUP_ORDER};

verus! {

broadcast use crate::complex::group_complex_wf, crate::twiddles::lemma_twiddle_wf;

/// The even-indexed samples of `x`.
pub open spec fn evens_spec(x: Seq<Complex>) -> Seq<Complex> {
    Seq::new(x.len() / 2, |i: int| x[2 * i])
}

/// The samples of `x` at indices `4i + 1`.
pub open spec fn quarter1_spec(x: Seq<Complex>) -> Seq<Complex> {
    Seq::new(x.len() / 4, |i: int| x[4 * i + 1])
}

/// The samples of `x` at indices congruent to 3 mod 4, rotated so that the
/// sample at index `N - 1` comes first.
pub open spec fn quarter3_spec(x: Seq<Complex>) -> Seq<Complex> {
    Seq::new(x.len() / 4, |i: int| if i == 0 { x[x.len() - 1] } else { x[4 * i - 1] })
}

/// The twiddled quarter sum `W_k * O1_k + conj(W_k) * O3_k`.
pub open spec fn sr_sum(o1: Seq<Complex>, o3: Seq<Complex>, tw: Seq<Complex>, k: int) -> Complex {
    c_add(c_mul(tw[k], o1[k]), c_mul(c_conj(tw[k]), o3[k]))
}

/// The rotated twiddled quarter difference
/// `rot90(W_k * O1_k - conj(W_k) * O3_k)`.
pub open spec fn sr_diff(
    o1: Seq<Complex>,
    o3: Seq<Complex>,
    tw: Seq<Complex>,
    k: int,
    inverse: bool,
) -> Complex {
    c_rot90(c_sub(c_mul(tw[k], o1[k]), c_mul(c_conj(tw[k]), o3[k])), inverse)
}

/// The split-radix recombination. With `m` the quarter length, `e` the
/// transformed evens (length `2m`), `o1` and `o3` the transformed odd
/// streams (length `m` each) and `tw` the size-`4m` twiddles:
/// `out[k] = e[k] + sum_k`, `out[k + 2m] = e[k] - sum_k`,
/// `out[k + m] = e[k + m] + diff_k` and `out[k + 3m] = e[k + m] - diff_k`.
#[verifier::opaque]
pub open spec fn split_radix_combine(
    e: Seq<Complex>,
    o1: Seq<Complex>,
    o3: Seq<Complex>,
    tw: Seq<Complex>,
    inverse: bool,
) -> Seq<Complex> {
    let m = o1.len() as int;
    Seq::new(
        (4 * m) as nat,
        |idx: int|
            if idx < m {
                c_add(e[idx], sr_sum(o1, o3, tw, idx))
            } else if idx < 2 * m {
                c_add(e[idx], sr_diff(o1, o3, tw, idx - m, inverse))
            } else if idx < 3 * m {
                c_sub(e[idx - 2 * m], sr_sum(o1, o3, tw, idx - 2 * m))
            } else {
                c_sub(e[idx - 2 * m], sr_diff(o1, o3, tw, idx - 3 * m, inverse))
            },
    )
}

/// The scalar split-radix transform over a size-`N/2` inner transform `H`
/// and a size-`N/4` inner transform `Q`.
pub struct SplitRadix<H: FftInline, Q: FftInline> {
    pub twiddles: Vec<Complex>,
    pub fft_half: H,
    pub fft_quarter: Q,
    pub len: usize,
    pub inverse: bool,
}

impl<H: FftInline, Q: FftInline> SplitRadix<H, Q> {
    /// Builds a size-`4m` handle from consistent inner handles: `fft_half`
    /// of length `2m` and `fft_quarter` of length `m`, both of the same
    /// direction, with `m >= 2` and `4m` a power of two at most 2^16.
    pub fn new(fft_half: H, fft_quarter: Q) -> (r: SplitRadix<H, Q>)
        requires
            fft_half.wf(),
            fft_quarter.wf(),
            fft_half.spec_inverse() == fft_quarter.spec_inverse(),
            fft_half.spec_len() == 2 * fft_quarter.spec_len(),
            fft_quarter.spec_len() >= 2,
            (GROUP_ORDER as int) % (4 * fft_quarter.spec_len() as int) == 0,
            fft_half.spec_scratch_len() <= 2 * fft_quarter.spec_len(),
            fft_quarter.spec_scratch_len() <= 2 * fft_quarter.spec_len(),
        ensures
            r.wf(),
            r.spec_len() == 4 * fft_quarter.spec_len(),
            r.spec_inverse() == fft_quarter.spec_inverse(),
            r.fft_half == fft_half,
            r.fft_quarter == fft_quarter,
    {
        proof {
            if 4 * fft_quarter.spec_len() > GROUP_ORDER as nat {
                vstd::arithmetic::div_mod::lemma_small_mod(
                    GROUP_ORDER as nat,
                    4 * fft_quarter.spec_len(),
                );
            }
        }
        let inverse = fft_quarter.is_inverse();
        let quarter_len = fft_quarter.len();
        let len = quarter_len * 4;
        let twiddles = twiddle_table(quarter_len, len, inverse);
        SplitRadix { twiddles, fft_half, fft_quarter, len, inverse }
    }
}

impl<H: FftInline, Q: FftInline> FftInline for SplitRadix<H, Q> {
    open spec fn wf(&self) -> bool {
        &&& self.fft_half.wf()
        &&& self.fft_quarter.wf()
        &&& self.fft_half.spec_inverse() == self.inverse
        &&& self.fft_quarter.spec_inverse() == self.inverse
        &&& self.fft_half.spec_len() == 2 * self.fft_quarter.spec_len()
        &&& self.len == 4 * self.fft_quarter.spec_len()
        &&& self.fft_quarter.spec_len() >= 2
        &&& (GROUP_ORDER as int) % (self.len as int) == 0
        &&& self.fft_half.spec_scratch_len() <= 2 * self.fft_quarter.spec_len()
        &&& self.fft_quarter.spec_scratch_len() <= 2 * self.fft_quarter.spec_len()
        &&& self.twiddles@ == twiddle_table_spec(
            self.fft_quarter.spec_len(),
            self.len as nat,
            self.inverse,
        )
    }

    open spec fn spec_len(&self) -> nat {
        self.len as nat
    }

    open spec fn spec_inverse(&self) -> bool {
        self.inverse
    }

    open spec fn spec_scratch_len(&self) -> nat {
        (self.len / 2) as nat
    }

    open spec fn apply(&self, x: Seq<Complex>) -> Seq<Complex> {
        split_radix_combine(
            self.fft_half.apply(evens_spec(x)),
            self.fft_quarter.apply(quarter1_spec(x)),
            self.fft_quarter.apply(quarter3_spec(x)),
            self.twiddles@,
            self.inverse,
        )
    }

    proof fn lemma_apply_shape(&self, x: Seq<Complex>) {
        reveal(split_radix_combine);
        lemma_streams_wf(x);
        self.fft_half.lemma_apply_shape(evens_spec(x));
        self.fft_quarter.lemma_apply_shape(quarter1_spec(x));
        self.fft_quarter.lemma_apply_shape(quarter3_spec(x));
    }

    fn len(&self) -> (r: usize) {
        self.len
    }

    fn is_inverse(&self) -> (r: bool) {
        self.inverse
    }

    fn get_required_scratch_len(&self) -> (r: usize) {
        self.len / 2
    }

    #[verifier::rlimit(100)]
    #[verifier::spinoff_prover]
    fn process_inline(&self, buffer: &mut [Complex], scratch: &mut [Complex]) {
        let ghost x = buffer@;
        let len = self.len;
        let half_len = len / 2;
        let quarter_len = len / 4;

        // Cap the scratch at the advertised requirement, then split it into
        // a section for the quarter-1 stream and one for the quarter-3
        // stream.
        let (used_scratch, _spare_scratch) = scratch.split_at_mut(half_len);
        let (scratch_quarter1, scratch_quarter3) = used_scratch.split_at_mut(quarter_len);
        let ghost sq1_in = scratch_quarter1@;
        let ghost sq3_in = scratch_quarter3@;
        proof {
            lemma_streams_wf(x);
            assert forall|i: int| 0 <= i < sq1_in.len() implies c_wf(#[trigger] sq1_in[i]) by {
                assert(sq1_in[i] == old(scratch)@[i]);
            }
            assert forall|i: int| 0 <= i < sq3_in.len() implies c_wf(#[trigger] sq3_in[i]) by {
                assert(sq3_in[i] == old(scratch)@[i + quarter_len]);
            }
        }

        // Decimation: consolidate the evens into the first half of the
        // buffer and divide the odd residue classes into the scratch halves,
        // the quarter-3 stream rotated so index `N - 1` comes first.
        scratch_quarter1[0] = buffer[1];
        buffer[1] = buffer[2];
        let mut i: usize = 1;
        while i < quarter_len
            invariant
                self.wf(),
                len == self.len,
                half_len == len / 2,
                quarter_len == len / 4,
                len == 4 * quarter_len,
                x.len() == len,
                seq_wf(x),
                1 <= i <= quarter_len,
                buffer@.len() == len,
                seq_wf(buffer@),
                scratch_quarter1@.len() == quarter_len,
                scratch_quarter3@.len() == quarter_len,
                seq_wf(scratch_quarter1@),
                seq_wf(scratch_quarter3@),
                forall|j: int| 0 <= j < 2 * i ==> buffer@[j] == x[if j == 0 { 0int } else if j == 1 { 2int } else { 2 * j }],
                forall|j: int| 2 * i <= j < len ==> buffer@[j] == x[j],
                forall|j: int| 0 <= j < i ==> scratch_quarter1@[j] == x[4 * j + 1],
                forall|j: int| 1 <= j < i ==> scratch_quarter3@[j] == x[4 * j - 1],
            decreases quarter_len - i,
        {
            scratch_quarter3[i] = buffer[i * 4 - 1];
            buffer[i * 2] = buffer[i * 4];
            scratch_quarter1[i] = buffer[i * 4 + 1];
            buffer[i * 2 + 1] = buffer[i * 4 + 2];
            i += 1;
        }
        scratch_quarter3[0] = buffer[len - 1];

        proof {
            assert(buffer@.subrange(0, half_len as int) =~= evens_spec(x));
            assert(scratch_quarter1@ =~= quarter1_spec(x));
            assert(scratch_quarter3@ =~= quarter3_spec(x));
        }
        let ghost o1_in = scratch_quarter1@;
        let ghost o3_in = scratch_quarter3@;

        // The first half of the buffer now holds the even stream; the second
        // half doubles as scratch for the inner transforms.
        let (inner_buffer, inner_scratch) = buffer.split_at_mut(half_len);
        proof {
            assert(inner_buffer@ =~= evens_spec(x));
            assert forall|j: int| 0 <= j < inner_scratch@.len() implies c_wf(
                #[trigger] inner_scratch@[j],
            ) by {
            }
        }

        // Execute the inner transforms.
        self.fft_half.process_inline(inner_buffer, inner_scratch);
        self.fft_quarter.process_inline(scratch_quarter1, inner_scratch);
        self.fft_quarter.process_inline(scratch_quarter3, inner_scratch);

        proof {
            self.fft_half.lemma_apply_shape(evens_spec(x));
            self.fft_quarter.lemma_apply_shape(quarter1_spec(x));
            self.fft_quarter.lemma_apply_shape(quarter3_spec(x));
        }
        let ghost e = self.fft_half.apply(evens_spec(x));
        let ghost o1 = self.fft_quarter.apply(quarter1_spec(x));
        let ghost o3 = self.fft_quarter.apply(quarter3_spec(x));
        let ghost tw = self.twiddles@;
        let ghost out = split_radix_combine(e, o1, o3, tw, self.inverse);

        // Recombine the three inner results into a single buffer.
        let mut k: usize = 0;
        while k < quarter_len
            invariant
                self.wf(),
                len == self.len,
                half_len == len / 2,
                quarter_len == len / 4,
                len == 4 * quarter_len,
                0 <= k <= quarter_len,
                buffer@.len() == len,
                seq_wf(buffer@),
                scratch_quarter1@ == o1,
                scratch_quarter3@ == o3,
                o1.len() == quarter_len,
                o3.len() == quarter_len,
                e.len() == half_len,
                seq_wf(o1),
                seq_wf(o3),
                tw == self.twiddles@,
                out == split_radix_combine(e, o1, o3, tw, self.inverse),
                forall|j: int| k <= j < quarter_len ==> buffer@[j] == e[j],
                forall|j: int| k <= j < quarter_len ==> #[trigger] buffer@[quarter_len + j] == e[
                    quarter_len + j
                ],
                forall|j: int| 0 <= j < k ==> buffer@[j] == out[j],
                forall|j: int| 0 <= j < k ==> #[trigger] buffer@[quarter_len + j] == out[quarter_len + j],
                forall|j: int| 0 <= j < k ==> #[trigger] buffer@[half_len + j] == out[half_len + j],
                forall|j: int| 0 <= j < k ==> #[trigger] buffer@[half_len + quarter_len + j] == out[half_len + quarter_len + j],
            decreases quarter_len - k,
        {
            let twiddle = self.twiddles[k];
            let half0_result = buffer[k];
            let half1_result = buffer[k + quarter_len];

            let twiddled_quarter1 = twiddle.mul_c(scratch_quarter1[k]);
            let twiddled_quarter3 = twiddle.conj().mul_c(scratch_quarter3[k]);

            let quarter_sum = twiddled_quarter1.add_c(twiddled_quarter3);
            let quarter_diff = twiddled_quarter1.sub_c(twiddled_quarter3);
            let rotated_quarter_diff = rotate_90(quarter_diff, self.inverse);

            buffer[k] = half0_result.add_c(quarter_sum);
            buffer[k + half_len] = half0_result.sub_c(quarter_sum);

            buffer[k + quarter_len] = half1_result.add_c(rotated_quarter_diff);
            buffer[k + quarter_len * 3] = half1_result.sub_c(rotated_quarter_diff);
            proof {
                reveal(split_radix_combine);
                assert(out[k as int] == c_add(e[k as int], sr_sum(o1, o3, tw, k as int)));
                assert(out[quarter_len + k] == c_add(
                    e[quarter_len + k],
                    sr_diff(o1, o3, tw, k as int, self.inverse),
                ));
                assert(out[half_len + k] == c_sub(e[k as int], sr_sum(o1, o3, tw, k as int)));
                assert(out[half_len + quarter_len + k] == c_sub(
                    e[quarter_len + k],
                    sr_diff(o1, o3, tw, k as int, self.inverse),
                ));
            }
            k += 1;
        }
        proof {
            reveal(split_radix_combine);
            assert forall|idx: int| 0 <= idx < len implies buffer@[idx] == out[idx] by {
                let m = quarter_len as int;
                if idx < m {
                } else if idx < 2 * m {
                    assert(buffer@[m + (idx - m)] == out[m + (idx - m)]);
                } else if idx < 3 * m {
                    assert(buffer@[half_len + (idx - 2 * m)] == out[half_len + (idx - 2 * m)]);
                } else {
                    assert(buffer@[half_len + m + (idx - 3 * m)] == out[half_len + m + (idx - 3
                        * m)]);
                }
            }
            assert(buffer@ =~= self.apply(x));
        }
    }
}

/// The vectorized split-radix transform: the same mathematics as
/// [`SplitRadix`], with decimation and recombination processing four complex
/// samples per step, for lengths divisible by sixteen. The quarter-3
/// rotation (index `N - 1` to position zero) is done by writing each
/// four-sample group at offset one and patching position zero after the
/// loop, which needs one extra scratch slot.
pub struct SplitRadixAvx<H: FftInline, Q: FftInline> {
    pub twiddles: Vec<crate::lanes::Reg>,
    pub fft_half: H,
    pub fft_quarter: Q,
    pub len: usize,
    pub inverse: bool,
}

impl<H: FftInline, Q: FftInline> SplitRadixAvx<H, Q> {
    /// Builds a handle when the required vector capabilities are present,
    /// and reports failure otherwise. The inner handles must be consistent:
    /// `fft_half` twice the length of `fft_quarter`, the same direction, and
    /// an outer length divisible by sixteen.
    pub fn new(fft_half: H, fft_quarter: Q, support: crate::kernels::SimdSupport) -> (r: Result<
        SplitRadixAvx<H, Q>,
        (),
    >)
        requires
            fft_half.wf(),
            fft_quarter.wf(),
            fft_half.spec_inverse() == fft_quarter.spec_inverse(),
            fft_half.spec_len() == 2 * fft_quarter.spec_len(),
            fft_quarter.spec_len() >= 4,
            (4 * fft_quarter.spec_len()) % 16 == 0,
            (GROUP_ORDER as int) % (4 * fft_quarter.spec_len() as int) == 0,
            fft_half.spec_scratch_len() <= 2 * fft_quarter.spec_len(),
            fft_quarter.spec_scratch_len() <= 2 * fft_quarter.spec_len(),
        ensures
            r is Ok <==> support.avx && support.fma,
            r matches Ok(k) ==> {
                &&& k.wf()
                &&& k.spec_len() == 4 * fft_quarter.spec_len()
                &&& k.spec_inverse() == fft_quarter.spec_inverse()
                &&& k.fft_half == fft_half
                &&& k.fft_quarter == fft_quarter
            },
    {
        if support.avx && support.fma {
            Ok(Self::new_with_avx(fft_half, fft_quarter))
        } else {
            Err(())
        }
    }

    /// Precomputes the twiddle table packed four complex factors per
    /// register, so one load produces the four twiddles a recombination
    /// step consumes.
    pub fn new_with_avx(fft_half: H, fft_quarter: Q) -> (r: SplitRadixAvx<H, Q>)
        requires
            fft_half.wf(),
            fft_quarter.wf(),
            fft_half.spec_inverse() == fft_quarter.spec_inverse(),
            fft_half.spec_len() == 2 * fft_quarter.spec_len(),
            fft_quarter.spec_len() >= 4,
            (4 * fft_quarter.spec_len()) % 16 == 0,
            (GROUP_ORDER as int) % (4 * fft_quarter.spec_len() as int) == 0,
            fft_half.spec_scratch_len() <= 2 * fft_quarter.spec_len(),
            fft_quarter.spec_scratch_len() <= 2 * fft_quarter.spec_len(),
        ensures
            r.wf(),
            r.spec_len() == 4 * fft_quarter.spec_len(),
            r.spec_inverse() == fft_quarter.spec_inverse(),
            r.fft_half == fft_half,
            r.fft_quarter == fft_quarter,
    {
        proof {
            if 4 * fft_quarter.spec_len() > GROUP_ORDER as nat {
                vstd::arithmetic::div_mod::lemma_small_mod(
                    GROUP_ORDER as nat,
                    4 * fft_quarter.spec_len(),
                );
            }
        }
        let inverse = fft_quarter.is_inverse();
        let quarter_len = fft_quarter.len();
        let len = quarter_len * 4;
        let sixteenth_len = len / 16;
        let mut twiddles: Vec<crate::lanes::Reg> = Vec::new();
        let mut i: usize = 0;
        while i < sixteenth_len
            invariant
                i <= sixteenth_len,
                sixteenth_len == len / 16,
                len % 16 == 0,
                len == 4 * quarter_len,
                1 <= len,
                (GROUP_ORDER as int) % (len as int) == 0,
                twiddles@.len() == i,
                forall|t: int, j: int|
                    0 <= t < i && 0 <= j < 4 ==> #[trigger] crate::lanes::rc_lane(twiddles@[t], j)
                        == twiddle_spec((4 * t + j) as nat, len as nat, inverse),
                forall|t: int| 0 <= t < i ==> crate::lanes::reg_wf(#[trigger] twiddles@[t]),
            decreases sixteenth_len - i,
        {
            let w = crate::lanes::pack_reg(
                crate::twiddles::single_twiddle(i * 4, len, inverse),
                crate::twiddles::single_twiddle(i * 4 + 1, len, inverse),
                crate::twiddles::single_twiddle(i * 4 + 2, len, inverse),
                crate::twiddles::single_twiddle(i * 4 + 3, len, inverse),
            );
            twiddles.push(w);
            i += 1;
        }
        SplitRadixAvx { twiddles, fft_half, fft_quarter, len, inverse }
    }
}

impl<H: FftInline, Q: FftInline> FftInline for SplitRadixAvx<H, Q> {
    open spec fn wf(&self) -> bool {
        &&& self.fft_half.wf()
        &&& self.fft_quarter.wf()
        &&& self.fft_half.spec_inverse() == self.inverse
        &&& self.fft_quarter.spec_inverse() == self.inverse
        &&& self.fft_half.spec_len() == 2 * self.fft_quarter.spec_len()
        &&& self.len == 4 * self.fft_quarter.spec_len()
        &&& self.fft_quarter.spec_len() >= 4
        &&& self.len % 16 == 0
        &&& (GROUP_ORDER as int) % (self.len as int) == 0
        &&& self.fft_half.spec_scratch_len() <= 2 * self.fft_quarter.spec_len()
        &&& self.fft_quarter.spec_scratch_len() <= 2 * self.fft_quarter.spec_len()
        &&& self.twiddles@.len() == self.len / 16
        &&& forall|t: int, j: int|
            0 <= t < self.twiddles@.len() && 0 <= j < 4 ==> #[trigger] crate::lanes::rc_lane(
                self.twiddles@[t],
                j,
            ) == twiddle_spec((4 * t + j) as nat, self.len as nat, self.inverse)
        &&& forall|t: int|
            0 <= t < self.twiddles@.len() ==> crate::lanes::reg_wf(#[trigger] self.twiddles@[t])
    }

    open spec fn spec_len(&self) -> nat {
        self.len as nat
    }

    open spec fn spec_inverse(&self) -> bool {
        self.inverse
    }

    open spec fn spec_scratch_len(&self) -> nat {
        (self.len / 2 + 1) as nat
    }

    open spec fn apply(&self, x: Seq<Complex>) -> Seq<Complex> {
        split_radix_combine(
            self.fft_half.apply(evens_spec(x)),
            self.fft_quarter.apply(quarter1_spec(x)),
            self.fft_quarter.apply(quarter3_spec(x)),
            twiddle_table_spec(
                self.fft_quarter.spec_len(),
                self.len as nat,
                self.inverse,
            ),
            self.inverse,
        )
    }

    proof fn lemma_apply_shape(&self, x: Seq<Complex>) {
        reveal(split_radix_combine);
        lemma_streams_wf(x);
        self.fft_half.lemma_apply_shape(evens_spec(x));
        self.fft_quarter.lemma_apply_shape(quarter1_spec(x));
        self.fft_quarter.lemma_apply_shape(quarter3_spec(x));
    }

    fn len(&self) -> (r: usize) {
        self.len
    }

    fn is_inverse(&self) -> (r: bool) {
        self.inverse
    }

    fn get_required_scratch_len(&self) -> (r: usize) {
        self.len / 2 + 1
    }

    #[verifier::rlimit(100)]
    #[verifier::spinoff_prover]
    fn process_inline(&self, buffer: &mut [Complex], scratch: &mut [Complex]) {
        let ghost x = buffer@;
        let len = self.len;
        let half_len = len / 2;
        let quarter_len = len / 4;
        let three_quarter_len = half_len + quarter_len;
        let sixteenth_len = len / 16;

        // Cap the scratch at the advertised requirement, then split it into
        // the quarter-1 section and the quarter-3 section; the latter keeps
        // one extra slot for the rotation patch.
        let (used_scratch, _spare_scratch) = scratch.split_at_mut(half_len + 1);
        let (scratch_quarter1, scratch_quarter3) = used_scratch.split_at_mut(quarter_len);
        proof {
            lemma_streams_wf(x);
            assert forall|i: int| 0 <= i < scratch_quarter1@.len() implies c_wf(
                #[trigger] scratch_quarter1@[i],
            ) by {
                assert(scratch_quarter1@[i] == old(scratch)@[i]);
            }
            assert forall|i: int| 0 <= i < scratch_quarter3@.len() implies c_wf(
                #[trigger] scratch_quarter3@[i],
            ) by {
                assert(scratch_quarter3@[i] == old(scratch)@[i + quarter_len]);
            }
        }

        // Decimation, four samples per step: rearrange four consecutive
        // vector loads (sixteen complex samples) into two packed even
        // vectors and the two odd streams. The quarter-3 groups land at
        // offset one; the rotation completes after the loop.
        let mut i: usize = 0;
        while i < sixteenth_len
            invariant
                self.wf(),
                len == self.len,
                half_len == len / 2,
                quarter_len == len / 4,
                sixteenth_len == len / 16,
                len == 4 * quarter_len,
                len % 16 == 0,
                x.len() == len,
                seq_wf(x),
                i <= sixteenth_len,
                buffer@.len() == len,
                seq_wf(buffer@),
                scratch_quarter1@.len() == quarter_len,
                scratch_quarter3@.len() == quarter_len + 1,
                seq_wf(scratch_quarter1@),
                seq_wf(scratch_quarter3@),
                forall|j: int| 0 <= j < 8 * i ==> buffer@[j] == x[2 * j],
                forall|j: int| 8 * i <= j < len ==> buffer@[j] == x[j],
                forall|j: int| 0 <= j < 4 * i ==> scratch_quarter1@[j] == x[4 * j + 1],
                forall|j: int| 1 <= j < 4 * i + 1 ==> scratch_quarter3@[j] == x[4 * j - 1],
            decreases sixteenth_len - i,
        {
            let chunk0 = crate::lanes::load_reg(buffer, i * 16);
            let chunk1 = crate::lanes::load_reg(buffer, i * 16 + 4);
            let (even0, odd0) = crate::vector_butterflies::split_evens(chunk0, chunk1);

            let chunk2 = crate::lanes::load_reg(buffer, i * 16 + 8);
            let chunk3 = crate::lanes::load_reg(buffer, i * 16 + 12);
            let (even1, odd1) = crate::vector_butterflies::split_evens(chunk2, chunk3);

            let (quarter1, quarter3) = crate::vector_butterflies::split_evens(odd0, odd1);

            crate::lanes::store_reg(buffer, i * 8, even0);
            crate::lanes::store_reg(buffer, i * 8 + 4, even1);
            crate::lanes::store_reg(scratch_quarter1, i * 4, quarter1);
            crate::lanes::store_reg(scratch_quarter3, i * 4 + 1, quarter3);
            i += 1;
        }

        // Complete the quarter-3 rotation by copying the last element to
        // the front, then drop the extra slot.
        scratch_quarter3[0] = scratch_quarter3[quarter_len];
        let (scratch_quarter3, _patch_slot) = scratch_quarter3.split_at_mut(quarter_len);

        proof {
            assert(buffer@.subrange(0, half_len as int) =~= evens_spec(x));
            assert(scratch_quarter1@ =~= quarter1_spec(x));
            assert(scratch_quarter3@ =~= quarter3_spec(x));
        }

        // The first half of the buffer holds the even stream; the second
        // half doubles as scratch for the inner transforms.
        let (inner_buffer, inner_scratch) = buffer.split_at_mut(half_len);
        proof {
            assert(inner_buffer@ =~= evens_spec(x));
            assert forall|j: int| 0 <= j < inner_scratch@.len() implies c_wf(
                #[trigger] inner_scratch@[j],
            ) by {
            }
        }

        // Execute the inner transforms.
        self.fft_half.process_inline(inner_buffer, inner_scratch);
        self.fft_quarter.process_inline(scratch_quarter1, inner_scratch);
        self.fft_quarter.process_inline(scratch_quarter3, inner_scratch);

        proof {
            self.fft_half.lemma_apply_shape(evens_spec(x));
            self.fft_quarter.lemma_apply_shape(quarter1_spec(x));
            self.fft_quarter.lemma_apply_shape(quarter3_spec(x));
        }
        let ghost e = self.fft_half.apply(evens_spec(x));
        let ghost o1 = self.fft_quarter.apply(quarter1_spec(x));
        let ghost o3 = self.fft_quarter.apply(quarter3_spec(x));
        let ghost tw = twiddle_table_spec(
            self.fft_quarter.spec_len(),
            self.len as nat,
            self.inverse,
        );
        let ghost out = split_radix_combine(e, o1, o3, tw, self.inverse);

        // Recombination, four samples per step.
        let mut i: usize = 0;
        while i < sixteenth_len
            invariant
                self.wf(),
                len == self.len,
                half_len == len / 2,
                quarter_len == len / 4,
                three_quarter_len == half_len + quarter_len,
                sixteenth_len == len / 16,
                len == 4 * quarter_len,
                quarter_len == 4 * sixteenth_len,
                i <= sixteenth_len,
                buffer@.len() == len,
                seq_wf(buffer@),
                scratch_quarter1@ == o1,
                scratch_quarter3@ == o3,
                o1.len() == quarter_len,
                o3.len() == quarter_len,
                e.len() == half_len,
                seq_wf(o1),
                seq_wf(o3),
                tw == twiddle_table_spec(self.fft_quarter.spec_len(), self.len as nat, self.inverse),
                out == split_radix_combine(e, o1, o3, tw, self.inverse),
                forall|j: int| 4 * i <= j < quarter_len ==> #[trigger] buffer@[j] == e[j],
                forall|j: int|
                    4 * i <= j < quarter_len ==> #[trigger] buffer@[quarter_len + j] == e[
                        quarter_len + j
                    ],
                forall|j: int| 0 <= j < 4 * i ==> #[trigger] buffer@[j] == out[j],
                forall|j: int|
                    0 <= j < 4 * i ==> #[trigger] buffer@[quarter_len + j] == out[quarter_len + j],
                forall|j: int|
                    0 <= j < 4 * i ==> #[trigger] buffer@[half_len + j] == out[half_len + j],
                forall|j: int|
                    0 <= j < 4 * i ==> #[trigger] buffer@[three_quarter_len + j] == out[
                        three_quarter_len + j
                    ],
            decreases sixteenth_len - i,
        {
            let ghost b_head = buffer@;
            let inner_even0_entry = crate::lanes::load_reg(buffer, i * 4);
            let inner_even1_entry = crate::lanes::load_reg(buffer, quarter_len + i * 4);
            let inner_quarter1_entry = crate::lanes::load_reg(scratch_quarter1, i * 4);
            let inner_quarter3_entry = crate::lanes::load_reg(scratch_quarter3, i * 4);

            let twiddle = self.twiddles[i];

            let twiddled_quarter1 = crate::vector_butterflies::complex_multiply(
                twiddle,
                inner_quarter1_entry,
            );
            let twiddled_quarter3 = crate::vector_butterflies::complex_conj_multiply(
                twiddle,
                inner_quarter3_entry,
            );
            let (quarter_sum, quarter_diff) = crate::vector_butterflies::column_butterfly2(
                twiddled_quarter1,
                twiddled_quarter3,
            );

            let (output_i, output_i_half) = crate::vector_butterflies::column_butterfly2(
                inner_even0_entry,
                quarter_sum,
            );

            let quarter_diff_rotated = crate::vector_butterflies::butterfly4_twiddle(
                quarter_diff,
                self.inverse,
            );

            let (output_quarter1, output_quarter3) = crate::vector_butterflies::column_butterfly2(
                inner_even1_entry,
                quarter_diff_rotated,
            );

            crate::lanes::store_reg(buffer, i * 4, output_i);
            crate::lanes::store_reg(buffer, i * 4 + quarter_len, output_quarter1);
            crate::lanes::store_reg(buffer, i * 4 + half_len, output_i_half);
            crate::lanes::store_reg(buffer, i * 4 + three_quarter_len, output_quarter3);
            proof {
                reveal(split_radix_combine);
                assert forall|j: int| 0 <= j < 4 * (i + 1) implies #[trigger] buffer@[j] == out[
                    j] by {
                    if j < 4 * i {
                        assert(buffer@[j] == b_head[j]);
                    } else {
                        assert(tw[j] == twiddle_spec(j as nat, len as nat, self.inverse));
                        assert(crate::lanes::rc_lane(self.twiddles@[i as int], j - 4 * i)
                            == twiddle_spec((4 * i + (j - 4 * i)) as nat, len as nat, self.inverse));
                        assert(b_head[j] == e[j]);
                        assert(b_head[quarter_len + j] == e[quarter_len + j]);
                        assert(out[j] == c_add(e[j], sr_sum(o1, o3, tw, j)));
                        assert(out[quarter_len + j] == c_add(
                            e[quarter_len + j],
                            sr_diff(o1, o3, tw, j, self.inverse),
                        ));
                        assert(out[half_len + j] == c_sub(e[j], sr_sum(o1, o3, tw, j)));
                        assert(out[three_quarter_len + j] == c_sub(
                            e[quarter_len + j],
                            sr_diff(o1, o3, tw, j, self.inverse),
                        ));
                    }
                }
                assert forall|j: int|
                    0 <= j < 4 * (i + 1) implies #[trigger] buffer@[quarter_len + j] == out[
                    quarter_len + j] by {
                    if j < 4 * i {
                        assert(buffer@[quarter_len + j] == b_head[quarter_len + j]);
                    } else {
                        assert(tw[j] == twiddle_spec(j as nat, len as nat, self.inverse));
                        assert(crate::lanes::rc_lane(self.twiddles@[i as int], j - 4 * i)
                            == twiddle_spec((4 * i + (j - 4 * i)) as nat, len as nat, self.inverse));
                        assert(b_head[j] == e[j]);
                        assert(b_head[quarter_len + j] == e[quarter_len + j]);
                        assert(out[j] == c_add(e[j], sr_sum(o1, o3, tw, j)));
                        assert(out[quarter_len + j] == c_add(
                            e[quarter_len + j],
                            sr_diff(o1, o3, tw, j, self.inverse),
                        ));
                        assert(out[half_len + j] == c_sub(e[j], sr_sum(o1, o3, tw, j)));
                        assert(out[three_quarter_len + j] == c_sub(
                            e[quarter_len + j],
                            sr_diff(o1, o3, tw, j, self.inverse),
                        ));
                    }
                }
                assert forall|j: int|
                    0 <= j < 4 * (i + 1) implies #[trigger] buffer@[half_len + j] == out[half_len
                    + j] by {
                    if j < 4 * i {
                        assert(buffer@[half_len + j] == b_head[half_len + j]);
                    } else {
                        assert(tw[j] == twiddle_spec(j as nat, len as nat, self.inverse));
                        assert(crate::lanes::rc_lane(self.twiddles@[i as int], j - 4 * i)
                            == twiddle_spec((4 * i + (j - 4 * i)) as nat, len as nat, self.inverse));
                        assert(b_head[j] == e[j]);
                        assert(b_head[quarter_len + j] == e[quarter_len + j]);
                        assert(out[j] == c_add(e[j], sr_sum(o1, o3, tw, j)));
                        assert(out[quarter_len + j] == c_add(
                            e[quarter_len + j],
                            sr_diff(o1, o3, tw, j, self.inverse),
                        ));
                        assert(out[half_len + j] == c_sub(e[j], sr_sum(o1, o3, tw, j)));
                        assert(out[three_quarter_len + j] == c_sub(
                            e[quarter_len + j],
                            sr_diff(o1, o3, tw, j, self.inverse),
                        ));
                    }
                }
                assert forall|j: int|
                    0 <= j < 4 * (i + 1) implies #[trigger] buffer@[three_quarter_len + j] == out[
                    three_quarter_len + j] by {
                    if j < 4 * i {
                        assert(buffer@[three_quarter_len + j] == b_head[three_quarter_len + j]);
                    } else {
                        assert(tw[j] == twiddle_spec(j as nat, len as nat, self.inverse));
                        assert(crate::lanes::rc_lane(self.twiddles@[i as int], j - 4 * i)
                            == twiddle_spec((4 * i + (j - 4 * i)) as nat, len as nat, self.inverse));
                        assert(b_head[j] == e[j]);
                        assert(b_head[quarter_len + j] == e[quarter_len + j]);
                        assert(out[j] == c_add(e[j], sr_sum(o1, o3, tw, j)));
                        assert(out[quarter_len + j] == c_add(
                            e[quarter_len + j],
                            sr_diff(o1, o3, tw, j, self.inverse),
                        ));
                        assert(out[half_len + j] == c_sub(e[j], sr_sum(o1, o3, tw, j)));
                        assert(out[three_quarter_len + j] == c_sub(
                            e[quarter_len + j],
                            sr_diff(o1, o3, tw, j, self.inverse),
                        ));
                    }
                }
                assert forall|j: int| 4 * (i + 1) <= j < quarter_len implies #[trigger] buffer@[j]
                    == e[j] by {
                    assert(buffer@[j] == b_head[j]);
                }
                assert forall|j: int|
                    4 * (i + 1) <= j < quarter_len implies #[trigger] buffer@[quarter_len + j]
                    == e[quarter_len + j] by {
                    assert(buffer@[quarter_len + j] == b_head[quarter_len + j]);
                }
            }
            i += 1;
        }
        proof {
            reveal(split_radix_combine);
            assert forall|idx: int| 0 <= idx < len implies buffer@[idx] == out[idx] by {
                let m = quarter_len as int;
                if idx < m {
                } else if idx < 2 * m {
                    assert(buffer@[quarter_len + (idx - m)] == out[quarter_len + (idx - m)]);
                } else if idx < 3 * m {
                    assert(buffer@[half_len + (idx - 2 * m)] == out[half_len + (idx - 2 * m)]);
                } else {
                    assert(buffer@[three_quarter_len + (idx - 3 * m)] == out[three_quarter_len + (
                    idx - 3 * m)]);
                }
            }
            assert(buffer@ =~= self.apply(x));
        }
    }
}

/// The decimated streams of a well-formed buffer are well formed.
proof fn lemma_streams_wf(x: Seq<Complex>)
    requires
        seq_wf(x),
    ensures
        seq_wf(evens_spec(x)),
        seq_wf(quarter1_spec(x)),
        seq_wf(quarter3_spec(x)),
{
}

} // verus!
