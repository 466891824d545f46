//! The fixed-size vectorized kernels: fully unrolled mixed-radix transforms
//! whose data movement mirrors 256-bit register choreography, four complex
//! lanes per register.

use vstd::prelude::*;
use crate::complex::{Complex, c_add, c_sub, c_mul, seq_wf};
use crate::lanes::{Reg, reg_wf, rc0, rc1, rc2, rc3, load_reg, store_reg, pack_reg};
use crate::traits::FftInline;
use crate::twiddles::{single_twiddle, twiddle_spec};
use crate::vector_butterflies::{
    column_butterfly2, complex_multiply, butterfly4_twiddle_alternating, column_butterfly4,
    transpose_4x4, column_butterfly8,
};
use crate::lanes::{permute128_low, permute128_high, unpacklo, unpackhi, permute_swap_middle};

verus! {

broadcast use crate::complex::group_complex_wf, crate::butterflies::group_butterfly_wf;

/// The SIMD capabilities a kernel needs: 256-bit vectors and fused
/// multiply-add. Callers detect them at the program's edge and pass them in;
/// construction fails when either is absent so a scalar fallback can be
/// selected.
#[derive(Clone, Copy, PartialEq, Eq, Structural, Debug)]
pub struct SimdSupport {
    pub avx: bool,
    pub fma: bool,
}

/// Selects a tuple component by index.
pub open spec fn pick4(t: (Complex, Complex, Complex, Complex), i: int) -> Complex {
    if i == 0 {
        t.0
    } else if i == 1 {
        t.1
    } else if i == 2 {
        t.2
    } else {
        t.3
    }
}

/// The size-8 kernel's function: a 2-row by 4-column decimation in
/// frequency. With `m_j = x_j + x_(j+4)` and `t_j = (x_j - x_(j+4)) * W_8^j`,
/// the even outputs are the 4-point transform of the sums and the odd
/// outputs the 4-point transform of the twiddled differences.
pub open spec fn mr4x2_spec(x: Seq<Complex>, inverse: bool) -> Seq<Complex>
    recommends
        x.len() == 8,
{
    let e = crate::butterflies::bf4_spec(
        c_add(x[0], x[4]),
        c_add(x[1], x[5]),
        c_add(x[2], x[6]),
        c_add(x[3], x[7]),
        inverse,
    );
    let o = crate::butterflies::bf4_spec(
        c_mul(c_sub(x[0], x[4]), twiddle_spec(0, 8, inverse)),
        c_mul(c_sub(x[1], x[5]), twiddle_spec(1, 8, inverse)),
        c_mul(c_sub(x[2], x[6]), twiddle_spec(2, 8, inverse)),
        c_mul(c_sub(x[3], x[7]), twiddle_spec(3, 8, inverse)),
        inverse,
    );
    seq![e.0, o.0, e.1, o.1, e.2, o.2, e.3, o.3]
}

/// The size-8 kernel: a 4x2 mixed-radix transform held entirely in two
/// registers.
pub struct MixedRadixAvx4x2 {
    pub twiddles: Reg,
    pub inverse: bool,
}

impl MixedRadixAvx4x2 {
    /// Builds the kernel when the required vector capabilities are present,
    /// and reports failure otherwise.
    pub fn new(inverse: bool, support: SimdSupport) -> (r: Result<MixedRadixAvx4x2, ()>)
        ensures
            r is Ok <==> support.avx && support.fma,
            r matches Ok(k) ==> k.wf() && k.spec_inverse() == inverse,
    {
        if support.avx && support.fma {
            Ok(Self::new_with_avx(inverse))
        } else {
            Err(())
        }
    }

    /// Precomputes the packed twiddle vector `1, W_8, W_8^2, W_8^3`.
    pub fn new_with_avx(inverse: bool) -> (r: MixedRadixAvx4x2)
        ensures
            r.wf(),
            r.spec_inverse() == inverse,
    {
        let twiddles = pack_reg(
            single_twiddle(0, 8, inverse),
            single_twiddle(1, 8, inverse),
            single_twiddle(2, 8, inverse),
            single_twiddle(3, 8, inverse),
        );
        MixedRadixAvx4x2 { twiddles, inverse }
    }

    /// The unrolled 8-point transform: one column butterfly-2, the packed
    /// twiddles, then a 4-point butterfly pair finished with unpack shuffles.
    #[verifier::rlimit(100)]
    #[verifier::spinoff_prover]
    fn process_butterfly8(&self, buffer: &mut [Complex])
        requires
            self.wf(),
            old(buffer)@.len() == 8,
            seq_wf(old(buffer)@),
        ensures
            final(buffer)@ == mr4x2_spec(old(buffer)@, self.inverse),
            seq_wf(final(buffer)@),
    {
        let ghost x = buffer@;
        let row0 = load_reg(buffer, 0);
        let row1 = load_reg(buffer, 4);

        let (intermediate0, intermediate1_pretwiddle) = column_butterfly2(row0, row1);
        let intermediate1 = complex_multiply(intermediate1_pretwiddle, self.twiddles);

        let permuted0 = permute128_low(intermediate0, intermediate1);
        let permuted1 = permute128_high(intermediate0, intermediate1);

        let (postbutterfly0, postbutterfly1_pretwiddle) = column_butterfly2(permuted0, permuted1);
        let postbutterfly1 = butterfly4_twiddle_alternating(postbutterfly1_pretwiddle, self.inverse);

        let unpermuted0 = permute128_low(postbutterfly0, postbutterfly1);
        let unpermuted1 = permute128_high(postbutterfly0, postbutterfly1);
        let unpacked0 = unpacklo(unpermuted0, unpermuted1);
        let unpacked1 = unpackhi(unpermuted0, unpermuted1);
        let swapped0 = permute_swap_middle(unpacked0);
        let swapped1 = permute_swap_middle(unpacked1);

        let (output0, output1) = column_butterfly2(swapped0, swapped1);

        store_reg(buffer, 0, output0);
        store_reg(buffer, 4, output1);
        proof {
            reveal(crate::butterflies::bf4_spec);
            assert(buffer@ =~= mr4x2_spec(x, self.inverse));
        }
    }
}

impl FftInline for MixedRadixAvx4x2 {
    open spec fn wf(&self) -> bool {
        &&& reg_wf(self.twiddles)
        &&& rc0(self.twiddles) == twiddle_spec(0, 8, self.inverse)
        &&& rc1(self.twiddles) == twiddle_spec(1, 8, self.inverse)
        &&& rc2(self.twiddles) == twiddle_spec(2, 8, self.inverse)
        &&& rc3(self.twiddles) == twiddle_spec(3, 8, self.inverse)
    }

    open spec fn spec_len(&self) -> nat {
        8
    }

    open spec fn spec_inverse(&self) -> bool {
        self.inverse
    }

    open spec fn spec_scratch_len(&self) -> nat {
        0
    }

    open spec fn apply(&self, x: Seq<Complex>) -> Seq<Complex> {
        mr4x2_spec(x, self.inverse)
    }

    proof fn lemma_apply_shape(&self, x: Seq<Complex>) {
    }

    fn len(&self) -> (r: usize) {
        8
    }

    fn is_inverse(&self) -> (r: bool) {
        self.inverse
    }

    fn get_required_scratch_len(&self) -> (r: usize) {
        0
    }

    fn process_inline(&self, buffer: &mut [Complex], scratch: &mut [Complex]) {
        self.process_butterfly8(buffer);
    }
}

/// Row `r` of the column 4-point transforms of the 4x4 grid laid over `x`.
#[verifier::opaque]
pub open spec fn mr4x4_m(x: Seq<Complex>, inverse: bool, r: int, j: int) -> Complex {
    pick4(
        crate::butterflies::bf4_spec(x[j], x[j + 4], x[j + 8], x[j + 12], inverse),
        r,
    )
}

/// The twiddled 4x4 grid: row `r`, column `j` carries `W_16^(r*j)`.
#[verifier::opaque]
pub open spec fn mr4x4_t(x: Seq<Complex>, inverse: bool, r: int, j: int) -> Complex {
    if r == 0 {
        mr4x4_m(x, inverse, 0, j)
    } else {
        c_mul(mr4x4_m(x, inverse, r, j), twiddle_spec((r * j) as nat, 16, inverse))
    }
}

/// The size-16 kernel's function: column 4-point transforms down the 4x4
/// grid, the twiddles `W_16^(r*j)`, a transpose, then 4-point transforms
/// down the transposed columns.
#[verifier::opaque]
pub open spec fn mr4x4_spec(x: Seq<Complex>, inverse: bool) -> Seq<Complex>
    recommends
        x.len() == 16,
{
    Seq::new(
        16,
        |idx: int|
            pick4(
                crate::butterflies::bf4_spec(
                    mr4x4_t(x, inverse, idx % 4, 0),
                    mr4x4_t(x, inverse, idx % 4, 1),
                    mr4x4_t(x, inverse, idx % 4, 2),
                    mr4x4_t(x, inverse, idx % 4, 3),
                    inverse,
                ),
                idx / 4,
            ),
    )
}

/// The size-16 kernel: a 4x4 mixed-radix transform held in four registers.
pub struct MixedRadixAvx4x4 {
    pub twiddles1: Reg,
    pub twiddles2: Reg,
    pub twiddles3: Reg,
    pub inverse: bool,
}

impl MixedRadixAvx4x4 {
    /// Builds the kernel when the required vector capabilities are present,
    /// and reports failure otherwise.
    pub fn new(inverse: bool, support: SimdSupport) -> (r: Result<MixedRadixAvx4x4, ()>)
        ensures
            r is Ok <==> support.avx && support.fma,
            r matches Ok(k) ==> k.wf() && k.spec_inverse() == inverse,
    {
        if support.avx && support.fma {
            Ok(Self::new_with_avx(inverse))
        } else {
            Err(())
        }
    }

    /// Precomputes the three packed twiddle rows `W_16^(r*j)`.
    pub fn new_with_avx(inverse: bool) -> (r: MixedRadixAvx4x4)
        ensures
            r.wf(),
            r.spec_inverse() == inverse,
    {
        let twiddles1 = pack_reg(
            single_twiddle(0, 16, inverse),
            single_twiddle(1, 16, inverse),
            single_twiddle(2, 16, inverse),
            single_twiddle(3, 16, inverse),
        );
        let twiddles2 = pack_reg(
            single_twiddle(0, 16, inverse),
            single_twiddle(2, 16, inverse),
            single_twiddle(4, 16, inverse),
            single_twiddle(6, 16, inverse),
        );
        let twiddles3 = pack_reg(
            single_twiddle(0, 16, inverse),
            single_twiddle(3, 16, inverse),
            single_twiddle(6, 16, inverse),
            single_twiddle(9, 16, inverse),
        );
        MixedRadixAvx4x4 { twiddles1, twiddles2, twiddles3, inverse }
    }

    /// The unrolled 16-point transform: column butterfly-4s, the twiddle
    /// grid, a 4x4 transpose, column butterfly-4s.
    #[verifier::rlimit(100)]
    #[verifier::spinoff_prover]
    fn process_butterfly16(&self, buffer: &mut [Complex])
        requires
            self.wf(),
            old(buffer)@.len() == 16,
            seq_wf(old(buffer)@),
        ensures
            final(buffer)@ == mr4x4_spec(old(buffer)@, self.inverse),
            seq_wf(final(buffer)@),
    {
        let ghost x = buffer@;
        let input0 = load_reg(buffer, 0);
        let input1 = load_reg(buffer, 4);
        let input2 = load_reg(buffer, 8);
        let input3 = load_reg(buffer, 12);

        let (mid0, mid1, mid2, mid3) = column_butterfly4(input0, input1, input2, input3, self.inverse);

        let mid1_twiddled = complex_multiply(mid1, self.twiddles1);
        let mid2_twiddled = complex_multiply(mid2, self.twiddles2);
        let mid3_twiddled = complex_multiply(mid3, self.twiddles3);

        let (transposed0, transposed1, transposed2, transposed3) = transpose_4x4(
            mid0,
            mid1_twiddled,
            mid2_twiddled,
            mid3_twiddled,
        );

        let (output0, output1, output2, output3) = column_butterfly4(
            transposed0,
            transposed1,
            transposed2,
            transposed3,
            self.inverse,
        );

        store_reg(buffer, 0, output0);
        store_reg(buffer, 4, output1);
        store_reg(buffer, 8, output2);
        store_reg(buffer, 12, output3);
        proof {
            assert(rc0(mid0) == mr4x4_t(x, self.inverse, 0, 0)) by { reveal(mr4x4_t); reveal(mr4x4_m); }
            assert(rc1(mid0) == mr4x4_t(x, self.inverse, 0, 1)) by { reveal(mr4x4_t); reveal(mr4x4_m); }
            assert(rc2(mid0) == mr4x4_t(x, self.inverse, 0, 2)) by { reveal(mr4x4_t); reveal(mr4x4_m); }
            assert(rc3(mid0) == mr4x4_t(x, self.inverse, 0, 3)) by { reveal(mr4x4_t); reveal(mr4x4_m); }
            assert(rc0(mid1_twiddled) == mr4x4_t(x, self.inverse, 1, 0)) by { reveal(mr4x4_t); reveal(mr4x4_m); }
            assert(rc1(mid1_twiddled) == mr4x4_t(x, self.inverse, 1, 1)) by { reveal(mr4x4_t); reveal(mr4x4_m); }
            assert(rc2(mid1_twiddled) == mr4x4_t(x, self.inverse, 1, 2)) by { reveal(mr4x4_t); reveal(mr4x4_m); }
            assert(rc3(mid1_twiddled) == mr4x4_t(x, self.inverse, 1, 3)) by { reveal(mr4x4_t); reveal(mr4x4_m); }
            assert(rc0(mid2_twiddled) == mr4x4_t(x, self.inverse, 2, 0)) by { reveal(mr4x4_t); reveal(mr4x4_m); }
            assert(rc1(mid2_twiddled) == mr4x4_t(x, self.inverse, 2, 1)) by { reveal(mr4x4_t); reveal(mr4x4_m); }
            assert(rc2(mid2_twiddled) == mr4x4_t(x, self.inverse, 2, 2)) by { reveal(mr4x4_t); reveal(mr4x4_m); }
            assert(rc3(mid2_twiddled) == mr4x4_t(x, self.inverse, 2, 3)) by { reveal(mr4x4_t); reveal(mr4x4_m); }
            assert(rc0(mid3_twiddled) == mr4x4_t(x, self.inverse, 3, 0)) by { reveal(mr4x4_t); reveal(mr4x4_m); }
            assert(rc1(mid3_twiddled) == mr4x4_t(x, self.inverse, 3, 1)) by { reveal(mr4x4_t); reveal(mr4x4_m); }
            assert(rc2(mid3_twiddled) == mr4x4_t(x, self.inverse, 3, 2)) by { reveal(mr4x4_t); reveal(mr4x4_m); }
            assert(rc3(mid3_twiddled) == mr4x4_t(x, self.inverse, 3, 3)) by { reveal(mr4x4_t); reveal(mr4x4_m); }
            assert(buffer@[0] == pick4(crate::butterflies::bf4_spec(mr4x4_t(x, self.inverse, 0, 0), mr4x4_t(x, self.inverse, 0, 1), mr4x4_t(x, self.inverse, 0, 2), mr4x4_t(x, self.inverse, 0, 3), self.inverse), 0)) by { }
            assert(buffer@[1] == pick4(crate::butterflies::bf4_spec(mr4x4_t(x, self.inverse, 1, 0), mr4x4_t(x, self.inverse, 1, 1), mr4x4_t(x, self.inverse, 1, 2), mr4x4_t(x, self.inverse, 1, 3), self.inverse), 0)) by { }
            assert(buffer@[2] == pick4(crate::butterflies::bf4_spec(mr4x4_t(x, self.inverse, 2, 0), mr4x4_t(x, self.inverse, 2, 1), mr4x4_t(x, self.inverse, 2, 2), mr4x4_t(x, self.inverse, 2, 3), self.inverse), 0)) by { }
            assert(buffer@[3] == pick4(crate::butterflies::bf4_spec(mr4x4_t(x, self.inverse, 3, 0), mr4x4_t(x, self.inverse, 3, 1), mr4x4_t(x, self.inverse, 3, 2), mr4x4_t(x, self.inverse, 3, 3), self.inverse), 0)) by { }
            assert(buffer@[4] == pick4(crate::butterflies::bf4_spec(mr4x4_t(x, self.inverse, 0, 0), mr4x4_t(x, self.inverse, 0, 1), mr4x4_t(x, self.inverse, 0, 2), mr4x4_t(x, self.inverse, 0, 3), self.inverse), 1)) by { }
            assert(buffer@[5] == pick4(crate::butterflies::bf4_spec(mr4x4_t(x, self.inverse, 1, 0), mr4x4_t(x, self.inverse, 1, 1), mr4x4_t(x, self.inverse, 1, 2), mr4x4_t(x, self.inverse, 1, 3), self.inverse), 1)) by { }
            assert(buffer@[6] == pick4(crate::butterflies::bf4_spec(mr4x4_t(x, self.inverse, 2, 0), mr4x4_t(x, self.inverse, 2, 1), mr4x4_t(x, self.inverse, 2, 2), mr4x4_t(x, self.inverse, 2, 3), self.inverse), 1)) by { }
            assert(buffer@[7] == pick4(crate::butterflies::bf4_spec(mr4x4_t(x, self.inverse, 3, 0), mr4x4_t(x, self.inverse, 3, 1), mr4x4_t(x, self.inverse, 3, 2), mr4x4_t(x, self.inverse, 3, 3), self.inverse), 1)) by { }
            assert(buffer@[8] == pick4(crate::butterflies::bf4_spec(mr4x4_t(x, self.inverse, 0, 0), mr4x4_t(x, self.inverse, 0, 1), mr4x4_t(x, self.inverse, 0, 2), mr4x4_t(x, self.inverse, 0, 3), self.inverse), 2)) by { }
            assert(buffer@[9] == pick4(crate::butterflies::bf4_spec(mr4x4_t(x, self.inverse, 1, 0), mr4x4_t(x, self.inverse, 1, 1), mr4x4_t(x, self.inverse, 1, 2), mr4x4_t(x, self.inverse, 1, 3), self.inverse), 2)) by { }
            assert(buffer@[10] == pick4(crate::butterflies::bf4_spec(mr4x4_t(x, self.inverse, 2, 0), mr4x4_t(x, self.inverse, 2, 1), mr4x4_t(x, self.inverse, 2, 2), mr4x4_t(x, self.inverse, 2, 3), self.inverse), 2)) by { }
            assert(buffer@[11] == pick4(crate::butterflies::bf4_spec(mr4x4_t(x, self.inverse, 3, 0), mr4x4_t(x, self.inverse, 3, 1), mr4x4_t(x, self.inverse, 3, 2), mr4x4_t(x, self.inverse, 3, 3), self.inverse), 2)) by { }
            assert(buffer@[12] == pick4(crate::butterflies::bf4_spec(mr4x4_t(x, self.inverse, 0, 0), mr4x4_t(x, self.inverse, 0, 1), mr4x4_t(x, self.inverse, 0, 2), mr4x4_t(x, self.inverse, 0, 3), self.inverse), 3)) by { }
            assert(buffer@[13] == pick4(crate::butterflies::bf4_spec(mr4x4_t(x, self.inverse, 1, 0), mr4x4_t(x, self.inverse, 1, 1), mr4x4_t(x, self.inverse, 1, 2), mr4x4_t(x, self.inverse, 1, 3), self.inverse), 3)) by { }
            assert(buffer@[14] == pick4(crate::butterflies::bf4_spec(mr4x4_t(x, self.inverse, 2, 0), mr4x4_t(x, self.inverse, 2, 1), mr4x4_t(x, self.inverse, 2, 2), mr4x4_t(x, self.inverse, 2, 3), self.inverse), 3)) by { }
            assert(buffer@[15] == pick4(crate::butterflies::bf4_spec(mr4x4_t(x, self.inverse, 3, 0), mr4x4_t(x, self.inverse, 3, 1), mr4x4_t(x, self.inverse, 3, 2), mr4x4_t(x, self.inverse, 3, 3), self.inverse), 3)) by { }
            assert(buffer@ =~= mr4x4_spec(x, self.inverse)) by { reveal(mr4x4_spec); }
        }
    }
}

impl FftInline for MixedRadixAvx4x4 {
    open spec fn wf(&self) -> bool {
        &&& reg_wf(self.twiddles1)
        &&& reg_wf(self.twiddles2)
        &&& reg_wf(self.twiddles3)
        &&& rc0(self.twiddles1) == twiddle_spec(0, 16, self.inverse)
        &&& rc1(self.twiddles1) == twiddle_spec(1, 16, self.inverse)
        &&& rc2(self.twiddles1) == twiddle_spec(2, 16, self.inverse)
        &&& rc3(self.twiddles1) == twiddle_spec(3, 16, self.inverse)
        &&& rc0(self.twiddles2) == twiddle_spec(0, 16, self.inverse)
        &&& rc1(self.twiddles2) == twiddle_spec(2, 16, self.inverse)
        &&& rc2(self.twiddles2) == twiddle_spec(4, 16, self.inverse)
        &&& rc3(self.twiddles2) == twiddle_spec(6, 16, self.inverse)
        &&& rc0(self.twiddles3) == twiddle_spec(0, 16, self.inverse)
        &&& rc1(self.twiddles3) == twiddle_spec(3, 16, self.inverse)
        &&& rc2(self.twiddles3) == twiddle_spec(6, 16, self.inverse)
        &&& rc3(self.twiddles3) == twiddle_spec(9, 16, self.inverse)
    }

    open spec fn spec_len(&self) -> nat {
        16
    }

    open spec fn spec_inverse(&self) -> bool {
        self.inverse
    }

    open spec fn spec_scratch_len(&self) -> nat {
        0
    }

    open spec fn apply(&self, x: Seq<Complex>) -> Seq<Complex> {
        mr4x4_spec(x, self.inverse)
    }

    proof fn lemma_apply_shape(&self, x: Seq<Complex>) {
        reveal(mr4x4_spec);
    }

    fn len(&self) -> (r: usize) {
        16
    }

    fn is_inverse(&self) -> (r: bool) {
        self.inverse
    }

    fn get_required_scratch_len(&self) -> (r: usize) {
        0
    }

    fn process_inline(&self, buffer: &mut [Complex], scratch: &mut [Complex]) {
        self.process_butterfly16(buffer);
    }
}


/// Stores eight registers to 32 consecutive samples, sample by sample.
#[verifier::rlimit(100)]
fn store8(buffer: &mut [Complex], r0: Reg, r1: Reg, r2: Reg, r3: Reg, r4: Reg, r5: Reg, r6: Reg, r7: Reg)
    requires
        old(buffer)@.len() == 32,
        seq_wf(old(buffer)@),
        reg_wf(r0) && reg_wf(r1) && reg_wf(r2) && reg_wf(r3) && reg_wf(r4) && reg_wf(r5) && reg_wf(r6) && reg_wf(r7),
    ensures
        final(buffer)@.len() == 32,
        seq_wf(final(buffer)@),
        final(buffer)@[0] == rc0(r0),
        final(buffer)@[1] == rc1(r0),
        final(buffer)@[2] == rc2(r0),
        final(buffer)@[3] == rc3(r0),
        final(buffer)@[4] == rc0(r1),
        final(buffer)@[5] == rc1(r1),
        final(buffer)@[6] == rc2(r1),
        final(buffer)@[7] == rc3(r1),
        final(buffer)@[8] == rc0(r2),
        final(buffer)@[9] == rc1(r2),
        final(buffer)@[10] == rc2(r2),
        final(buffer)@[11] == rc3(r2),
        final(buffer)@[12] == rc0(r3),
        final(buffer)@[13] == rc1(r3),
        final(buffer)@[14] == rc2(r3),
        final(buffer)@[15] == rc3(r3),
        final(buffer)@[16] == rc0(r4),
        final(buffer)@[17] == rc1(r4),
        final(buffer)@[18] == rc2(r4),
        final(buffer)@[19] == rc3(r4),
        final(buffer)@[20] == rc0(r5),
        final(buffer)@[21] == rc1(r5),
        final(buffer)@[22] == rc2(r5),
        final(buffer)@[23] == rc3(r5),
        final(buffer)@[24] == rc0(r6),
        final(buffer)@[25] == rc1(r6),
        final(buffer)@[26] == rc2(r6),
        final(buffer)@[27] == rc3(r6),
        final(buffer)@[28] == rc0(r7),
        final(buffer)@[29] == rc1(r7),
        final(buffer)@[30] == rc2(r7),
        final(buffer)@[31] == rc3(r7),
{
    store_reg(buffer, 0, r0);
    store_reg(buffer, 4, r1);
    store_reg(buffer, 8, r2);
    store_reg(buffer, 12, r3);
    store_reg(buffer, 16, r4);
    store_reg(buffer, 20, r5);
    store_reg(buffer, 24, r6);
    store_reg(buffer, 28, r7);
}

/// Selects a component of an 8-tuple by index.
pub open spec fn pick8(
    t: (Complex, Complex, Complex, Complex, Complex, Complex, Complex, Complex),
    i: int,
) -> Complex {
    if i == 0 {
        t.0
    } else if i == 1 {
        t.1
    } else if i == 2 {
        t.2
    } else if i == 3 {
        t.3
    } else if i == 4 {
        t.4
    } else if i == 5 {
        t.5
    } else if i == 6 {
        t.6
    } else {
        t.7
    }
}

/// Row `r` of the column 4-point transforms of the 4x8 grid laid over `x`.
#[verifier::opaque]
pub open spec fn mr4x8_m(x: Seq<Complex>, inverse: bool, r: int, c: int) -> Complex {
    pick4(
        crate::butterflies::bf4_spec(x[c], x[c + 8], x[c + 16], x[c + 24], inverse),
        r,
    )
}

/// The twiddled 4x8 grid: row `r`, column `c` carries `W_32^(r*c)`.
#[verifier::opaque]
pub open spec fn mr4x8_t(x: Seq<Complex>, inverse: bool, r: int, c: int) -> Complex {
    if r == 0 {
        mr4x8_m(x, inverse, 0, c)
    } else {
        c_mul(mr4x8_m(x, inverse, r, c), twiddle_spec((r * c) as nat, 32, inverse))
    }
}

/// The size-32 kernel's function: column 4-point transforms down the 4x8
/// grid, the twiddles `W_32^(r*c)`, two 4x4 transposes, then 8-point
/// transforms down the transposed columns.
#[verifier::opaque]
pub open spec fn mr4x8_spec(x: Seq<Complex>, inverse: bool) -> Seq<Complex>
    recommends
        x.len() == 32,
{
    Seq::new(
        32,
        |idx: int|
            pick8(
                crate::butterflies::bf8t_spec(
                    mr4x8_t(x, inverse, idx % 4, 0),
                    mr4x8_t(x, inverse, idx % 4, 1),
                    mr4x8_t(x, inverse, idx % 4, 2),
                    mr4x8_t(x, inverse, idx % 4, 3),
                    mr4x8_t(x, inverse, idx % 4, 4),
                    mr4x8_t(x, inverse, idx % 4, 5),
                    mr4x8_t(x, inverse, idx % 4, 6),
                    mr4x8_t(x, inverse, idx % 4, 7),
                    inverse,
                ),
                idx / 4,
            ),
    )
}

/// The size-32 kernel: a 4x8 mixed-radix transform, four columns per
/// register, finished with packed 8-point column butterflies.
pub struct MixedRadixAvx4x8 {
    pub twiddles0: Reg,
    pub twiddles1: Reg,
    pub twiddles2: Reg,
    pub twiddles3: Reg,
    pub twiddles4: Reg,
    pub twiddles5: Reg,
    pub twiddles_butterfly8: Reg,
    pub inverse: bool,
}

impl MixedRadixAvx4x8 {
    /// Builds the kernel when the required vector capabilities are present,
    /// and reports failure otherwise.
    pub fn new(inverse: bool, support: SimdSupport) -> (r: Result<MixedRadixAvx4x8, ()>)
        ensures
            r is Ok <==> support.avx && support.fma,
            r matches Ok(k) ==> k.wf() && k.spec_inverse() == inverse,
    {
        if support.avx && support.fma {
            Ok(Self::new_with_avx(inverse))
        } else {
            Err(())
        }
    }

    /// Precomputes the six packed twiddle rows `W_32^(r*c)` and the packed
    /// `W_8` vector of the 8-point column butterfly.
    pub fn new_with_avx(inverse: bool) -> (r: MixedRadixAvx4x8)
        ensures
            r.wf(),
            r.spec_inverse() == inverse,
    {
        let twiddles0 = pack_reg(
            single_twiddle(0, 32, inverse),
            single_twiddle(1, 32, inverse),
            single_twiddle(2, 32, inverse),
            single_twiddle(3, 32, inverse),
        );
        let twiddles1 = pack_reg(
            single_twiddle(4, 32, inverse),
            single_twiddle(5, 32, inverse),
            single_twiddle(6, 32, inverse),
            single_twiddle(7, 32, inverse),
        );
        let twiddles2 = pack_reg(
            single_twiddle(0, 32, inverse),
            single_twiddle(2, 32, inverse),
            single_twiddle(4, 32, inverse),
            single_twiddle(6, 32, inverse),
        );
        let twiddles3 = pack_reg(
            single_twiddle(8, 32, inverse),
            single_twiddle(10, 32, inverse),
            single_twiddle(12, 32, inverse),
            single_twiddle(14, 32, inverse),
        );
        let twiddles4 = pack_reg(
            single_twiddle(0, 32, inverse),
            single_twiddle(3, 32, inverse),
            single_twiddle(6, 32, inverse),
            single_twiddle(9, 32, inverse),
        );
        let twiddles5 = pack_reg(
            single_twiddle(12, 32, inverse),
            single_twiddle(15, 32, inverse),
            single_twiddle(18, 32, inverse),
            single_twiddle(21, 32, inverse),
        );
        let w8 = single_twiddle(1, 8, inverse);
        let twiddles_butterfly8 = pack_reg(w8, w8, w8, w8);
        MixedRadixAvx4x8 {
            twiddles0,
            twiddles1,
            twiddles2,
            twiddles3,
            twiddles4,
            twiddles5,
            twiddles_butterfly8,
            inverse,
        }
    }

    /// The register stage of the 32-point transform: interleaved column
    /// butterfly-4s, the twiddle grid, two 4x4 transposes, packed 8-point
    /// column butterflies. `x` names the 32 samples the input registers
    /// carry.
    #[verifier::rlimit(100)]
    #[verifier::spinoff_prover]
    fn butterfly32_regs(
        &self,
        input0: Reg,
        input1: Reg,
        input2: Reg,
        input3: Reg,
        input4: Reg,
        input5: Reg,
        input6: Reg,
        input7: Reg,
        Ghost(x): Ghost<Seq<Complex>>,
        Ghost(inverse): Ghost<bool>,
    ) -> (r: (Reg, Reg, Reg, Reg, Reg, Reg, Reg, Reg))
        requires
            self.wf(),
            inverse == self.spec_inverse(),
            x.len() == 32,
            reg_wf(input0) && reg_wf(input1) && reg_wf(input2) && reg_wf(input3),
            reg_wf(input4) && reg_wf(input5) && reg_wf(input6) && reg_wf(input7),
        rc0(input0) == x[0],
        rc1(input0) == x[1],
        rc2(input0) == x[2],
        rc3(input0) == x[3],
        rc0(input1) == x[4],
        rc1(input1) == x[5],
        rc2(input1) == x[6],
        rc3(input1) == x[7],
        rc0(input2) == x[8],
        rc1(input2) == x[9],
        rc2(input2) == x[10],
        rc3(input2) == x[11],
        rc0(input3) == x[12],
        rc1(input3) == x[13],
        rc2(input3) == x[14],
        rc3(input3) == x[15],
        rc0(input4) == x[16],
        rc1(input4) == x[17],
        rc2(input4) == x[18],
        rc3(input4) == x[19],
        rc0(input5) == x[20],
        rc1(input5) == x[21],
        rc2(input5) == x[22],
        rc3(input5) == x[23],
        rc0(input6) == x[24],
        rc1(input6) == x[25],
        rc2(input6) == x[26],
        rc3(input6) == x[27],
        rc0(input7) == x[28],
        rc1(input7) == x[29],
        rc2(input7) == x[30],
        rc3(input7) == x[31],
        ensures
        (rc0(r.0), rc0(r.1), rc0(r.2), rc0(r.3), rc0(r.4), rc0(r.5), rc0(r.6), rc0(r.7)) == crate::butterflies::bf8t_spec(mr4x8_t(x, inverse, 0, 0), mr4x8_t(x, inverse, 0, 1), mr4x8_t(x, inverse, 0, 2), mr4x8_t(x, inverse, 0, 3), mr4x8_t(x, inverse, 0, 4), mr4x8_t(x, inverse, 0, 5), mr4x8_t(x, inverse, 0, 6), mr4x8_t(x, inverse, 0, 7), inverse),
        (rc1(r.0), rc1(r.1), rc1(r.2), rc1(r.3), rc1(r.4), rc1(r.5), rc1(r.6), rc1(r.7)) == crate::butterflies::bf8t_spec(mr4x8_t(x, inverse, 1, 0), mr4x8_t(x, inverse, 1, 1), mr4x8_t(x, inverse, 1, 2), mr4x8_t(x, inverse, 1, 3), mr4x8_t(x, inverse, 1, 4), mr4x8_t(x, inverse, 1, 5), mr4x8_t(x, inverse, 1, 6), mr4x8_t(x, inverse, 1, 7), inverse),
        (rc2(r.0), rc2(r.1), rc2(r.2), rc2(r.3), rc2(r.4), rc2(r.5), rc2(r.6), rc2(r.7)) == crate::butterflies::bf8t_spec(mr4x8_t(x, inverse, 2, 0), mr4x8_t(x, inverse, 2, 1), mr4x8_t(x, inverse, 2, 2), mr4x8_t(x, inverse, 2, 3), mr4x8_t(x, inverse, 2, 4), mr4x8_t(x, inverse, 2, 5), mr4x8_t(x, inverse, 2, 6), mr4x8_t(x, inverse, 2, 7), inverse),
        (rc3(r.0), rc3(r.1), rc3(r.2), rc3(r.3), rc3(r.4), rc3(r.5), rc3(r.6), rc3(r.7)) == crate::butterflies::bf8t_spec(mr4x8_t(x, inverse, 3, 0), mr4x8_t(x, inverse, 3, 1), mr4x8_t(x, inverse, 3, 2), mr4x8_t(x, inverse, 3, 3), mr4x8_t(x, inverse, 3, 4), mr4x8_t(x, inverse, 3, 5), mr4x8_t(x, inverse, 3, 6), mr4x8_t(x, inverse, 3, 7), inverse),
        reg_wf(r.0) && reg_wf(r.1) && reg_wf(r.2) && reg_wf(r.3) && reg_wf(r.4) && reg_wf(r.5) && reg_wf(r.6) && reg_wf(r.7),
    {
        let (mid0, mid2, mid4, mid6) = column_butterfly4(input0, input2, input4, input6, self.inverse);
        let (mid1, mid3, mid5, mid7) = column_butterfly4(input1, input3, input5, input7, self.inverse);

        let mid2_twiddled = complex_multiply(mid2, self.twiddles0);
        let mid3_twiddled = complex_multiply(mid3, self.twiddles1);
        let mid4_twiddled = complex_multiply(mid4, self.twiddles2);
        let mid5_twiddled = complex_multiply(mid5, self.twiddles3);
        let mid6_twiddled = complex_multiply(mid6, self.twiddles4);
        let mid7_twiddled = complex_multiply(mid7, self.twiddles5);

        let (transposed0, transposed1, transposed2, transposed3) = transpose_4x4(
            mid0,
            mid2_twiddled,
            mid4_twiddled,
            mid6_twiddled,
        );
        let (transposed4, transposed5, transposed6, transposed7) = transpose_4x4(
            mid1,
            mid3_twiddled,
            mid5_twiddled,
            mid7_twiddled,
        );

        let (output0, output1, output2, output3, output4, output5, output6, output7) =
            column_butterfly8(
            transposed0,
            transposed1,
            transposed2,
            transposed3,
            transposed4,
            transposed5,
            transposed6,
            transposed7,
            self.twiddles_butterfly8,
            self.inverse,
        );
        proof {
            assert((rc0(output0), rc0(output1), rc0(output2), rc0(output3), rc0(output4), rc0(output5), rc0(output6), rc0(output7)) == crate::butterflies::bf8t_spec(mr4x8_t(x, inverse, 0, 0), mr4x8_t(x, inverse, 0, 1), mr4x8_t(x, inverse, 0, 2), mr4x8_t(x, inverse, 0, 3), mr4x8_t(x, inverse, 0, 4), mr4x8_t(x, inverse, 0, 5), mr4x8_t(x, inverse, 0, 6), mr4x8_t(x, inverse, 0, 7), inverse)) by { reveal(mr4x8_t); reveal(mr4x8_m); }
            assert((rc1(output0), rc1(output1), rc1(output2), rc1(output3), rc1(output4), rc1(output5), rc1(output6), rc1(output7)) == crate::butterflies::bf8t_spec(mr4x8_t(x, inverse, 1, 0), mr4x8_t(x, inverse, 1, 1), mr4x8_t(x, inverse, 1, 2), mr4x8_t(x, inverse, 1, 3), mr4x8_t(x, inverse, 1, 4), mr4x8_t(x, inverse, 1, 5), mr4x8_t(x, inverse, 1, 6), mr4x8_t(x, inverse, 1, 7), inverse)) by { reveal(mr4x8_t); reveal(mr4x8_m); }
            assert((rc2(output0), rc2(output1), rc2(output2), rc2(output3), rc2(output4), rc2(output5), rc2(output6), rc2(output7)) == crate::butterflies::bf8t_spec(mr4x8_t(x, inverse, 2, 0), mr4x8_t(x, inverse, 2, 1), mr4x8_t(x, inverse, 2, 2), mr4x8_t(x, inverse, 2, 3), mr4x8_t(x, inverse, 2, 4), mr4x8_t(x, inverse, 2, 5), mr4x8_t(x, inverse, 2, 6), mr4x8_t(x, inverse, 2, 7), inverse)) by { reveal(mr4x8_t); reveal(mr4x8_m); }
            assert((rc3(output0), rc3(output1), rc3(output2), rc3(output3), rc3(output4), rc3(output5), rc3(output6), rc3(output7)) == crate::butterflies::bf8t_spec(mr4x8_t(x, inverse, 3, 0), mr4x8_t(x, inverse, 3, 1), mr4x8_t(x, inverse, 3, 2), mr4x8_t(x, inverse, 3, 3), mr4x8_t(x, inverse, 3, 4), mr4x8_t(x, inverse, 3, 5), mr4x8_t(x, inverse, 3, 6), mr4x8_t(x, inverse, 3, 7), inverse)) by { reveal(mr4x8_t); reveal(mr4x8_m); }
        }
        (output0, output1, output2, output3, output4, output5, output6, output7)
    }

    /// The unrolled 32-point transform, in place.
    #[verifier::rlimit(100)]
    fn process_butterfly32(&self, buffer: &mut [Complex])
        requires
            self.wf(),
            old(buffer)@.len() == 32,
            seq_wf(old(buffer)@),
        ensures
            final(buffer)@ == mr4x8_spec(old(buffer)@, self.inverse),
            seq_wf(final(buffer)@),
    {
        let ghost x = buffer@;
        let input0 = load_reg(buffer, 0);
        let input1 = load_reg(buffer, 4);
        let input2 = load_reg(buffer, 8);
        let input3 = load_reg(buffer, 12);
        let input4 = load_reg(buffer, 16);
        let input5 = load_reg(buffer, 20);
        let input6 = load_reg(buffer, 24);
        let input7 = load_reg(buffer, 28);

        let (output0, output1, output2, output3, output4, output5, output6, output7) = self
            .butterfly32_regs(
            input0,
            input1,
            input2,
            input3,
            input4,
            input5,
            input6,
            input7,
            Ghost(x),
            Ghost(self.spec_inverse()),
        );

        store8(buffer, output0, output1, output2, output3, output4, output5, output6, output7);
        proof {
            assert(buffer@[0] == pick8(crate::butterflies::bf8t_spec(mr4x8_t(x, self.inverse, 0, 0), mr4x8_t(x, self.inverse, 0, 1), mr4x8_t(x, self.inverse, 0, 2), mr4x8_t(x, self.inverse, 0, 3), mr4x8_t(x, self.inverse, 0, 4), mr4x8_t(x, self.inverse, 0, 5), mr4x8_t(x, self.inverse, 0, 6), mr4x8_t(x, self.inverse, 0, 7), self.inverse), 0));
            assert(buffer@[1] == pick8(crate::butterflies::bf8t_spec(mr4x8_t(x, self.inverse, 1, 0), mr4x8_t(x, self.inverse, 1, 1), mr4x8_t(x, self.inverse, 1, 2), mr4x8_t(x, self.inverse, 1, 3), mr4x8_t(x, self.inverse, 1, 4), mr4x8_t(x, self.inverse, 1, 5), mr4x8_t(x, self.inverse, 1, 6), mr4x8_t(x, self.inverse, 1, 7), self.inverse), 0));
            assert(buffer@[2] == pick8(crate::butterflies::bf8t_spec(mr4x8_t(x, self.inverse, 2, 0), mr4x8_t(x, self.inverse, 2, 1), mr4x8_t(x, self.inverse, 2, 2), mr4x8_t(x, self.inverse, 2, 3), mr4x8_t(x, self.inverse, 2, 4), mr4x8_t(x, self.inverse, 2, 5), mr4x8_t(x, self.inverse, 2, 6), mr4x8_t(x, self.inverse, 2, 7), self.inverse), 0));
            assert(buffer@[3] == pick8(crate::butterflies::bf8t_spec(mr4x8_t(x, self.inverse, 3, 0), mr4x8_t(x, self.inverse, 3, 1), mr4x8_t(x, self.inverse, 3, 2), mr4x8_t(x, self.inverse, 3, 3), mr4x8_t(x, self.inverse, 3, 4), mr4x8_t(x, self.inverse, 3, 5), mr4x8_t(x, self.inverse, 3, 6), mr4x8_t(x, self.inverse, 3, 7), self.inverse), 0));
            assert(buffer@[4] == pick8(crate::butterflies::bf8t_spec(mr4x8_t(x, self.inverse, 0, 0), mr4x8_t(x, self.inverse, 0, 1), mr4x8_t(x, self.inverse, 0, 2), mr4x8_t(x, self.inverse, 0, 3), mr4x8_t(x, self.inverse, 0, 4), mr4x8_t(x, self.inverse, 0, 5), mr4x8_t(x, self.inverse, 0, 6), mr4x8_t(x, self.inverse, 0, 7), self.inverse), 1));
            assert(buffer@[5] == pick8(crate::butterflies::bf8t_spec(mr4x8_t(x, self.inverse, 1, 0), mr4x8_t(x, self.inverse, 1, 1), mr4x8_t(x, self.inverse, 1, 2), mr4x8_t(x, self.inverse, 1, 3), mr4x8_t(x, self.inverse, 1, 4), mr4x8_t(x, self.inverse, 1, 5), mr4x8_t(x, self.inverse, 1, 6), mr4x8_t(x, self.inverse, 1, 7), self.inverse), 1));
            assert(buffer@[6] == pick8(crate::butterflies::bf8t_spec(mr4x8_t(x, self.inverse, 2, 0), mr4x8_t(x, self.inverse, 2, 1), mr4x8_t(x, self.inverse, 2, 2), mr4x8_t(x, self.inverse, 2, 3), mr4x8_t(x, self.inverse, 2, 4), mr4x8_t(x, self.inverse, 2, 5), mr4x8_t(x, self.inverse, 2, 6), mr4x8_t(x, self.inverse, 2, 7), self.inverse), 1));
            assert(buffer@[7] == pick8(crate::butterflies::bf8t_spec(mr4x8_t(x, self.inverse, 3, 0), mr4x8_t(x, self.inverse, 3, 1), mr4x8_t(x, self.inverse, 3, 2), mr4x8_t(x, self.inverse, 3, 3), mr4x8_t(x, self.inverse, 3, 4), mr4x8_t(x, self.inverse, 3, 5), mr4x8_t(x, self.inverse, 3, 6), mr4x8_t(x, self.inverse, 3, 7), self.inverse), 1));
            assert(buffer@[8] == pick8(crate::butterflies::bf8t_spec(mr4x8_t(x, self.inverse, 0, 0), mr4x8_t(x, self.inverse, 0, 1), mr4x8_t(x, self.inverse, 0, 2), mr4x8_t(x, self.inverse, 0, 3), mr4x8_t(x, self.inverse, 0, 4), mr4x8_t(x, self.inverse, 0, 5), mr4x8_t(x, self.inverse, 0, 6), mr4x8_t(x, self.inverse, 0, 7), self.inverse), 2));
            assert(buffer@[9] == pick8(crate::butterflies::bf8t_spec(mr4x8_t(x, self.inverse, 1, 0), mr4x8_t(x, self.inverse, 1, 1), mr4x8_t(x, self.inverse, 1, 2), mr4x8_t(x, self.inverse, 1, 3), mr4x8_t(x, self.inverse, 1, 4), mr4x8_t(x, self.inverse, 1, 5), mr4x8_t(x, self.inverse, 1, 6), mr4x8_t(x, self.inverse, 1, 7), self.inverse), 2));
            assert(buffer@[10] == pick8(crate::butterflies::bf8t_spec(mr4x8_t(x, self.inverse, 2, 0), mr4x8_t(x, self.inverse, 2, 1), mr4x8_t(x, self.inverse, 2, 2), mr4x8_t(x, self.inverse, 2, 3), mr4x8_t(x, self.inverse, 2, 4), mr4x8_t(x, self.inverse, 2, 5), mr4x8_t(x, self.inverse, 2, 6), mr4x8_t(x, self.inverse, 2, 7), self.inverse), 2));
            assert(buffer@[11] == pick8(crate::butterflies::bf8t_spec(mr4x8_t(x, self.inverse, 3, 0), mr4x8_t(x, self.inverse, 3, 1), mr4x8_t(x, self.inverse, 3, 2), mr4x8_t(x, self.inverse, 3, 3), mr4x8_t(x, self.inverse, 3, 4), mr4x8_t(x, self.inverse, 3, 5), mr4x8_t(x, self.inverse, 3, 6), mr4x8_t(x, self.inverse, 3, 7), self.inverse), 2));
            assert(buffer@[12] == pick8(crate::butterflies::bf8t_spec(mr4x8_t(x, self.inverse, 0, 0), mr4x8_t(x, self.inverse, 0, 1), mr4x8_t(x, self.inverse, 0, 2), mr4x8_t(x, self.inverse, 0, 3), mr4x8_t(x, self.inverse, 0, 4), mr4x8_t(x, self.inverse, 0, 5), mr4x8_t(x, self.inverse, 0, 6), mr4x8_t(x, self.inverse, 0, 7), self.inverse), 3));
            assert(buffer@[13] == pick8(crate::butterflies::bf8t_spec(mr4x8_t(x, self.inverse, 1, 0), mr4x8_t(x, self.inverse, 1, 1), mr4x8_t(x, self.inverse, 1, 2), mr4x8_t(x, self.inverse, 1, 3), mr4x8_t(x, self.inverse, 1, 4), mr4x8_t(x, self.inverse, 1, 5), mr4x8_t(x, self.inverse, 1, 6), mr4x8_t(x, self.inverse, 1, 7), self.inverse), 3));
            assert(buffer@[14] == pick8(crate::butterflies::bf8t_spec(mr4x8_t(x, self.inverse, 2, 0), mr4x8_t(x, self.inverse, 2, 1), mr4x8_t(x, self.inverse, 2, 2), mr4x8_t(x, self.inverse, 2, 3), mr4x8_t(x, self.inverse, 2, 4), mr4x8_t(x, self.inverse, 2, 5), mr4x8_t(x, self.inverse, 2, 6), mr4x8_t(x, self.inverse, 2, 7), self.inverse), 3));
            assert(buffer@[15] == pick8(crate::butterflies::bf8t_spec(mr4x8_t(x, self.inverse, 3, 0), mr4x8_t(x, self.inverse, 3, 1), mr4x8_t(x, self.inverse, 3, 2), mr4x8_t(x, self.inverse, 3, 3), mr4x8_t(x, self.inverse, 3, 4), mr4x8_t(x, self.inverse, 3, 5), mr4x8_t(x, self.inverse, 3, 6), mr4x8_t(x, self.inverse, 3, 7), self.inverse), 3));
            assert(buffer@[16] == pick8(crate::butterflies::bf8t_spec(mr4x8_t(x, self.inverse, 0, 0), mr4x8_t(x, self.inverse, 0, 1), mr4x8_t(x, self.inverse, 0, 2), mr4x8_t(x, self.inverse, 0, 3), mr4x8_t(x, self.inverse, 0, 4), mr4x8_t(x, self.inverse, 0, 5), mr4x8_t(x, self.inverse, 0, 6), mr4x8_t(x, self.inverse, 0, 7), self.inverse), 4));
            assert(buffer@[17] == pick8(crate::butterflies::bf8t_spec(mr4x8_t(x, self.inverse, 1, 0), mr4x8_t(x, self.inverse, 1, 1), mr4x8_t(x, self.inverse, 1, 2), mr4x8_t(x, self.inverse, 1, 3), mr4x8_t(x, self.inverse, 1, 4), mr4x8_t(x, self.inverse, 1, 5), mr4x8_t(x, self.inverse, 1, 6), mr4x8_t(x, self.inverse, 1, 7), self.inverse), 4));
            assert(buffer@[18] == pick8(crate::butterflies::bf8t_spec(mr4x8_t(x, self.inverse, 2, 0), mr4x8_t(x, self.inverse, 2, 1), mr4x8_t(x, self.inverse, 2, 2), mr4x8_t(x, self.inverse, 2, 3), mr4x8_t(x, self.inverse, 2, 4), mr4x8_t(x, self.inverse, 2, 5), mr4x8_t(x, self.inverse, 2, 6), mr4x8_t(x, self.inverse, 2, 7), self.inverse), 4));
            assert(buffer@[19] == pick8(crate::butterflies::bf8t_spec(mr4x8_t(x, self.inverse, 3, 0), mr4x8_t(x, self.inverse, 3, 1), mr4x8_t(x, self.inverse, 3, 2), mr4x8_t(x, self.inverse, 3, 3), mr4x8_t(x, self.inverse, 3, 4), mr4x8_t(x, self.inverse, 3, 5), mr4x8_t(x, self.inverse, 3, 6), mr4x8_t(x, self.inverse, 3, 7), self.inverse), 4));
            assert(buffer@[20] == pick8(crate::butterflies::bf8t_spec(mr4x8_t(x, self.inverse, 0, 0), mr4x8_t(x, self.inverse, 0, 1), mr4x8_t(x, self.inverse, 0, 2), mr4x8_t(x, self.inverse, 0, 3), mr4x8_t(x, self.inverse, 0, 4), mr4x8_t(x, self.inverse, 0, 5), mr4x8_t(x, self.inverse, 0, 6), mr4x8_t(x, self.inverse, 0, 7), self.inverse), 5));
            assert(buffer@[21] == pick8(crate::butterflies::bf8t_spec(mr4x8_t(x, self.inverse, 1, 0), mr4x8_t(x, self.inverse, 1, 1), mr4x8_t(x, self.inverse, 1, 2), mr4x8_t(x, self.inverse, 1, 3), mr4x8_t(x, self.inverse, 1, 4), mr4x8_t(x, self.inverse, 1, 5), mr4x8_t(x, self.inverse, 1, 6), mr4x8_t(x, self.inverse, 1, 7), self.inverse), 5));
            assert(buffer@[22] == pick8(crate::butterflies::bf8t_spec(mr4x8_t(x, self.inverse, 2, 0), mr4x8_t(x, self.inverse, 2, 1), mr4x8_t(x, self.inverse, 2, 2), mr4x8_t(x, self.inverse, 2, 3), mr4x8_t(x, self.inverse, 2, 4), mr4x8_t(x, self.inverse, 2, 5), mr4x8_t(x, self.inverse, 2, 6), mr4x8_t(x, self.inverse, 2, 7), self.inverse), 5));
            assert(buffer@[23] == pick8(crate::butterflies::bf8t_spec(mr4x8_t(x, self.inverse, 3, 0), mr4x8_t(x, self.inverse, 3, 1), mr4x8_t(x, self.inverse, 3, 2), mr4x8_t(x, self.inverse, 3, 3), mr4x8_t(x, self.inverse, 3, 4), mr4x8_t(x, self.inverse, 3, 5), mr4x8_t(x, self.inverse, 3, 6), mr4x8_t(x, self.inverse, 3, 7), self.inverse), 5));
            assert(buffer@[24] == pick8(crate::butterflies::bf8t_spec(mr4x8_t(x, self.inverse, 0, 0), mr4x8_t(x, self.inverse, 0, 1), mr4x8_t(x, self.inverse, 0, 2), mr4x8_t(x, self.inverse, 0, 3), mr4x8_t(x, self.inverse, 0, 4), mr4x8_t(x, self.inverse, 0, 5), mr4x8_t(x, self.inverse, 0, 6), mr4x8_t(x, self.inverse, 0, 7), self.inverse), 6));
            assert(buffer@[25] == pick8(crate::butterflies::bf8t_spec(mr4x8_t(x, self.inverse, 1, 0), mr4x8_t(x, self.inverse, 1, 1), mr4x8_t(x, self.inverse, 1, 2), mr4x8_t(x, self.inverse, 1, 3), mr4x8_t(x, self.inverse, 1, 4), mr4x8_t(x, self.inverse, 1, 5), mr4x8_t(x, self.inverse, 1, 6), mr4x8_t(x, self.inverse, 1, 7), self.inverse), 6));
            assert(buffer@[26] == pick8(crate::butterflies::bf8t_spec(mr4x8_t(x, self.inverse, 2, 0), mr4x8_t(x, self.inverse, 2, 1), mr4x8_t(x, self.inverse, 2, 2), mr4x8_t(x, self.inverse, 2, 3), mr4x8_t(x, self.inverse, 2, 4), mr4x8_t(x, self.inverse, 2, 5), mr4x8_t(x, self.inverse, 2, 6), mr4x8_t(x, self.inverse, 2, 7), self.inverse), 6));
            assert(buffer@[27] == pick8(crate::butterflies::bf8t_spec(mr4x8_t(x, self.inverse, 3, 0), mr4x8_t(x, self.inverse, 3, 1), mr4x8_t(x, self.inverse, 3, 2), mr4x8_t(x, self.inverse, 3, 3), mr4x8_t(x, self.inverse, 3, 4), mr4x8_t(x, self.inverse, 3, 5), mr4x8_t(x, self.inverse, 3, 6), mr4x8_t(x, self.inverse, 3, 7), self.inverse), 6));
            assert(buffer@[28] == pick8(crate::butterflies::bf8t_spec(mr4x8_t(x, self.inverse, 0, 0), mr4x8_t(x, self.inverse, 0, 1), mr4x8_t(x, self.inverse, 0, 2), mr4x8_t(x, self.inverse, 0, 3), mr4x8_t(x, self.inverse, 0, 4), mr4x8_t(x, self.inverse, 0, 5), mr4x8_t(x, self.inverse, 0, 6), mr4x8_t(x, self.inverse, 0, 7), self.inverse), 7));
            assert(buffer@[29] == pick8(crate::butterflies::bf8t_spec(mr4x8_t(x, self.inverse, 1, 0), mr4x8_t(x, self.inverse, 1, 1), mr4x8_t(x, self.inverse, 1, 2), mr4x8_t(x, self.inverse, 1, 3), mr4x8_t(x, self.inverse, 1, 4), mr4x8_t(x, self.inverse, 1, 5), mr4x8_t(x, self.inverse, 1, 6), mr4x8_t(x, self.inverse, 1, 7), self.inverse), 7));
            assert(buffer@[30] == pick8(crate::butterflies::bf8t_spec(mr4x8_t(x, self.inverse, 2, 0), mr4x8_t(x, self.inverse, 2, 1), mr4x8_t(x, self.inverse, 2, 2), mr4x8_t(x, self.inverse, 2, 3), mr4x8_t(x, self.inverse, 2, 4), mr4x8_t(x, self.inverse, 2, 5), mr4x8_t(x, self.inverse, 2, 6), mr4x8_t(x, self.inverse, 2, 7), self.inverse), 7));
            assert(buffer@[31] == pick8(crate::butterflies::bf8t_spec(mr4x8_t(x, self.inverse, 3, 0), mr4x8_t(x, self.inverse, 3, 1), mr4x8_t(x, self.inverse, 3, 2), mr4x8_t(x, self.inverse, 3, 3), mr4x8_t(x, self.inverse, 3, 4), mr4x8_t(x, self.inverse, 3, 5), mr4x8_t(x, self.inverse, 3, 6), mr4x8_t(x, self.inverse, 3, 7), self.inverse), 7));
            assert(buffer@ =~= mr4x8_spec(x, self.inverse)) by { reveal(mr4x8_spec); }
        }
    }
}

impl FftInline for MixedRadixAvx4x8 {
    open spec fn wf(&self) -> bool {
        &&& reg_wf(self.twiddles_butterfly8)
        &&& crate::vector_butterflies::w8_packed(self.twiddles_butterfly8, self.inverse)
        &&& reg_wf(self.twiddles0)
        &&& rc0(self.twiddles0) == twiddle_spec(0, 32, self.inverse)
        &&& rc1(self.twiddles0) == twiddle_spec(1, 32, self.inverse)
        &&& rc2(self.twiddles0) == twiddle_spec(2, 32, self.inverse)
        &&& rc3(self.twiddles0) == twiddle_spec(3, 32, self.inverse)
        &&& reg_wf(self.twiddles1)
        &&& rc0(self.twiddles1) == twiddle_spec(4, 32, self.inverse)
        &&& rc1(self.twiddles1) == twiddle_spec(5, 32, self.inverse)
        &&& rc2(self.twiddles1) == twiddle_spec(6, 32, self.inverse)
        &&& rc3(self.twiddles1) == twiddle_spec(7, 32, self.inverse)
        &&& reg_wf(self.twiddles2)
        &&& rc0(self.twiddles2) == twiddle_spec(0, 32, self.inverse)
        &&& rc1(self.twiddles2) == twiddle_spec(2, 32, self.inverse)
        &&& rc2(self.twiddles2) == twiddle_spec(4, 32, self.inverse)
        &&& rc3(self.twiddles2) == twiddle_spec(6, 32, self.inverse)
        &&& reg_wf(self.twiddles3)
        &&& rc0(self.twiddles3) == twiddle_spec(8, 32, self.inverse)
        &&& rc1(self.twiddles3) == twiddle_spec(10, 32, self.inverse)
        &&& rc2(self.twiddles3) == twiddle_spec(12, 32, self.inverse)
        &&& rc3(self.twiddles3) == twiddle_spec(14, 32, self.inverse)
        &&& reg_wf(self.twiddles4)
        &&& rc0(self.twiddles4) == twiddle_spec(0, 32, self.inverse)
        &&& rc1(self.twiddles4) == twiddle_spec(3, 32, self.inverse)
        &&& rc2(self.twiddles4) == twiddle_spec(6, 32, self.inverse)
        &&& rc3(self.twiddles4) == twiddle_spec(9, 32, self.inverse)
        &&& reg_wf(self.twiddles5)
        &&& rc0(self.twiddles5) == twiddle_spec(12, 32, self.inverse)
        &&& rc1(self.twiddles5) == twiddle_spec(15, 32, self.inverse)
        &&& rc2(self.twiddles5) == twiddle_spec(18, 32, self.inverse)
        &&& rc3(self.twiddles5) == twiddle_spec(21, 32, self.inverse)
    }

    open spec fn spec_len(&self) -> nat {
        32
    }

    open spec fn spec_inverse(&self) -> bool {
        self.inverse
    }

    open spec fn spec_scratch_len(&self) -> nat {
        0
    }

    open spec fn apply(&self, x: Seq<Complex>) -> Seq<Complex> {
        mr4x8_spec(x, self.inverse)
    }

    proof fn lemma_apply_shape(&self, x: Seq<Complex>) {
        reveal(mr4x8_spec);
    }

    fn len(&self) -> (r: usize) {
        32
    }

    fn is_inverse(&self) -> (r: bool) {
        self.inverse
    }

    fn get_required_scratch_len(&self) -> (r: usize) {
        0
    }

    fn process_inline(&self, buffer: &mut [Complex], scratch: &mut [Complex]) {
        self.process_butterfly32(buffer);
    }
}

/// Stores eight registers at stride eight from `base`, sample by sample.
#[verifier::rlimit(100)]
fn store8_strided(buffer: &mut [Complex], base: usize, r0: Reg, r1: Reg, r2: Reg, r3: Reg, r4: Reg, r5: Reg, r6: Reg, r7: Reg)
    requires
        old(buffer)@.len() == 64,
        base + 60 <= 64,
        seq_wf(old(buffer)@),
        reg_wf(r0) && reg_wf(r1) && reg_wf(r2) && reg_wf(r3) && reg_wf(r4) && reg_wf(r5) && reg_wf(r6) && reg_wf(r7),
    ensures
        final(buffer)@.len() == 64,
        seq_wf(final(buffer)@),
        forall|j: int|
            #![trigger final(buffer)@[j]]
            0 <= j < 64 && !(base <= j && (j - base) % 8 < 4) ==> final(buffer)@[j] == old(
                buffer,
            )@[j],
        final(buffer)@[base + 0] == rc0(r0),
        final(buffer)@[base + 1] == rc1(r0),
        final(buffer)@[base + 2] == rc2(r0),
        final(buffer)@[base + 3] == rc3(r0),
        final(buffer)@[base + 8] == rc0(r1),
        final(buffer)@[base + 9] == rc1(r1),
        final(buffer)@[base + 10] == rc2(r1),
        final(buffer)@[base + 11] == rc3(r1),
        final(buffer)@[base + 16] == rc0(r2),
        final(buffer)@[base + 17] == rc1(r2),
        final(buffer)@[base + 18] == rc2(r2),
        final(buffer)@[base + 19] == rc3(r2),
        final(buffer)@[base + 24] == rc0(r3),
        final(buffer)@[base + 25] == rc1(r3),
        final(buffer)@[base + 26] == rc2(r3),
        final(buffer)@[base + 27] == rc3(r3),
        final(buffer)@[base + 32] == rc0(r4),
        final(buffer)@[base + 33] == rc1(r4),
        final(buffer)@[base + 34] == rc2(r4),
        final(buffer)@[base + 35] == rc3(r4),
        final(buffer)@[base + 40] == rc0(r5),
        final(buffer)@[base + 41] == rc1(r5),
        final(buffer)@[base + 42] == rc2(r5),
        final(buffer)@[base + 43] == rc3(r5),
        final(buffer)@[base + 48] == rc0(r6),
        final(buffer)@[base + 49] == rc1(r6),
        final(buffer)@[base + 50] == rc2(r6),
        final(buffer)@[base + 51] == rc3(r6),
        final(buffer)@[base + 56] == rc0(r7),
        final(buffer)@[base + 57] == rc1(r7),
        final(buffer)@[base + 58] == rc2(r7),
        final(buffer)@[base + 59] == rc3(r7),
{
    store_reg(buffer, base + 0, r0);
    store_reg(buffer, base + 8, r1);
    store_reg(buffer, base + 16, r2);
    store_reg(buffer, base + 24, r3);
    store_reg(buffer, base + 32, r4);
    store_reg(buffer, base + 40, r5);
    store_reg(buffer, base + 48, r6);
    store_reg(buffer, base + 56, r7);
}


/// Row `r` of the column 8-point transforms of the 8x8 grid laid over `x`.
#[verifier::opaque]
pub open spec fn mr8x8_m(x: Seq<Complex>, inverse: bool, r: int, c: int) -> Complex {
    pick8(
        crate::butterflies::bf8t_spec(
            x[c],
            x[c + 8],
            x[c + 16],
            x[c + 24],
            x[c + 32],
            x[c + 40],
            x[c + 48],
            x[c + 56],
            inverse,
        ),
        r,
    )
}

/// The twiddled 8x8 grid: row `r`, column `c` carries `W_64^(r*c)`.
#[verifier::opaque]
pub open spec fn mr8x8_t(x: Seq<Complex>, inverse: bool, r: int, c: int) -> Complex {
    if r == 0 {
        mr8x8_m(x, inverse, 0, c)
    } else {
        c_mul(mr8x8_m(x, inverse, r, c), twiddle_spec((r * c) as nat, 64, inverse))
    }
}

/// The size-64 kernel's function: column 8-point transforms down the 8x8
/// grid, the twiddles `W_64^(r*c)`, a transpose, then 8-point transforms
/// down the transposed columns.
#[verifier::opaque]
pub open spec fn mr8x8_spec(x: Seq<Complex>, inverse: bool) -> Seq<Complex>
    recommends
        x.len() == 64,
{
    Seq::new(
        64,
        |idx: int|
            pick8(
                crate::butterflies::bf8t_spec(
                    mr8x8_t(x, inverse, idx % 8, 0),
                    mr8x8_t(x, inverse, idx % 8, 1),
                    mr8x8_t(x, inverse, idx % 8, 2),
                    mr8x8_t(x, inverse, idx % 8, 3),
                    mr8x8_t(x, inverse, idx % 8, 4),
                    mr8x8_t(x, inverse, idx % 8, 5),
                    mr8x8_t(x, inverse, idx % 8, 6),
                    mr8x8_t(x, inverse, idx % 8, 7),
                    inverse,
                ),
                idx / 8,
            ),
    )
}

/// The size-64 kernel: an 8x8 mixed-radix transform executed in two halves
/// to respect the sixteen-register budget of the choreography it mirrors.
pub struct MixedRadixAvx8x8 {
    pub twiddles0: Reg,
    pub twiddles1: Reg,
    pub twiddles2: Reg,
    pub twiddles3: Reg,
    pub twiddles4: Reg,
    pub twiddles5: Reg,
    pub twiddles6: Reg,
    pub twiddles7: Reg,
    pub twiddles8: Reg,
    pub twiddles9: Reg,
    pub twiddles10: Reg,
    pub twiddles11: Reg,
    pub twiddles12: Reg,
    pub twiddles13: Reg,
    pub twiddles_butterfly8: Reg,
    pub inverse: bool,
}

impl MixedRadixAvx8x8 {
    /// Builds the kernel when the required vector capabilities are present,
    /// and reports failure otherwise.
    pub fn new(inverse: bool, support: SimdSupport) -> (r: Result<MixedRadixAvx8x8, ()>)
        ensures
            r is Ok <==> support.avx && support.fma,
            r matches Ok(k) ==> k.wf() && k.spec_inverse() == inverse,
    {
        if support.avx && support.fma {
            Ok(Self::new_with_avx(inverse))
        } else {
            Err(())
        }
    }

    /// Precomputes the fourteen packed twiddle rows `W_64^(r*c)` and the
    /// packed `W_8` vector of the 8-point column butterfly.
    pub fn new_with_avx(inverse: bool) -> (r: MixedRadixAvx8x8)
        ensures
            r.wf(),
            r.spec_inverse() == inverse,
    {
        let twiddles0 = pack_reg(
            single_twiddle(0, 64, inverse),
            single_twiddle(1, 64, inverse),
            single_twiddle(2, 64, inverse),
            single_twiddle(3, 64, inverse),
        );
        let twiddles1 = pack_reg(
            single_twiddle(4, 64, inverse),
            single_twiddle(5, 64, inverse),
            single_twiddle(6, 64, inverse),
            single_twiddle(7, 64, inverse),
        );
        let twiddles2 = pack_reg(
            single_twiddle(0, 64, inverse),
            single_twiddle(2, 64, inverse),
            single_twiddle(4, 64, inverse),
            single_twiddle(6, 64, inverse),
        );
        let twiddles3 = pack_reg(
            single_twiddle(8, 64, inverse),
            single_twiddle(10, 64, inverse),
            single_twiddle(12, 64, inverse),
            single_twiddle(14, 64, inverse),
        );
        let twiddles4 = pack_reg(
            single_twiddle(0, 64, inverse),
            single_twiddle(3, 64, inverse),
            single_twiddle(6, 64, inverse),
            single_twiddle(9, 64, inverse),
        );
        let twiddles5 = pack_reg(
            single_twiddle(12, 64, inverse),
            single_twiddle(15, 64, inverse),
            single_twiddle(18, 64, inverse),
            single_twiddle(21, 64, inverse),
        );
        let twiddles6 = pack_reg(
            single_twiddle(0, 64, inverse),
            single_twiddle(4, 64, inverse),
            single_twiddle(8, 64, inverse),
            single_twiddle(12, 64, inverse),
        );
        let twiddles7 = pack_reg(
            single_twiddle(16, 64, inverse),
            single_twiddle(20, 64, inverse),
            single_twiddle(24, 64, inverse),
            single_twiddle(28, 64, inverse),
        );
        let twiddles8 = pack_reg(
            single_twiddle(0, 64, inverse),
            single_twiddle(5, 64, inverse),
            single_twiddle(10, 64, inverse),
            single_twiddle(15, 64, inverse),
        );
        let twiddles9 = pack_reg(
            single_twiddle(20, 64, inverse),
            single_twiddle(25, 64, inverse),
            single_twiddle(30, 64, inverse),
            single_twiddle(35, 64, inverse),
        );
        let twiddles10 = pack_reg(
            single_twiddle(0, 64, inverse),
            single_twiddle(6, 64, inverse),
            single_twiddle(12, 64, inverse),
            single_twiddle(18, 64, inverse),
        );
        let twiddles11 = pack_reg(
            single_twiddle(24, 64, inverse),
            single_twiddle(30, 64, inverse),
            single_twiddle(36, 64, inverse),
            single_twiddle(42, 64, inverse),
        );
        let twiddles12 = pack_reg(
            single_twiddle(0, 64, inverse),
            single_twiddle(7, 64, inverse),
            single_twiddle(14, 64, inverse),
            single_twiddle(21, 64, inverse),
        );
        let twiddles13 = pack_reg(
            single_twiddle(28, 64, inverse),
            single_twiddle(35, 64, inverse),
            single_twiddle(42, 64, inverse),
            single_twiddle(49, 64, inverse),
        );
        let w8 = single_twiddle(1, 8, inverse);
        let twiddles_butterfly8 = pack_reg(w8, w8, w8, w8);
        MixedRadixAvx8x8 {
            twiddles0,
            twiddles1,
            twiddles2,
            twiddles3,
            twiddles4,
            twiddles5,
            twiddles6,
            twiddles7,
            twiddles8,
            twiddles9,
            twiddles10,
            twiddles11,
            twiddles12,
            twiddles13,
            twiddles_butterfly8,
            inverse,
        }
    }

    /// The column stage of the 64-point transform on one four-column half:
    /// packed 8-point column butterflies, then the twiddle grid rows.
    #[verifier::rlimit(100)]
    #[verifier::spinoff_prover]
    fn butterfly64_cols_even(
        &self,
        input0: Reg, input1: Reg, input2: Reg, input3: Reg, input4: Reg, input5: Reg, input6: Reg, input7: Reg,
        tw1: Reg, tw2: Reg, tw3: Reg, tw4: Reg, tw5: Reg, tw6: Reg, tw7: Reg,
        Ghost(x): Ghost<Seq<Complex>>,
    ) -> (r: (Reg, Reg, Reg, Reg, Reg, Reg, Reg, Reg))
        requires
            self.wf(),
            x.len() == 64,
            reg_wf(input0) && reg_wf(input1) && reg_wf(input2) && reg_wf(input3) && reg_wf(input4) && reg_wf(input5) && reg_wf(input6) && reg_wf(input7),
            rc0(input0) == x[0],
            rc1(input0) == x[1],
            rc2(input0) == x[2],
            rc3(input0) == x[3],
            rc0(input1) == x[8],
            rc1(input1) == x[9],
            rc2(input1) == x[10],
            rc3(input1) == x[11],
            rc0(input2) == x[16],
            rc1(input2) == x[17],
            rc2(input2) == x[18],
            rc3(input2) == x[19],
            rc0(input3) == x[24],
            rc1(input3) == x[25],
            rc2(input3) == x[26],
            rc3(input3) == x[27],
            rc0(input4) == x[32],
            rc1(input4) == x[33],
            rc2(input4) == x[34],
            rc3(input4) == x[35],
            rc0(input5) == x[40],
            rc1(input5) == x[41],
            rc2(input5) == x[42],
            rc3(input5) == x[43],
            rc0(input6) == x[48],
            rc1(input6) == x[49],
            rc2(input6) == x[50],
            rc3(input6) == x[51],
            rc0(input7) == x[56],
            rc1(input7) == x[57],
            rc2(input7) == x[58],
            rc3(input7) == x[59],
            reg_wf(tw1),
            rc0(tw1) == twiddle_spec(1*0, 64, self.spec_inverse()),
            rc1(tw1) == twiddle_spec(1*1, 64, self.spec_inverse()),
            rc2(tw1) == twiddle_spec(1*2, 64, self.spec_inverse()),
            rc3(tw1) == twiddle_spec(1*3, 64, self.spec_inverse()),
            reg_wf(tw2),
            rc0(tw2) == twiddle_spec(2*0, 64, self.spec_inverse()),
            rc1(tw2) == twiddle_spec(2*1, 64, self.spec_inverse()),
            rc2(tw2) == twiddle_spec(2*2, 64, self.spec_inverse()),
            rc3(tw2) == twiddle_spec(2*3, 64, self.spec_inverse()),
            reg_wf(tw3),
            rc0(tw3) == twiddle_spec(3*0, 64, self.spec_inverse()),
            rc1(tw3) == twiddle_spec(3*1, 64, self.spec_inverse()),
            rc2(tw3) == twiddle_spec(3*2, 64, self.spec_inverse()),
            rc3(tw3) == twiddle_spec(3*3, 64, self.spec_inverse()),
            reg_wf(tw4),
            rc0(tw4) == twiddle_spec(4*0, 64, self.spec_inverse()),
            rc1(tw4) == twiddle_spec(4*1, 64, self.spec_inverse()),
            rc2(tw4) == twiddle_spec(4*2, 64, self.spec_inverse()),
            rc3(tw4) == twiddle_spec(4*3, 64, self.spec_inverse()),
            reg_wf(tw5),
            rc0(tw5) == twiddle_spec(5*0, 64, self.spec_inverse()),
            rc1(tw5) == twiddle_spec(5*1, 64, self.spec_inverse()),
            rc2(tw5) == twiddle_spec(5*2, 64, self.spec_inverse()),
            rc3(tw5) == twiddle_spec(5*3, 64, self.spec_inverse()),
            reg_wf(tw6),
            rc0(tw6) == twiddle_spec(6*0, 64, self.spec_inverse()),
            rc1(tw6) == twiddle_spec(6*1, 64, self.spec_inverse()),
            rc2(tw6) == twiddle_spec(6*2, 64, self.spec_inverse()),
            rc3(tw6) == twiddle_spec(6*3, 64, self.spec_inverse()),
            reg_wf(tw7),
            rc0(tw7) == twiddle_spec(7*0, 64, self.spec_inverse()),
            rc1(tw7) == twiddle_spec(7*1, 64, self.spec_inverse()),
            rc2(tw7) == twiddle_spec(7*2, 64, self.spec_inverse()),
            rc3(tw7) == twiddle_spec(7*3, 64, self.spec_inverse()),
        ensures
            (rc0(r.0), rc0(r.1), rc0(r.2), rc0(r.3), rc0(r.4), rc0(r.5), rc0(r.6), rc0(r.7)) == (mr8x8_t(x, self.spec_inverse(), 0, 0), mr8x8_t(x, self.spec_inverse(), 1, 0), mr8x8_t(x, self.spec_inverse(), 2, 0), mr8x8_t(x, self.spec_inverse(), 3, 0), mr8x8_t(x, self.spec_inverse(), 4, 0), mr8x8_t(x, self.spec_inverse(), 5, 0), mr8x8_t(x, self.spec_inverse(), 6, 0), mr8x8_t(x, self.spec_inverse(), 7, 0)),
            (rc1(r.0), rc1(r.1), rc1(r.2), rc1(r.3), rc1(r.4), rc1(r.5), rc1(r.6), rc1(r.7)) == (mr8x8_t(x, self.spec_inverse(), 0, 1), mr8x8_t(x, self.spec_inverse(), 1, 1), mr8x8_t(x, self.spec_inverse(), 2, 1), mr8x8_t(x, self.spec_inverse(), 3, 1), mr8x8_t(x, self.spec_inverse(), 4, 1), mr8x8_t(x, self.spec_inverse(), 5, 1), mr8x8_t(x, self.spec_inverse(), 6, 1), mr8x8_t(x, self.spec_inverse(), 7, 1)),
            (rc2(r.0), rc2(r.1), rc2(r.2), rc2(r.3), rc2(r.4), rc2(r.5), rc2(r.6), rc2(r.7)) == (mr8x8_t(x, self.spec_inverse(), 0, 2), mr8x8_t(x, self.spec_inverse(), 1, 2), mr8x8_t(x, self.spec_inverse(), 2, 2), mr8x8_t(x, self.spec_inverse(), 3, 2), mr8x8_t(x, self.spec_inverse(), 4, 2), mr8x8_t(x, self.spec_inverse(), 5, 2), mr8x8_t(x, self.spec_inverse(), 6, 2), mr8x8_t(x, self.spec_inverse(), 7, 2)),
            (rc3(r.0), rc3(r.1), rc3(r.2), rc3(r.3), rc3(r.4), rc3(r.5), rc3(r.6), rc3(r.7)) == (mr8x8_t(x, self.spec_inverse(), 0, 3), mr8x8_t(x, self.spec_inverse(), 1, 3), mr8x8_t(x, self.spec_inverse(), 2, 3), mr8x8_t(x, self.spec_inverse(), 3, 3), mr8x8_t(x, self.spec_inverse(), 4, 3), mr8x8_t(x, self.spec_inverse(), 5, 3), mr8x8_t(x, self.spec_inverse(), 6, 3), mr8x8_t(x, self.spec_inverse(), 7, 3)),
            reg_wf(r.0) && reg_wf(r.1) && reg_wf(r.2) && reg_wf(r.3) && reg_wf(r.4) && reg_wf(r.5) && reg_wf(r.6) && reg_wf(r.7),
    {
        let (mid0, mid1, mid2, mid3, mid4, mid5, mid6, mid7) = column_butterfly8(
            input0,
            input1,
            input2,
            input3,
            input4,
            input5,
            input6,
            input7,
            self.twiddles_butterfly8,
            self.inverse,
        );
        let mid1_twiddled = complex_multiply(mid1, tw1);
        let mid2_twiddled = complex_multiply(mid2, tw2);
        let mid3_twiddled = complex_multiply(mid3, tw3);
        let mid4_twiddled = complex_multiply(mid4, tw4);
        let mid5_twiddled = complex_multiply(mid5, tw5);
        let mid6_twiddled = complex_multiply(mid6, tw6);
        let mid7_twiddled = complex_multiply(mid7, tw7);
        proof {
            assert(rc0(mid0) == mr8x8_t(x, self.spec_inverse(), 0, 0)) by { reveal(mr8x8_t); reveal(mr8x8_m); }
            assert(rc1(mid0) == mr8x8_t(x, self.spec_inverse(), 0, 1)) by { reveal(mr8x8_t); reveal(mr8x8_m); }
            assert(rc2(mid0) == mr8x8_t(x, self.spec_inverse(), 0, 2)) by { reveal(mr8x8_t); reveal(mr8x8_m); }
            assert(rc3(mid0) == mr8x8_t(x, self.spec_inverse(), 0, 3)) by { reveal(mr8x8_t); reveal(mr8x8_m); }
            assert(rc0(mid1_twiddled) == mr8x8_t(x, self.spec_inverse(), 1, 0)) by { reveal(mr8x8_t); reveal(mr8x8_m); }
            assert(rc1(mid1_twiddled) == mr8x8_t(x, self.spec_inverse(), 1, 1)) by { reveal(mr8x8_t); reveal(mr8x8_m); }
            assert(rc2(mid1_twiddled) == mr8x8_t(x, self.spec_inverse(), 1, 2)) by { reveal(mr8x8_t); reveal(mr8x8_m); }
            assert(rc3(mid1_twiddled) == mr8x8_t(x, self.spec_inverse(), 1, 3)) by { reveal(mr8x8_t); reveal(mr8x8_m); }
            assert(rc0(mid2_twiddled) == mr8x8_t(x, self.spec_inverse(), 2, 0)) by { reveal(mr8x8_t); reveal(mr8x8_m); }
            assert(rc1(mid2_twiddled) == mr8x8_t(x, self.spec_inverse(), 2, 1)) by { reveal(mr8x8_t); reveal(mr8x8_m); }
            assert(rc2(mid2_twiddled) == mr8x8_t(x, self.spec_inverse(), 2, 2)) by { reveal(mr8x8_t); reveal(mr8x8_m); }
            assert(rc3(mid2_twiddled) == mr8x8_t(x, self.spec_inverse(), 2, 3)) by { reveal(mr8x8_t); reveal(mr8x8_m); }
            assert(rc0(mid3_twiddled) == mr8x8_t(x, self.spec_inverse(), 3, 0)) by { reveal(mr8x8_t); reveal(mr8x8_m); }
            assert(rc1(mid3_twiddled) == mr8x8_t(x, self.spec_inverse(), 3, 1)) by { reveal(mr8x8_t); reveal(mr8x8_m); }
            assert(rc2(mid3_twiddled) == mr8x8_t(x, self.spec_inverse(), 3, 2)) by { reveal(mr8x8_t); reveal(mr8x8_m); }
            assert(rc3(mid3_twiddled) == mr8x8_t(x, self.spec_inverse(), 3, 3)) by { reveal(mr8x8_t); reveal(mr8x8_m); }
            assert(rc0(mid4_twiddled) == mr8x8_t(x, self.spec_inverse(), 4, 0)) by { reveal(mr8x8_t); reveal(mr8x8_m); }
            assert(rc1(mid4_twiddled) == mr8x8_t(x, self.spec_inverse(), 4, 1)) by { reveal(mr8x8_t); reveal(mr8x8_m); }
            assert(rc2(mid4_twiddled) == mr8x8_t(x, self.spec_inverse(), 4, 2)) by { reveal(mr8x8_t); reveal(mr8x8_m); }
            assert(rc3(mid4_twiddled) == mr8x8_t(x, self.spec_inverse(), 4, 3)) by { reveal(mr8x8_t); reveal(mr8x8_m); }
            assert(rc0(mid5_twiddled) == mr8x8_t(x, self.spec_inverse(), 5, 0)) by { reveal(mr8x8_t); reveal(mr8x8_m); }
            assert(rc1(mid5_twiddled) == mr8x8_t(x, self.spec_inverse(), 5, 1)) by { reveal(mr8x8_t); reveal(mr8x8_m); }
            assert(rc2(mid5_twiddled) == mr8x8_t(x, self.spec_inverse(), 5, 2)) by { reveal(mr8x8_t); reveal(mr8x8_m); }
            assert(rc3(mid5_twiddled) == mr8x8_t(x, self.spec_inverse(), 5, 3)) by { reveal(mr8x8_t); reveal(mr8x8_m); }
            assert(rc0(mid6_twiddled) == mr8x8_t(x, self.spec_inverse(), 6, 0)) by { reveal(mr8x8_t); reveal(mr8x8_m); }
            assert(rc1(mid6_twiddled) == mr8x8_t(x, self.spec_inverse(), 6, 1)) by { reveal(mr8x8_t); reveal(mr8x8_m); }
            assert(rc2(mid6_twiddled) == mr8x8_t(x, self.spec_inverse(), 6, 2)) by { reveal(mr8x8_t); reveal(mr8x8_m); }
            assert(rc3(mid6_twiddled) == mr8x8_t(x, self.spec_inverse(), 6, 3)) by { reveal(mr8x8_t); reveal(mr8x8_m); }
            assert(rc0(mid7_twiddled) == mr8x8_t(x, self.spec_inverse(), 7, 0)) by { reveal(mr8x8_t); reveal(mr8x8_m); }
            assert(rc1(mid7_twiddled) == mr8x8_t(x, self.spec_inverse(), 7, 1)) by { reveal(mr8x8_t); reveal(mr8x8_m); }
            assert(rc2(mid7_twiddled) == mr8x8_t(x, self.spec_inverse(), 7, 2)) by { reveal(mr8x8_t); reveal(mr8x8_m); }
            assert(rc3(mid7_twiddled) == mr8x8_t(x, self.spec_inverse(), 7, 3)) by { reveal(mr8x8_t); reveal(mr8x8_m); }
        }
        (mid0, mid1_twiddled, mid2_twiddled, mid3_twiddled, mid4_twiddled, mid5_twiddled, mid6_twiddled, mid7_twiddled)
    }

    /// The column stage of the 64-point transform on one four-column half:
    /// packed 8-point column butterflies, then the twiddle grid rows.
    #[verifier::rlimit(100)]
    #[verifier::spinoff_prover]
    fn butterfly64_cols_odd(
        &self,
        input0: Reg, input1: Reg, input2: Reg, input3: Reg, input4: Reg, input5: Reg, input6: Reg, input7: Reg,
        tw1: Reg, tw2: Reg, tw3: Reg, tw4: Reg, tw5: Reg, tw6: Reg, tw7: Reg,
        Ghost(x): Ghost<Seq<Complex>>,
    ) -> (r: (Reg, Reg, Reg, Reg, Reg, Reg, Reg, Reg))
        requires
            self.wf(),
            x.len() == 64,
            reg_wf(input0) && reg_wf(input1) && reg_wf(input2) && reg_wf(input3) && reg_wf(input4) && reg_wf(input5) && reg_wf(input6) && reg_wf(input7),
            rc0(input0) == x[4],
            rc1(input0) == x[5],
            rc2(input0) == x[6],
            rc3(input0) == x[7],
            rc0(input1) == x[12],
            rc1(input1) == x[13],
            rc2(input1) == x[14],
            rc3(input1) == x[15],
            rc0(input2) == x[20],
            rc1(input2) == x[21],
            rc2(input2) == x[22],
            rc3(input2) == x[23],
            rc0(input3) == x[28],
            rc1(input3) == x[29],
            rc2(input3) == x[30],
            rc3(input3) == x[31],
            rc0(input4) == x[36],
            rc1(input4) == x[37],
            rc2(input4) == x[38],
            rc3(input4) == x[39],
            rc0(input5) == x[44],
            rc1(input5) == x[45],
            rc2(input5) == x[46],
            rc3(input5) == x[47],
            rc0(input6) == x[52],
            rc1(input6) == x[53],
            rc2(input6) == x[54],
            rc3(input6) == x[55],
            rc0(input7) == x[60],
            rc1(input7) == x[61],
            rc2(input7) == x[62],
            rc3(input7) == x[63],
            reg_wf(tw1),
            rc0(tw1) == twiddle_spec(1*4, 64, self.spec_inverse()),
            rc1(tw1) == twiddle_spec(1*5, 64, self.spec_inverse()),
            rc2(tw1) == twiddle_spec(1*6, 64, self.spec_inverse()),
            rc3(tw1) == twiddle_spec(1*7, 64, self.spec_inverse()),
            reg_wf(tw2),
            rc0(tw2) == twiddle_spec(2*4, 64, self.spec_inverse()),
            rc1(tw2) == twiddle_spec(2*5, 64, self.spec_inverse()),
            rc2(tw2) == twiddle_spec(2*6, 64, self.spec_inverse()),
            rc3(tw2) == twiddle_spec(2*7, 64, self.spec_inverse()),
            reg_wf(tw3),
            rc0(tw3) == twiddle_spec(3*4, 64, self.spec_inverse()),
            rc1(tw3) == twiddle_spec(3*5, 64, self.spec_inverse()),
            rc2(tw3) == twiddle_spec(3*6, 64, self.spec_inverse()),
            rc3(tw3) == twiddle_spec(3*7, 64, self.spec_inverse()),
            reg_wf(tw4),
            rc0(tw4) == twiddle_spec(4*4, 64, self.spec_inverse()),
            rc1(tw4) == twiddle_spec(4*5, 64, self.spec_inverse()),
            rc2(tw4) == twiddle_spec(4*6, 64, self.spec_inverse()),
            rc3(tw4) == twiddle_spec(4*7, 64, self.spec_inverse()),
            reg_wf(tw5),
            rc0(tw5) == twiddle_spec(5*4, 64, self.spec_inverse()),
            rc1(tw5) == twiddle_spec(5*5, 64, self.spec_inverse()),
            rc2(tw5) == twiddle_spec(5*6, 64, self.spec_inverse()),
            rc3(tw5) == twiddle_spec(5*7, 64, self.spec_inverse()),
            reg_wf(tw6),
            rc0(tw6) == twiddle_spec(6*4, 64, self.spec_inverse()),
            rc1(tw6) == twiddle_spec(6*5, 64, self.spec_inverse()),
            rc2(tw6) == twiddle_spec(6*6, 64, self.spec_inverse()),
            rc3(tw6) == twiddle_spec(6*7, 64, self.spec_inverse()),
            reg_wf(tw7),
            rc0(tw7) == twiddle_spec(7*4, 64, self.spec_inverse()),
            rc1(tw7) == twiddle_spec(7*5, 64, self.spec_inverse()),
            rc2(tw7) == twiddle_spec(7*6, 64, self.spec_inverse()),
            rc3(tw7) == twiddle_spec(7*7, 64, self.spec_inverse()),
        ensures
            (rc0(r.0), rc0(r.1), rc0(r.2), rc0(r.3), rc0(r.4), rc0(r.5), rc0(r.6), rc0(r.7)) == (mr8x8_t(x, self.spec_inverse(), 0, 4), mr8x8_t(x, self.spec_inverse(), 1, 4), mr8x8_t(x, self.spec_inverse(), 2, 4), mr8x8_t(x, self.spec_inverse(), 3, 4), mr8x8_t(x, self.spec_inverse(), 4, 4), mr8x8_t(x, self.spec_inverse(), 5, 4), mr8x8_t(x, self.spec_inverse(), 6, 4), mr8x8_t(x, self.spec_inverse(), 7, 4)),
            (rc1(r.0), rc1(r.1), rc1(r.2), rc1(r.3), rc1(r.4), rc1(r.5), rc1(r.6), rc1(r.7)) == (mr8x8_t(x, self.spec_inverse(), 0, 5), mr8x8_t(x, self.spec_inverse(), 1, 5), mr8x8_t(x, self.spec_inverse(), 2, 5), mr8x8_t(x, self.spec_inverse(), 3, 5), mr8x8_t(x, self.spec_inverse(), 4, 5), mr8x8_t(x, self.spec_inverse(), 5, 5), mr8x8_t(x, self.spec_inverse(), 6, 5), mr8x8_t(x, self.spec_inverse(), 7, 5)),
            (rc2(r.0), rc2(r.1), rc2(r.2), rc2(r.3), rc2(r.4), rc2(r.5), rc2(r.6), rc2(r.7)) == (mr8x8_t(x, self.spec_inverse(), 0, 6), mr8x8_t(x, self.spec_inverse(), 1, 6), mr8x8_t(x, self.spec_inverse(), 2, 6), mr8x8_t(x, self.spec_inverse(), 3, 6), mr8x8_t(x, self.spec_inverse(), 4, 6), mr8x8_t(x, self.spec_inverse(), 5, 6), mr8x8_t(x, self.spec_inverse(), 6, 6), mr8x8_t(x, self.spec_inverse(), 7, 6)),
            (rc3(r.0), rc3(r.1), rc3(r.2), rc3(r.3), rc3(r.4), rc3(r.5), rc3(r.6), rc3(r.7)) == (mr8x8_t(x, self.spec_inverse(), 0, 7), mr8x8_t(x, self.spec_inverse(), 1, 7), mr8x8_t(x, self.spec_inverse(), 2, 7), mr8x8_t(x, self.spec_inverse(), 3, 7), mr8x8_t(x, self.spec_inverse(), 4, 7), mr8x8_t(x, self.spec_inverse(), 5, 7), mr8x8_t(x, self.spec_inverse(), 6, 7), mr8x8_t(x, self.spec_inverse(), 7, 7)),
            reg_wf(r.0) && reg_wf(r.1) && reg_wf(r.2) && reg_wf(r.3) && reg_wf(r.4) && reg_wf(r.5) && reg_wf(r.6) && reg_wf(r.7),
    {
        let (mid0, mid1, mid2, mid3, mid4, mid5, mid6, mid7) = column_butterfly8(
            input0,
            input1,
            input2,
            input3,
            input4,
            input5,
            input6,
            input7,
            self.twiddles_butterfly8,
            self.inverse,
        );
        let mid1_twiddled = complex_multiply(mid1, tw1);
        let mid2_twiddled = complex_multiply(mid2, tw2);
        let mid3_twiddled = complex_multiply(mid3, tw3);
        let mid4_twiddled = complex_multiply(mid4, tw4);
        let mid5_twiddled = complex_multiply(mid5, tw5);
        let mid6_twiddled = complex_multiply(mid6, tw6);
        let mid7_twiddled = complex_multiply(mid7, tw7);
        proof {
            assert(rc0(mid0) == mr8x8_t(x, self.spec_inverse(), 0, 4)) by { reveal(mr8x8_t); reveal(mr8x8_m); }
            assert(rc1(mid0) == mr8x8_t(x, self.spec_inverse(), 0, 5)) by { reveal(mr8x8_t); reveal(mr8x8_m); }
            assert(rc2(mid0) == mr8x8_t(x, self.spec_inverse(), 0, 6)) by { reveal(mr8x8_t); reveal(mr8x8_m); }
            assert(rc3(mid0) == mr8x8_t(x, self.spec_inverse(), 0, 7)) by { reveal(mr8x8_t); reveal(mr8x8_m); }
            assert(rc0(mid1_twiddled) == mr8x8_t(x, self.spec_inverse(), 1, 4)) by { reveal(mr8x8_t); reveal(mr8x8_m); }
            assert(rc1(mid1_twiddled) == mr8x8_t(x, self.spec_inverse(), 1, 5)) by { reveal(mr8x8_t); reveal(mr8x8_m); }
            assert(rc2(mid1_twiddled) == mr8x8_t(x, self.spec_inverse(), 1, 6)) by { reveal(mr8x8_t); reveal(mr8x8_m); }
            assert(rc3(mid1_twiddled) == mr8x8_t(x, self.spec_inverse(), 1, 7)) by { reveal(mr8x8_t); reveal(mr8x8_m); }
            assert(rc0(mid2_twiddled) == mr8x8_t(x, self.spec_inverse(), 2, 4)) by { reveal(mr8x8_t); reveal(mr8x8_m); }
            assert(rc1(mid2_twiddled) == mr8x8_t(x, self.spec_inverse(), 2, 5)) by { reveal(mr8x8_t); reveal(mr8x8_m); }
            assert(rc2(mid2_twiddled) == mr8x8_t(x, self.spec_inverse(), 2, 6)) by { reveal(mr8x8_t); reveal(mr8x8_m); }
            assert(rc3(mid2_twiddled) == mr8x8_t(x, self.spec_inverse(), 2, 7)) by { reveal(mr8x8_t); reveal(mr8x8_m); }
            assert(rc0(mid3_twiddled) == mr8x8_t(x, self.spec_inverse(), 3, 4)) by { reveal(mr8x8_t); reveal(mr8x8_m); }
            assert(rc1(mid3_twiddled) == mr8x8_t(x, self.spec_inverse(), 3, 5)) by { reveal(mr8x8_t); reveal(mr8x8_m); }
            assert(rc2(mid3_twiddled) == mr8x8_t(x, self.spec_inverse(), 3, 6)) by { reveal(mr8x8_t); reveal(mr8x8_m); }
            assert(rc3(mid3_twiddled) == mr8x8_t(x, self.spec_inverse(), 3, 7)) by { reveal(mr8x8_t); reveal(mr8x8_m); }
            assert(rc0(mid4_twiddled) == mr8x8_t(x, self.spec_inverse(), 4, 4)) by { reveal(mr8x8_t); reveal(mr8x8_m); }
            assert(rc1(mid4_twiddled) == mr8x8_t(x, self.spec_inverse(), 4, 5)) by { reveal(mr8x8_t); reveal(mr8x8_m); }
            assert(rc2(mid4_twiddled) == mr8x8_t(x, self.spec_inverse(), 4, 6)) by { reveal(mr8x8_t); reveal(mr8x8_m); }
            assert(rc3(mid4_twiddled) == mr8x8_t(x, self.spec_inverse(), 4, 7)) by { reveal(mr8x8_t); reveal(mr8x8_m); }
            assert(rc0(mid5_twiddled) == mr8x8_t(x, self.spec_inverse(), 5, 4)) by { reveal(mr8x8_t); reveal(mr8x8_m); }
            assert(rc1(mid5_twiddled) == mr8x8_t(x, self.spec_inverse(), 5, 5)) by { reveal(mr8x8_t); reveal(mr8x8_m); }
            assert(rc2(mid5_twiddled) == mr8x8_t(x, self.spec_inverse(), 5, 6)) by { reveal(mr8x8_t); reveal(mr8x8_m); }
            assert(rc3(mid5_twiddled) == mr8x8_t(x, self.spec_inverse(), 5, 7)) by { reveal(mr8x8_t); reveal(mr8x8_m); }
            assert(rc0(mid6_twiddled) == mr8x8_t(x, self.spec_inverse(), 6, 4)) by { reveal(mr8x8_t); reveal(mr8x8_m); }
            assert(rc1(mid6_twiddled) == mr8x8_t(x, self.spec_inverse(), 6, 5)) by { reveal(mr8x8_t); reveal(mr8x8_m); }
            assert(rc2(mid6_twiddled) == mr8x8_t(x, self.spec_inverse(), 6, 6)) by { reveal(mr8x8_t); reveal(mr8x8_m); }
            assert(rc3(mid6_twiddled) == mr8x8_t(x, self.spec_inverse(), 6, 7)) by { reveal(mr8x8_t); reveal(mr8x8_m); }
            assert(rc0(mid7_twiddled) == mr8x8_t(x, self.spec_inverse(), 7, 4)) by { reveal(mr8x8_t); reveal(mr8x8_m); }
            assert(rc1(mid7_twiddled) == mr8x8_t(x, self.spec_inverse(), 7, 5)) by { reveal(mr8x8_t); reveal(mr8x8_m); }
            assert(rc2(mid7_twiddled) == mr8x8_t(x, self.spec_inverse(), 7, 6)) by { reveal(mr8x8_t); reveal(mr8x8_m); }
            assert(rc3(mid7_twiddled) == mr8x8_t(x, self.spec_inverse(), 7, 7)) by { reveal(mr8x8_t); reveal(mr8x8_m); }
        }
        (mid0, mid1_twiddled, mid2_twiddled, mid3_twiddled, mid4_twiddled, mid5_twiddled, mid6_twiddled, mid7_twiddled)
    }

    /// The row stage of the 64-point transform: packed 8-point butterflies
    /// down four rows of the transposed twiddled grid.
    #[verifier::rlimit(100)]
    #[verifier::spinoff_prover]
    fn butterfly64_rows(
        &self,
        input0: Reg, input1: Reg, input2: Reg, input3: Reg, input4: Reg, input5: Reg, input6: Reg, input7: Reg,
        Ghost(x): Ghost<Seq<Complex>>,
        Ghost(rbase): Ghost<int>,
    ) -> (r: (Reg, Reg, Reg, Reg, Reg, Reg, Reg, Reg))
        requires
            self.wf(),
            x.len() == 64,
            reg_wf(input0) && reg_wf(input1) && reg_wf(input2) && reg_wf(input3) && reg_wf(input4) && reg_wf(input5) && reg_wf(input6) && reg_wf(input7),
            rc0(input0) == mr8x8_t(x, self.spec_inverse(), rbase + 0, 0),
            rc1(input0) == mr8x8_t(x, self.spec_inverse(), rbase + 1, 0),
            rc2(input0) == mr8x8_t(x, self.spec_inverse(), rbase + 2, 0),
            rc3(input0) == mr8x8_t(x, self.spec_inverse(), rbase + 3, 0),
            rc0(input1) == mr8x8_t(x, self.spec_inverse(), rbase + 0, 1),
            rc1(input1) == mr8x8_t(x, self.spec_inverse(), rbase + 1, 1),
            rc2(input1) == mr8x8_t(x, self.spec_inverse(), rbase + 2, 1),
            rc3(input1) == mr8x8_t(x, self.spec_inverse(), rbase + 3, 1),
            rc0(input2) == mr8x8_t(x, self.spec_inverse(), rbase + 0, 2),
            rc1(input2) == mr8x8_t(x, self.spec_inverse(), rbase + 1, 2),
            rc2(input2) == mr8x8_t(x, self.spec_inverse(), rbase + 2, 2),
            rc3(input2) == mr8x8_t(x, self.spec_inverse(), rbase + 3, 2),
            rc0(input3) == mr8x8_t(x, self.spec_inverse(), rbase + 0, 3),
            rc1(input3) == mr8x8_t(x, self.spec_inverse(), rbase + 1, 3),
            rc2(input3) == mr8x8_t(x, self.spec_inverse(), rbase + 2, 3),
            rc3(input3) == mr8x8_t(x, self.spec_inverse(), rbase + 3, 3),
            rc0(input4) == mr8x8_t(x, self.spec_inverse(), rbase + 0, 4),
            rc1(input4) == mr8x8_t(x, self.spec_inverse(), rbase + 1, 4),
            rc2(input4) == mr8x8_t(x, self.spec_inverse(), rbase + 2, 4),
            rc3(input4) == mr8x8_t(x, self.spec_inverse(), rbase + 3, 4),
            rc0(input5) == mr8x8_t(x, self.spec_inverse(), rbase + 0, 5),
            rc1(input5) == mr8x8_t(x, self.spec_inverse(), rbase + 1, 5),
            rc2(input5) == mr8x8_t(x, self.spec_inverse(), rbase + 2, 5),
            rc3(input5) == mr8x8_t(x, self.spec_inverse(), rbase + 3, 5),
            rc0(input6) == mr8x8_t(x, self.spec_inverse(), rbase + 0, 6),
            rc1(input6) == mr8x8_t(x, self.spec_inverse(), rbase + 1, 6),
            rc2(input6) == mr8x8_t(x, self.spec_inverse(), rbase + 2, 6),
            rc3(input6) == mr8x8_t(x, self.spec_inverse(), rbase + 3, 6),
            rc0(input7) == mr8x8_t(x, self.spec_inverse(), rbase + 0, 7),
            rc1(input7) == mr8x8_t(x, self.spec_inverse(), rbase + 1, 7),
            rc2(input7) == mr8x8_t(x, self.spec_inverse(), rbase + 2, 7),
            rc3(input7) == mr8x8_t(x, self.spec_inverse(), rbase + 3, 7),
        ensures
            (rc0(r.0), rc0(r.1), rc0(r.2), rc0(r.3), rc0(r.4), rc0(r.5), rc0(r.6), rc0(r.7)) == crate::butterflies::bf8t_spec(mr8x8_t(x, self.spec_inverse(), rbase + 0, 0), mr8x8_t(x, self.spec_inverse(), rbase + 0, 1), mr8x8_t(x, self.spec_inverse(), rbase + 0, 2), mr8x8_t(x, self.spec_inverse(), rbase + 0, 3), mr8x8_t(x, self.spec_inverse(), rbase + 0, 4), mr8x8_t(x, self.spec_inverse(), rbase + 0, 5), mr8x8_t(x, self.spec_inverse(), rbase + 0, 6), mr8x8_t(x, self.spec_inverse(), rbase + 0, 7), self.spec_inverse()),
            (rc1(r.0), rc1(r.1), rc1(r.2), rc1(r.3), rc1(r.4), rc1(r.5), rc1(r.6), rc1(r.7)) == crate::butterflies::bf8t_spec(mr8x8_t(x, self.spec_inverse(), rbase + 1, 0), mr8x8_t(x, self.spec_inverse(), rbase + 1, 1), mr8x8_t(x, self.spec_inverse(), rbase + 1, 2), mr8x8_t(x, self.spec_inverse(), rbase + 1, 3), mr8x8_t(x, self.spec_inverse(), rbase + 1, 4), mr8x8_t(x, self.spec_inverse(), rbase + 1, 5), mr8x8_t(x, self.spec_inverse(), rbase + 1, 6), mr8x8_t(x, self.spec_inverse(), rbase + 1, 7), self.spec_inverse()),
            (rc2(r.0), rc2(r.1), rc2(r.2), rc2(r.3), rc2(r.4), rc2(r.5), rc2(r.6), rc2(r.7)) == crate::butterflies::bf8t_spec(mr8x8_t(x, self.spec_inverse(), rbase + 2, 0), mr8x8_t(x, self.spec_inverse(), rbase + 2, 1), mr8x8_t(x, self.spec_inverse(), rbase + 2, 2), mr8x8_t(x, self.spec_inverse(), rbase + 2, 3), mr8x8_t(x, self.spec_inverse(), rbase + 2, 4), mr8x8_t(x, self.spec_inverse(), rbase + 2, 5), mr8x8_t(x, self.spec_inverse(), rbase + 2, 6), mr8x8_t(x, self.spec_inverse(), rbase + 2, 7), self.spec_inverse()),
            (rc3(r.0), rc3(r.1), rc3(r.2), rc3(r.3), rc3(r.4), rc3(r.5), rc3(r.6), rc3(r.7)) == crate::butterflies::bf8t_spec(mr8x8_t(x, self.spec_inverse(), rbase + 3, 0), mr8x8_t(x, self.spec_inverse(), rbase + 3, 1), mr8x8_t(x, self.spec_inverse(), rbase + 3, 2), mr8x8_t(x, self.spec_inverse(), rbase + 3, 3), mr8x8_t(x, self.spec_inverse(), rbase + 3, 4), mr8x8_t(x, self.spec_inverse(), rbase + 3, 5), mr8x8_t(x, self.spec_inverse(), rbase + 3, 6), mr8x8_t(x, self.spec_inverse(), rbase + 3, 7), self.spec_inverse()),
            reg_wf(r.0) && reg_wf(r.1) && reg_wf(r.2) && reg_wf(r.3) && reg_wf(r.4) && reg_wf(r.5) && reg_wf(r.6) && reg_wf(r.7),
    {
        column_butterfly8(
            input0,
            input1,
            input2,
            input3,
            input4,
            input5,
            input6,
            input7,
            self.twiddles_butterfly8,
            self.inverse,
        )
    }

    /// The unrolled 64-point transform, executed in two halves as an 8x8
    /// mixed radix: column butterfly-8s, the twiddle grid, 4x4 transposes,
    /// then row butterfly-8s.
    #[verifier::rlimit(100)]
    #[verifier::spinoff_prover]
    fn process_butterfly64(&self, buffer: &mut [Complex])
        requires
            self.wf(),
            old(buffer)@.len() == 64,
            seq_wf(old(buffer)@),
        ensures
            final(buffer)@ == mr8x8_spec(old(buffer)@, self.inverse),
            seq_wf(final(buffer)@),
    {
        let ghost x = buffer@;
        // First half: the even-indexed registers (columns 0 to 3).
        let input0 = load_reg(buffer, 0);
        let input2 = load_reg(buffer, 8);
        let input4 = load_reg(buffer, 16);
        let input6 = load_reg(buffer, 24);
        let input8 = load_reg(buffer, 32);
        let input10 = load_reg(buffer, 40);
        let input12 = load_reg(buffer, 48);
        let input14 = load_reg(buffer, 56);
        let (e0, e1, e2, e3, e4, e5, e6, e7) = self.butterfly64_cols_even(
            input0, input2, input4, input6, input8, input10, input12, input14,
            self.twiddles0, self.twiddles2, self.twiddles4, self.twiddles6, self.twiddles8, self.twiddles10, self.twiddles12,
            Ghost(x),
        );
        let (transposed0, transposed2, transposed4, transposed6) = transpose_4x4(e0, e1, e2, e3);
        let (transposed1, transposed3, transposed5, transposed7) = transpose_4x4(e4, e5, e6, e7);

        // Second half: the odd-indexed registers (columns 4 to 7).
        let input1 = load_reg(buffer, 4);
        let input3 = load_reg(buffer, 12);
        let input5 = load_reg(buffer, 20);
        let input7 = load_reg(buffer, 28);
        let input9 = load_reg(buffer, 36);
        let input11 = load_reg(buffer, 44);
        let input13 = load_reg(buffer, 52);
        let input15 = load_reg(buffer, 60);
        let (o0, o1, o2, o3, o4, o5, o6, o7) = self.butterfly64_cols_odd(
            input1, input3, input5, input7, input9, input11, input13, input15,
            self.twiddles1, self.twiddles3, self.twiddles5, self.twiddles7, self.twiddles9, self.twiddles11, self.twiddles13,
            Ghost(x),
        );
        let (transposed8, transposed10, transposed12, transposed14) = transpose_4x4(o0, o1, o2, o3);
        let (transposed9, transposed11, transposed13, transposed15) = transpose_4x4(o4, o5, o6, o7);

        // Row butterflies down the transposed grid, two halves of rows.
        let (output0, output2, output4, output6, output8, output10, output12, output14) = self
            .butterfly64_rows(
            transposed0,
            transposed2,
            transposed4,
            transposed6,
            transposed8,
            transposed10,
            transposed12,
            transposed14,
            Ghost(x),
            Ghost(0int),
        );
        store8_strided(
            buffer,
            0,
            output0,
            output2,
            output4,
            output6,
            output8,
            output10,
            output12,
            output14,
        );
        let (output1, output3, output5, output7, output9, output11, output13, output15) = self
            .butterfly64_rows(
            transposed1,
            transposed3,
            transposed5,
            transposed7,
            transposed9,
            transposed11,
            transposed13,
            transposed15,
            Ghost(x),
            Ghost(4int),
        );
        store8_strided(
            buffer,
            4,
            output1,
            output3,
            output5,
            output7,
            output9,
            output11,
            output13,
            output15,
        );
        proof {
            assert(buffer@[0] == pick8(crate::butterflies::bf8t_spec(mr8x8_t(x, self.inverse, 0, 0), mr8x8_t(x, self.inverse, 0, 1), mr8x8_t(x, self.inverse, 0, 2), mr8x8_t(x, self.inverse, 0, 3), mr8x8_t(x, self.inverse, 0, 4), mr8x8_t(x, self.inverse, 0, 5), mr8x8_t(x, self.inverse, 0, 6), mr8x8_t(x, self.inverse, 0, 7), self.inverse), 0)) by { }
            assert(buffer@[1] == pick8(crate::butterflies::bf8t_spec(mr8x8_t(x, self.inverse, 1, 0), mr8x8_t(x, self.inverse, 1, 1), mr8x8_t(x, self.inverse, 1, 2), mr8x8_t(x, self.inverse, 1, 3), mr8x8_t(x, self.inverse, 1, 4), mr8x8_t(x, self.inverse, 1, 5), mr8x8_t(x, self.inverse, 1, 6), mr8x8_t(x, self.inverse, 1, 7), self.inverse), 0)) by { }
            assert(buffer@[2] == pick8(crate::butterflies::bf8t_spec(mr8x8_t(x, self.inverse, 2, 0), mr8x8_t(x, self.inverse, 2, 1), mr8x8_t(x, self.inverse, 2, 2), mr8x8_t(x, self.inverse, 2, 3), mr8x8_t(x, self.inverse, 2, 4), mr8x8_t(x, self.inverse, 2, 5), mr8x8_t(x, self.inverse, 2, 6), mr8x8_t(x, self.inverse, 2, 7), self.inverse), 0)) by { }
            assert(buffer@[3] == pick8(crate::butterflies::bf8t_spec(mr8x8_t(x, self.inverse, 3, 0), mr8x8_t(x, self.inverse, 3, 1), mr8x8_t(x, self.inverse, 3, 2), mr8x8_t(x, self.inverse, 3, 3), mr8x8_t(x, self.inverse, 3, 4), mr8x8_t(x, self.inverse, 3, 5), mr8x8_t(x, self.inverse, 3, 6), mr8x8_t(x, self.inverse, 3, 7), self.inverse), 0)) by { }
            assert(buffer@[4] == pick8(crate::butterflies::bf8t_spec(mr8x8_t(x, self.inverse, 4, 0), mr8x8_t(x, self.inverse, 4, 1), mr8x8_t(x, self.inverse, 4, 2), mr8x8_t(x, self.inverse, 4, 3), mr8x8_t(x, self.inverse, 4, 4), mr8x8_t(x, self.inverse, 4, 5), mr8x8_t(x, self.inverse, 4, 6), mr8x8_t(x, self.inverse, 4, 7), self.inverse), 0)) by { }
            assert(buffer@[5] == pick8(crate::butterflies::bf8t_spec(mr8x8_t(x, self.inverse, 5, 0), mr8x8_t(x, self.inverse, 5, 1), mr8x8_t(x, self.inverse, 5, 2), mr8x8_t(x, self.inverse, 5, 3), mr8x8_t(x, self.inverse, 5, 4), mr8x8_t(x, self.inverse, 5, 5), mr8x8_t(x, self.inverse, 5, 6), mr8x8_t(x, self.inverse, 5, 7), self.inverse), 0)) by { }
            assert(buffer@[6] == pick8(crate::butterflies::bf8t_spec(mr8x8_t(x, self.inverse, 6, 0), mr8x8_t(x, self.inverse, 6, 1), mr8x8_t(x, self.inverse, 6, 2), mr8x8_t(x, self.inverse, 6, 3), mr8x8_t(x, self.inverse, 6, 4), mr8x8_t(x, self.inverse, 6, 5), mr8x8_t(x, self.inverse, 6, 6), mr8x8_t(x, self.inverse, 6, 7), self.inverse), 0)) by { }
            assert(buffer@[7] == pick8(crate::butterflies::bf8t_spec(mr8x8_t(x, self.inverse, 7, 0), mr8x8_t(x, self.inverse, 7, 1), mr8x8_t(x, self.inverse, 7, 2), mr8x8_t(x, self.inverse, 7, 3), mr8x8_t(x, self.inverse, 7, 4), mr8x8_t(x, self.inverse, 7, 5), mr8x8_t(x, self.inverse, 7, 6), mr8x8_t(x, self.inverse, 7, 7), self.inverse), 0)) by { }
            assert(buffer@[8] == pick8(crate::butterflies::bf8t_spec(mr8x8_t(x, self.inverse, 0, 0), mr8x8_t(x, self.inverse, 0, 1), mr8x8_t(x, self.inverse, 0, 2), mr8x8_t(x, self.inverse, 0, 3), mr8x8_t(x, self.inverse, 0, 4), mr8x8_t(x, self.inverse, 0, 5), mr8x8_t(x, self.inverse, 0, 6), mr8x8_t(x, self.inverse, 0, 7), self.inverse), 1)) by { }
            assert(buffer@[9] == pick8(crate::butterflies::bf8t_spec(mr8x8_t(x, self.inverse, 1, 0), mr8x8_t(x, self.inverse, 1, 1), mr8x8_t(x, self.inverse, 1, 2), mr8x8_t(x, self.inverse, 1, 3), mr8x8_t(x, self.inverse, 1, 4), mr8x8_t(x, self.inverse, 1, 5), mr8x8_t(x, self.inverse, 1, 6), mr8x8_t(x, self.inverse, 1, 7), self.inverse), 1)) by { }
            assert(buffer@[10] == pick8(crate::butterflies::bf8t_spec(mr8x8_t(x, self.inverse, 2, 0), mr8x8_t(x, self.inverse, 2, 1), mr8x8_t(x, self.inverse, 2, 2), mr8x8_t(x, self.inverse, 2, 3), mr8x8_t(x, self.inverse, 2, 4), mr8x8_t(x, self.inverse, 2, 5), mr8x8_t(x, self.inverse, 2, 6), mr8x8_t(x, self.inverse, 2, 7), self.inverse), 1)) by { }
            assert(buffer@[11] == pick8(crate::butterflies::bf8t_spec(mr8x8_t(x, self.inverse, 3, 0), mr8x8_t(x, self.inverse, 3, 1), mr8x8_t(x, self.inverse, 3, 2), mr8x8_t(x, self.inverse, 3, 3), mr8x8_t(x, self.inverse, 3, 4), mr8x8_t(x, self.inverse, 3, 5), mr8x8_t(x, self.inverse, 3, 6), mr8x8_t(x, self.inverse, 3, 7), self.inverse), 1)) by { }
            assert(buffer@[12] == pick8(crate::butterflies::bf8t_spec(mr8x8_t(x, self.inverse, 4, 0), mr8x8_t(x, self.inverse, 4, 1), mr8x8_t(x, self.inverse, 4, 2), mr8x8_t(x, self.inverse, 4, 3), mr8x8_t(x, self.inverse, 4, 4), mr8x8_t(x, self.inverse, 4, 5), mr8x8_t(x, self.inverse, 4, 6), mr8x8_t(x, self.inverse, 4, 7), self.inverse), 1)) by { }
            assert(buffer@[13] == pick8(crate::butterflies::bf8t_spec(mr8x8_t(x, self.inverse, 5, 0), mr8x8_t(x, self.inverse, 5, 1), mr8x8_t(x, self.inverse, 5, 2), mr8x8_t(x, self.inverse, 5, 3), mr8x8_t(x, self.inverse, 5, 4), mr8x8_t(x, self.inverse, 5, 5), mr8x8_t(x, self.inverse, 5, 6), mr8x8_t(x, self.inverse, 5, 7), self.inverse), 1)) by { }
            assert(buffer@[14] == pick8(crate::butterflies::bf8t_spec(mr8x8_t(x, self.inverse, 6, 0), mr8x8_t(x, self.inverse, 6, 1), mr8x8_t(x, self.inverse, 6, 2), mr8x8_t(x, self.inverse, 6, 3), mr8x8_t(x, self.inverse, 6, 4), mr8x8_t(x, self.inverse, 6, 5), mr8x8_t(x, self.inverse, 6, 6), mr8x8_t(x, self.inverse, 6, 7), self.inverse), 1)) by { }
            assert(buffer@[15] == pick8(crate::butterflies::bf8t_spec(mr8x8_t(x, self.inverse, 7, 0), mr8x8_t(x, self.inverse, 7, 1), mr8x8_t(x, self.inverse, 7, 2), mr8x8_t(x, self.inverse, 7, 3), mr8x8_t(x, self.inverse, 7, 4), mr8x8_t(x, self.inverse, 7, 5), mr8x8_t(x, self.inverse, 7, 6), mr8x8_t(x, self.inverse, 7, 7), self.inverse), 1)) by { }
            assert(buffer@[16] == pick8(crate::butterflies::bf8t_spec(mr8x8_t(x, self.inverse, 0, 0), mr8x8_t(x, self.inverse, 0, 1), mr8x8_t(x, self.inverse, 0, 2), mr8x8_t(x, self.inverse, 0, 3), mr8x8_t(x, self.inverse, 0, 4), mr8x8_t(x, self.inverse, 0, 5), mr8x8_t(x, self.inverse, 0, 6), mr8x8_t(x, self.inverse, 0, 7), self.inverse), 2)) by { }
            assert(buffer@[17] == pick8(crate::butterflies::bf8t_spec(mr8x8_t(x, self.inverse, 1, 0), mr8x8_t(x, self.inverse, 1, 1), mr8x8_t(x, self.inverse, 1, 2), mr8x8_t(x, self.inverse, 1, 3), mr8x8_t(x, self.inverse, 1, 4), mr8x8_t(x, self.inverse, 1, 5), mr8x8_t(x, self.inverse, 1, 6), mr8x8_t(x, self.inverse, 1, 7), self.inverse), 2)) by { }
            assert(buffer@[18] == pick8(crate::butterflies::bf8t_spec(mr8x8_t(x, self.inverse, 2, 0), mr8x8_t(x, self.inverse, 2, 1), mr8x8_t(x, self.inverse, 2, 2), mr8x8_t(x, self.inverse, 2, 3), mr8x8_t(x, self.inverse, 2, 4), mr8x8_t(x, self.inverse, 2, 5), mr8x8_t(x, self.inverse, 2, 6), mr8x8_t(x, self.inverse, 2, 7), self.inverse), 2)) by { }
            assert(buffer@[19] == pick8(crate::butterflies::bf8t_spec(mr8x8_t(x, self.inverse, 3, 0), mr8x8_t(x, self.inverse, 3, 1), mr8x8_t(x, self.inverse, 3, 2), mr8x8_t(x, self.inverse, 3, 3), mr8x8_t(x, self.inverse, 3, 4), mr8x8_t(x, self.inverse, 3, 5), mr8x8_t(x, self.inverse, 3, 6), mr8x8_t(x, self.inverse, 3, 7), self.inverse), 2)) by { }
            assert(buffer@[20] == pick8(crate::butterflies::bf8t_spec(mr8x8_t(x, self.inverse, 4, 0), mr8x8_t(x, self.inverse, 4, 1), mr8x8_t(x, self.inverse, 4, 2), mr8x8_t(x, self.inverse, 4, 3), mr8x8_t(x, self.inverse, 4, 4), mr8x8_t(x, self.inverse, 4, 5), mr8x8_t(x, self.inverse, 4, 6), mr8x8_t(x, self.inverse, 4, 7), self.inverse), 2)) by { }
            assert(buffer@[21] == pick8(crate::butterflies::bf8t_spec(mr8x8_t(x, self.inverse, 5, 0), mr8x8_t(x, self.inverse, 5, 1), mr8x8_t(x, self.inverse, 5, 2), mr8x8_t(x, self.inverse, 5, 3), mr8x8_t(x, self.inverse, 5, 4), mr8x8_t(x, self.inverse, 5, 5), mr8x8_t(x, self.inverse, 5, 6), mr8x8_t(x, self.inverse, 5, 7), self.inverse), 2)) by { }
            assert(buffer@[22] == pick8(crate::butterflies::bf8t_spec(mr8x8_t(x, self.inverse, 6, 0), mr8x8_t(x, self.inverse, 6, 1), mr8x8_t(x, self.inverse, 6, 2), mr8x8_t(x, self.inverse, 6, 3), mr8x8_t(x, self.inverse, 6, 4), mr8x8_t(x, self.inverse, 6, 5), mr8x8_t(x, self.inverse, 6, 6), mr8x8_t(x, self.inverse, 6, 7), self.inverse), 2)) by { }
            assert(buffer@[23] == pick8(crate::butterflies::bf8t_spec(mr8x8_t(x, self.inverse, 7, 0), mr8x8_t(x, self.inverse, 7, 1), mr8x8_t(x, self.inverse, 7, 2), mr8x8_t(x, self.inverse, 7, 3), mr8x8_t(x, self.inverse, 7, 4), mr8x8_t(x, self.inverse, 7, 5), mr8x8_t(x, self.inverse, 7, 6), mr8x8_t(x, self.inverse, 7, 7), self.inverse), 2)) by { }
            assert(buffer@[24] == pick8(crate::butterflies::bf8t_spec(mr8x8_t(x, self.inverse, 0, 0), mr8x8_t(x, self.inverse, 0, 1), mr8x8_t(x, self.inverse, 0, 2), mr8x8_t(x, self.inverse, 0, 3), mr8x8_t(x, self.inverse, 0, 4), mr8x8_t(x, self.inverse, 0, 5), mr8x8_t(x, self.inverse, 0, 6), mr8x8_t(x, self.inverse, 0, 7), self.inverse), 3)) by { }
            assert(buffer@[25] == pick8(crate::butterflies::bf8t_spec(mr8x8_t(x, self.inverse, 1, 0), mr8x8_t(x, self.inverse, 1, 1), mr8x8_t(x, self.inverse, 1, 2), mr8x8_t(x, self.inverse, 1, 3), mr8x8_t(x, self.inverse, 1, 4), mr8x8_t(x, self.inverse, 1, 5), mr8x8_t(x, self.inverse, 1, 6), mr8x8_t(x, self.inverse, 1, 7), self.inverse), 3)) by { }
            assert(buffer@[26] == pick8(crate::butterflies::bf8t_spec(mr8x8_t(x, self.inverse, 2, 0), mr8x8_t(x, self.inverse, 2, 1), mr8x8_t(x, self.inverse, 2, 2), mr8x8_t(x, self.inverse, 2, 3), mr8x8_t(x, self.inverse, 2, 4), mr8x8_t(x, self.inverse, 2, 5), mr8x8_t(x, self.inverse, 2, 6), mr8x8_t(x, self.inverse, 2, 7), self.inverse), 3)) by { }
            assert(buffer@[27] == pick8(crate::butterflies::bf8t_spec(mr8x8_t(x, self.inverse, 3, 0), mr8x8_t(x, self.inverse, 3, 1), mr8x8_t(x, self.inverse, 3, 2), mr8x8_t(x, self.inverse, 3, 3), mr8x8_t(x, self.inverse, 3, 4), mr8x8_t(x, self.inverse, 3, 5), mr8x8_t(x, self.inverse, 3, 6), mr8x8_t(x, self.inverse, 3, 7), self.inverse), 3)) by { }
            assert(buffer@[28] == pick8(crate::butterflies::bf8t_spec(mr8x8_t(x, self.inverse, 4, 0), mr8x8_t(x, self.inverse, 4, 1), mr8x8_t(x, self.inverse, 4, 2), mr8x8_t(x, self.inverse, 4, 3), mr8x8_t(x, self.inverse, 4, 4), mr8x8_t(x, self.inverse, 4, 5), mr8x8_t(x, self.inverse, 4, 6), mr8x8_t(x, self.inverse, 4, 7), self.inverse), 3)) by { }
            assert(buffer@[29] == pick8(crate::butterflies::bf8t_spec(mr8x8_t(x, self.inverse, 5, 0), mr8x8_t(x, self.inverse, 5, 1), mr8x8_t(x, self.inverse, 5, 2), mr8x8_t(x, self.inverse, 5, 3), mr8x8_t(x, self.inverse, 5, 4), mr8x8_t(x, self.inverse, 5, 5), mr8x8_t(x, self.inverse, 5, 6), mr8x8_t(x, self.inverse, 5, 7), self.inverse), 3)) by { }
            assert(buffer@[30] == pick8(crate::butterflies::bf8t_spec(mr8x8_t(x, self.inverse, 6, 0), mr8x8_t(x, self.inverse, 6, 1), mr8x8_t(x, self.inverse, 6, 2), mr8x8_t(x, self.inverse, 6, 3), mr8x8_t(x, self.inverse, 6, 4), mr8x8_t(x, self.inverse, 6, 5), mr8x8_t(x, self.inverse, 6, 6), mr8x8_t(x, self.inverse, 6, 7), self.inverse), 3)) by { }
            assert(buffer@[31] == pick8(crate::butterflies::bf8t_spec(mr8x8_t(x, self.inverse, 7, 0), mr8x8_t(x, self.inverse, 7, 1), mr8x8_t(x, self.inverse, 7, 2), mr8x8_t(x, self.inverse, 7, 3), mr8x8_t(x, self.inverse, 7, 4), mr8x8_t(x, self.inverse, 7, 5), mr8x8_t(x, self.inverse, 7, 6), mr8x8_t(x, self.inverse, 7, 7), self.inverse), 3)) by { }
            assert(buffer@[32] == pick8(crate::butterflies::bf8t_spec(mr8x8_t(x, self.inverse, 0, 0), mr8x8_t(x, self.inverse, 0, 1), mr8x8_t(x, self.inverse, 0, 2), mr8x8_t(x, self.inverse, 0, 3), mr8x8_t(x, self.inverse, 0, 4), mr8x8_t(x, self.inverse, 0, 5), mr8x8_t(x, self.inverse, 0, 6), mr8x8_t(x, self.inverse, 0, 7), self.inverse), 4)) by { }
            assert(buffer@[33] == pick8(crate::butterflies::bf8t_spec(mr8x8_t(x, self.inverse, 1, 0), mr8x8_t(x, self.inverse, 1, 1), mr8x8_t(x, self.inverse, 1, 2), mr8x8_t(x, self.inverse, 1, 3), mr8x8_t(x, self.inverse, 1, 4), mr8x8_t(x, self.inverse, 1, 5), mr8x8_t(x, self.inverse, 1, 6), mr8x8_t(x, self.inverse, 1, 7), self.inverse), 4)) by { }
            assert(buffer@[34] == pick8(crate::butterflies::bf8t_spec(mr8x8_t(x, self.inverse, 2, 0), mr8x8_t(x, self.inverse, 2, 1), mr8x8_t(x, self.inverse, 2, 2), mr8x8_t(x, self.inverse, 2, 3), mr8x8_t(x, self.inverse, 2, 4), mr8x8_t(x, self.inverse, 2, 5), mr8x8_t(x, self.inverse, 2, 6), mr8x8_t(x, self.inverse, 2, 7), self.inverse), 4)) by { }
            assert(buffer@[35] == pick8(crate::butterflies::bf8t_spec(mr8x8_t(x, self.inverse, 3, 0), mr8x8_t(x, self.inverse, 3, 1), mr8x8_t(x, self.inverse, 3, 2), mr8x8_t(x, self.inverse, 3, 3), mr8x8_t(x, self.inverse, 3, 4), mr8x8_t(x, self.inverse, 3, 5), mr8x8_t(x, self.inverse, 3, 6), mr8x8_t(x, self.inverse, 3, 7), self.inverse), 4)) by { }
            assert(buffer@[36] == pick8(crate::butterflies::bf8t_spec(mr8x8_t(x, self.inverse, 4, 0), mr8x8_t(x, self.inverse, 4, 1), mr8x8_t(x, self.inverse, 4, 2), mr8x8_t(x, self.inverse, 4, 3), mr8x8_t(x, self.inverse, 4, 4), mr8x8_t(x, self.inverse, 4, 5), mr8x8_t(x, self.inverse, 4, 6), mr8x8_t(x, self.inverse, 4, 7), self.inverse), 4)) by { }
            assert(buffer@[37] == pick8(crate::butterflies::bf8t_spec(mr8x8_t(x, self.inverse, 5, 0), mr8x8_t(x, self.inverse, 5, 1), mr8x8_t(x, self.inverse, 5, 2), mr8x8_t(x, self.inverse, 5, 3), mr8x8_t(x, self.inverse, 5, 4), mr8x8_t(x, self.inverse, 5, 5), mr8x8_t(x, self.inverse, 5, 6), mr8x8_t(x, self.inverse, 5, 7), self.inverse), 4)) by { }
            assert(buffer@[38] == pick8(crate::butterflies::bf8t_spec(mr8x8_t(x, self.inverse, 6, 0), mr8x8_t(x, self.inverse, 6, 1), mr8x8_t(x, self.inverse, 6, 2), mr8x8_t(x, self.inverse, 6, 3), mr8x8_t(x, self.inverse, 6, 4), mr8x8_t(x, self.inverse, 6, 5), mr8x8_t(x, self.inverse, 6, 6), mr8x8_t(x, self.inverse, 6, 7), self.inverse), 4)) by { }
            assert(buffer@[39] == pick8(crate::butterflies::bf8t_spec(mr8x8_t(x, self.inverse, 7, 0), mr8x8_t(x, self.inverse, 7, 1), mr8x8_t(x, self.inverse, 7, 2), mr8x8_t(x, self.inverse, 7, 3), mr8x8_t(x, self.inverse, 7, 4), mr8x8_t(x, self.inverse, 7, 5), mr8x8_t(x, self.inverse, 7, 6), mr8x8_t(x, self.inverse, 7, 7), self.inverse), 4)) by { }
            assert(buffer@[40] == pick8(crate::butterflies::bf8t_spec(mr8x8_t(x, self.inverse, 0, 0), mr8x8_t(x, self.inverse, 0, 1), mr8x8_t(x, self.inverse, 0, 2), mr8x8_t(x, self.inverse, 0, 3), mr8x8_t(x, self.inverse, 0, 4), mr8x8_t(x, self.inverse, 0, 5), mr8x8_t(x, self.inverse, 0, 6), mr8x8_t(x, self.inverse, 0, 7), self.inverse), 5)) by { }
            assert(buffer@[41] == pick8(crate::butterflies::bf8t_spec(mr8x8_t(x, self.inverse, 1, 0), mr8x8_t(x, self.inverse, 1, 1), mr8x8_t(x, self.inverse, 1, 2), mr8x8_t(x, self.inverse, 1, 3), mr8x8_t(x, self.inverse, 1, 4), mr8x8_t(x, self.inverse, 1, 5), mr8x8_t(x, self.inverse, 1, 6), mr8x8_t(x, self.inverse, 1, 7), self.inverse), 5)) by { }
            assert(buffer@[42] == pick8(crate::butterflies::bf8t_spec(mr8x8_t(x, self.inverse, 2, 0), mr8x8_t(x, self.inverse, 2, 1), mr8x8_t(x, self.inverse, 2, 2), mr8x8_t(x, self.inverse, 2, 3), mr8x8_t(x, self.inverse, 2, 4), mr8x8_t(x, self.inverse, 2, 5), mr8x8_t(x, self.inverse, 2, 6), mr8x8_t(x, self.inverse, 2, 7), self.inverse), 5)) by { }
            assert(buffer@[43] == pick8(crate::butterflies::bf8t_spec(mr8x8_t(x, self.inverse, 3, 0), mr8x8_t(x, self.inverse, 3, 1), mr8x8_t(x, self.inverse, 3, 2), mr8x8_t(x, self.inverse, 3, 3), mr8x8_t(x, self.inverse, 3, 4), mr8x8_t(x, self.inverse, 3, 5), mr8x8_t(x, self.inverse, 3, 6), mr8x8_t(x, self.inverse, 3, 7), self.inverse), 5)) by { }
            assert(buffer@[44] == pick8(crate::butterflies::bf8t_spec(mr8x8_t(x, self.inverse, 4, 0), mr8x8_t(x, self.inverse, 4, 1), mr8x8_t(x, self.inverse, 4, 2), mr8x8_t(x, self.inverse, 4, 3), mr8x8_t(x, self.inverse, 4, 4), mr8x8_t(x, self.inverse, 4, 5), mr8x8_t(x, self.inverse, 4, 6), mr8x8_t(x, self.inverse, 4, 7), self.inverse), 5)) by { }
            assert(buffer@[45] == pick8(crate::butterflies::bf8t_spec(mr8x8_t(x, self.inverse, 5, 0), mr8x8_t(x, self.inverse, 5, 1), mr8x8_t(x, self.inverse, 5, 2), mr8x8_t(x, self.inverse, 5, 3), mr8x8_t(x, self.inverse, 5, 4), mr8x8_t(x, self.inverse, 5, 5), mr8x8_t(x, self.inverse, 5, 6), mr8x8_t(x, self.inverse, 5, 7), self.inverse), 5)) by { }
            assert(buffer@[46] == pick8(crate::butterflies::bf8t_spec(mr8x8_t(x, self.inverse, 6, 0), mr8x8_t(x, self.inverse, 6, 1), mr8x8_t(x, self.inverse, 6, 2), mr8x8_t(x, self.inverse, 6, 3), mr8x8_t(x, self.inverse, 6, 4), mr8x8_t(x, self.inverse, 6, 5), mr8x8_t(x, self.inverse, 6, 6), mr8x8_t(x, self.inverse, 6, 7), self.inverse), 5)) by { }
            assert(buffer@[47] == pick8(crate::butterflies::bf8t_spec(mr8x8_t(x, self.inverse, 7, 0), mr8x8_t(x, self.inverse, 7, 1), mr8x8_t(x, self.inverse, 7, 2), mr8x8_t(x, self.inverse, 7, 3), mr8x8_t(x, self.inverse, 7, 4), mr8x8_t(x, self.inverse, 7, 5), mr8x8_t(x, self.inverse, 7, 6), mr8x8_t(x, self.inverse, 7, 7), self.inverse), 5)) by { }
            assert(buffer@[48] == pick8(crate::butterflies::bf8t_spec(mr8x8_t(x, self.inverse, 0, 0), mr8x8_t(x, self.inverse, 0, 1), mr8x8_t(x, self.inverse, 0, 2), mr8x8_t(x, self.inverse, 0, 3), mr8x8_t(x, self.inverse, 0, 4), mr8x8_t(x, self.inverse, 0, 5), mr8x8_t(x, self.inverse, 0, 6), mr8x8_t(x, self.inverse, 0, 7), self.inverse), 6)) by { }
            assert(buffer@[49] == pick8(crate::butterflies::bf8t_spec(mr8x8_t(x, self.inverse, 1, 0), mr8x8_t(x, self.inverse, 1, 1), mr8x8_t(x, self.inverse, 1, 2), mr8x8_t(x, self.inverse, 1, 3), mr8x8_t(x, self.inverse, 1, 4), mr8x8_t(x, self.inverse, 1, 5), mr8x8_t(x, self.inverse, 1, 6), mr8x8_t(x, self.inverse, 1, 7), self.inverse), 6)) by { }
            assert(buffer@[50] == pick8(crate::butterflies::bf8t_spec(mr8x8_t(x, self.inverse, 2, 0), mr8x8_t(x, self.inverse, 2, 1), mr8x8_t(x, self.inverse, 2, 2), mr8x8_t(x, self.inverse, 2, 3), mr8x8_t(x, self.inverse, 2, 4), mr8x8_t(x, self.inverse, 2, 5), mr8x8_t(x, self.inverse, 2, 6), mr8x8_t(x, self.inverse, 2, 7), self.inverse), 6)) by { }
            assert(buffer@[51] == pick8(crate::butterflies::bf8t_spec(mr8x8_t(x, self.inverse, 3, 0), mr8x8_t(x, self.inverse, 3, 1), mr8x8_t(x, self.inverse, 3, 2), mr8x8_t(x, self.inverse, 3, 3), mr8x8_t(x, self.inverse, 3, 4), mr8x8_t(x, self.inverse, 3, 5), mr8x8_t(x, self.inverse, 3, 6), mr8x8_t(x, self.inverse, 3, 7), self.inverse), 6)) by { }
            assert(buffer@[52] == pick8(crate::butterflies::bf8t_spec(mr8x8_t(x, self.inverse, 4, 0), mr8x8_t(x, self.inverse, 4, 1), mr8x8_t(x, self.inverse, 4, 2), mr8x8_t(x, self.inverse, 4, 3), mr8x8_t(x, self.inverse, 4, 4), mr8x8_t(x, self.inverse, 4, 5), mr8x8_t(x, self.inverse, 4, 6), mr8x8_t(x, self.inverse, 4, 7), self.inverse), 6)) by { }
            assert(buffer@[53] == pick8(crate::butterflies::bf8t_spec(mr8x8_t(x, self.inverse, 5, 0), mr8x8_t(x, self.inverse, 5, 1), mr8x8_t(x, self.inverse, 5, 2), mr8x8_t(x, self.inverse, 5, 3), mr8x8_t(x, self.inverse, 5, 4), mr8x8_t(x, self.inverse, 5, 5), mr8x8_t(x, self.inverse, 5, 6), mr8x8_t(x, self.inverse, 5, 7), self.inverse), 6)) by { }
            assert(buffer@[54] == pick8(crate::butterflies::bf8t_spec(mr8x8_t(x, self.inverse, 6, 0), mr8x8_t(x, self.inverse, 6, 1), mr8x8_t(x, self.inverse, 6, 2), mr8x8_t(x, self.inverse, 6, 3), mr8x8_t(x, self.inverse, 6, 4), mr8x8_t(x, self.inverse, 6, 5), mr8x8_t(x, self.inverse, 6, 6), mr8x8_t(x, self.inverse, 6, 7), self.inverse), 6)) by { }
            assert(buffer@[55] == pick8(crate::butterflies::bf8t_spec(mr8x8_t(x, self.inverse, 7, 0), mr8x8_t(x, self.inverse, 7, 1), mr8x8_t(x, self.inverse, 7, 2), mr8x8_t(x, self.inverse, 7, 3), mr8x8_t(x, self.inverse, 7, 4), mr8x8_t(x, self.inverse, 7, 5), mr8x8_t(x, self.inverse, 7, 6), mr8x8_t(x, self.inverse, 7, 7), self.inverse), 6)) by { }
            assert(buffer@[56] == pick8(crate::butterflies::bf8t_spec(mr8x8_t(x, self.inverse, 0, 0), mr8x8_t(x, self.inverse, 0, 1), mr8x8_t(x, self.inverse, 0, 2), mr8x8_t(x, self.inverse, 0, 3), mr8x8_t(x, self.inverse, 0, 4), mr8x8_t(x, self.inverse, 0, 5), mr8x8_t(x, self.inverse, 0, 6), mr8x8_t(x, self.inverse, 0, 7), self.inverse), 7)) by { }
            assert(buffer@[57] == pick8(crate::butterflies::bf8t_spec(mr8x8_t(x, self.inverse, 1, 0), mr8x8_t(x, self.inverse, 1, 1), mr8x8_t(x, self.inverse, 1, 2), mr8x8_t(x, self.inverse, 1, 3), mr8x8_t(x, self.inverse, 1, 4), mr8x8_t(x, self.inverse, 1, 5), mr8x8_t(x, self.inverse, 1, 6), mr8x8_t(x, self.inverse, 1, 7), self.inverse), 7)) by { }
            assert(buffer@[58] == pick8(crate::butterflies::bf8t_spec(mr8x8_t(x, self.inverse, 2, 0), mr8x8_t(x, self.inverse, 2, 1), mr8x8_t(x, self.inverse, 2, 2), mr8x8_t(x, self.inverse, 2, 3), mr8x8_t(x, self.inverse, 2, 4), mr8x8_t(x, self.inverse, 2, 5), mr8x8_t(x, self.inverse, 2, 6), mr8x8_t(x, self.inverse, 2, 7), self.inverse), 7)) by { }
            assert(buffer@[59] == pick8(crate::butterflies::bf8t_spec(mr8x8_t(x, self.inverse, 3, 0), mr8x8_t(x, self.inverse, 3, 1), mr8x8_t(x, self.inverse, 3, 2), mr8x8_t(x, self.inverse, 3, 3), mr8x8_t(x, self.inverse, 3, 4), mr8x8_t(x, self.inverse, 3, 5), mr8x8_t(x, self.inverse, 3, 6), mr8x8_t(x, self.inverse, 3, 7), self.inverse), 7)) by { }
            assert(buffer@[60] == pick8(crate::butterflies::bf8t_spec(mr8x8_t(x, self.inverse, 4, 0), mr8x8_t(x, self.inverse, 4, 1), mr8x8_t(x, self.inverse, 4, 2), mr8x8_t(x, self.inverse, 4, 3), mr8x8_t(x, self.inverse, 4, 4), mr8x8_t(x, self.inverse, 4, 5), mr8x8_t(x, self.inverse, 4, 6), mr8x8_t(x, self.inverse, 4, 7), self.inverse), 7)) by { }
            assert(buffer@[61] == pick8(crate::butterflies::bf8t_spec(mr8x8_t(x, self.inverse, 5, 0), mr8x8_t(x, self.inverse, 5, 1), mr8x8_t(x, self.inverse, 5, 2), mr8x8_t(x, self.inverse, 5, 3), mr8x8_t(x, self.inverse, 5, 4), mr8x8_t(x, self.inverse, 5, 5), mr8x8_t(x, self.inverse, 5, 6), mr8x8_t(x, self.inverse, 5, 7), self.inverse), 7)) by { }
            assert(buffer@[62] == pick8(crate::butterflies::bf8t_spec(mr8x8_t(x, self.inverse, 6, 0), mr8x8_t(x, self.inverse, 6, 1), mr8x8_t(x, self.inverse, 6, 2), mr8x8_t(x, self.inverse, 6, 3), mr8x8_t(x, self.inverse, 6, 4), mr8x8_t(x, self.inverse, 6, 5), mr8x8_t(x, self.inverse, 6, 6), mr8x8_t(x, self.inverse, 6, 7), self.inverse), 7)) by { }
            assert(buffer@[63] == pick8(crate::butterflies::bf8t_spec(mr8x8_t(x, self.inverse, 7, 0), mr8x8_t(x, self.inverse, 7, 1), mr8x8_t(x, self.inverse, 7, 2), mr8x8_t(x, self.inverse, 7, 3), mr8x8_t(x, self.inverse, 7, 4), mr8x8_t(x, self.inverse, 7, 5), mr8x8_t(x, self.inverse, 7, 6), mr8x8_t(x, self.inverse, 7, 7), self.inverse), 7)) by { }
            assert(buffer@ =~= mr8x8_spec(x, self.inverse)) by { reveal(mr8x8_spec); }
        }
    }

}

impl FftInline for MixedRadixAvx8x8 {
    open spec fn wf(&self) -> bool {
        &&& reg_wf(self.twiddles_butterfly8)
        &&& crate::vector_butterflies::w8_packed(self.twiddles_butterfly8, self.inverse)
        &&& reg_wf(self.twiddles0)
        &&& rc0(self.twiddles0) == twiddle_spec(0, 64, self.inverse)
        &&& rc1(self.twiddles0) == twiddle_spec(1, 64, self.inverse)
        &&& rc2(self.twiddles0) == twiddle_spec(2, 64, self.inverse)
        &&& rc3(self.twiddles0) == twiddle_spec(3, 64, self.inverse)
        &&& reg_wf(self.twiddles1)
        &&& rc0(self.twiddles1) == twiddle_spec(4, 64, self.inverse)
        &&& rc1(self.twiddles1) == twiddle_spec(5, 64, self.inverse)
        &&& rc2(self.twiddles1) == twiddle_spec(6, 64, self.inverse)
        &&& rc3(self.twiddles1) == twiddle_spec(7, 64, self.inverse)
        &&& reg_wf(self.twiddles2)
        &&& rc0(self.twiddles2) == twiddle_spec(0, 64, self.inverse)
        &&& rc1(self.twiddles2) == twiddle_spec(2, 64, self.inverse)
        &&& rc2(self.twiddles2) == twiddle_spec(4, 64, self.inverse)
        &&& rc3(self.twiddles2) == twiddle_spec(6, 64, self.inverse)
        &&& reg_wf(self.twiddles3)
        &&& rc0(self.twiddles3) == twiddle_spec(8, 64, self.inverse)
        &&& rc1(self.twiddles3) == twiddle_spec(10, 64, self.inverse)
        &&& rc2(self.twiddles3) == twiddle_spec(12, 64, self.inverse)
        &&& rc3(self.twiddles3) == twiddle_spec(14, 64, self.inverse)
        &&& reg_wf(self.twiddles4)
        &&& rc0(self.twiddles4) == twiddle_spec(0, 64, self.inverse)
        &&& rc1(self.twiddles4) == twiddle_spec(3, 64, self.inverse)
        &&& rc2(self.twiddles4) == twiddle_spec(6, 64, self.inverse)
        &&& rc3(self.twiddles4) == twiddle_spec(9, 64, self.inverse)
        &&& reg_wf(self.twiddles5)
        &&& rc0(self.twiddles5) == twiddle_spec(12, 64, self.inverse)
        &&& rc1(self.twiddles5) == twiddle_spec(15, 64, self.inverse)
        &&& rc2(self.twiddles5) == twiddle_spec(18, 64, self.inverse)
        &&& rc3(self.twiddles5) == twiddle_spec(21, 64, self.inverse)
        &&& reg_wf(self.twiddles6)
        &&& rc0(self.twiddles6) == twiddle_spec(0, 64, self.inverse)
        &&& rc1(self.twiddles6) == twiddle_spec(4, 64, self.inverse)
        &&& rc2(self.twiddles6) == twiddle_spec(8, 64, self.inverse)
        &&& rc3(self.twiddles6) == twiddle_spec(12, 64, self.inverse)
        &&& reg_wf(self.twiddles7)
        &&& rc0(self.twiddles7) == twiddle_spec(16, 64, self.inverse)
        &&& rc1(self.twiddles7) == twiddle_spec(20, 64, self.inverse)
        &&& rc2(self.twiddles7) == twiddle_spec(24, 64, self.inverse)
        &&& rc3(self.twiddles7) == twiddle_spec(28, 64, self.inverse)
        &&& reg_wf(self.twiddles8)
        &&& rc0(self.twiddles8) == twiddle_spec(0, 64, self.inverse)
        &&& rc1(self.twiddles8) == twiddle_spec(5, 64, self.inverse)
        &&& rc2(self.twiddles8) == twiddle_spec(10, 64, self.inverse)
        &&& rc3(self.twiddles8) == twiddle_spec(15, 64, self.inverse)
        &&& reg_wf(self.twiddles9)
        &&& rc0(self.twiddles9) == twiddle_spec(20, 64, self.inverse)
        &&& rc1(self.twiddles9) == twiddle_spec(25, 64, self.inverse)
        &&& rc2(self.twiddles9) == twiddle_spec(30, 64, self.inverse)
        &&& rc3(self.twiddles9) == twiddle_spec(35, 64, self.inverse)
        &&& reg_wf(self.twiddles10)
        &&& rc0(self.twiddles10) == twiddle_spec(0, 64, self.inverse)
        &&& rc1(self.twiddles10) == twiddle_spec(6, 64, self.inverse)
        &&& rc2(self.twiddles10) == twiddle_spec(12, 64, self.inverse)
        &&& rc3(self.twiddles10) == twiddle_spec(18, 64, self.inverse)
        &&& reg_wf(self.twiddles11)
        &&& rc0(self.twiddles11) == twiddle_spec(24, 64, self.inverse)
        &&& rc1(self.twiddles11) == twiddle_spec(30, 64, self.inverse)
        &&& rc2(self.twiddles11) == twiddle_spec(36, 64, self.inverse)
        &&& rc3(self.twiddles11) == twiddle_spec(42, 64, self.inverse)
        &&& reg_wf(self.twiddles12)
        &&& rc0(self.twiddles12) == twiddle_spec(0, 64, self.inverse)
        &&& rc1(self.twiddles12) == twiddle_spec(7, 64, self.inverse)
        &&& rc2(self.twiddles12) == twiddle_spec(14, 64, self.inverse)
        &&& rc3(self.twiddles12) == twiddle_spec(21, 64, self.inverse)
        &&& reg_wf(self.twiddles13)
        &&& rc0(self.twiddles13) == twiddle_spec(28, 64, self.inverse)
        &&& rc1(self.twiddles13) == twiddle_spec(35, 64, self.inverse)
        &&& rc2(self.twiddles13) == twiddle_spec(42, 64, self.inverse)
        &&& rc3(self.twiddles13) == twiddle_spec(49, 64, self.inverse)
    }

    open spec fn spec_len(&self) -> nat {
        64
    }

    open spec fn spec_inverse(&self) -> bool {
        self.inverse
    }

    open spec fn spec_scratch_len(&self) -> nat {
        0
    }

    open spec fn apply(&self, x: Seq<Complex>) -> Seq<Complex> {
        mr8x8_spec(x, self.inverse)
    }

    proof fn lemma_apply_shape(&self, x: Seq<Complex>) {
        reveal(mr8x8_spec);
    }

    fn len(&self) -> (r: usize) {
        64
    }

    fn is_inverse(&self) -> (r: bool) {
        self.inverse
    }

    fn get_required_scratch_len(&self) -> (r: usize) {
        0
    }

    fn process_inline(&self, buffer: &mut [Complex], scratch: &mut [Complex]) {
        self.process_butterfly64(buffer);
    }
}

} // verus!
