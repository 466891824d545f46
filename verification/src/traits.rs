//! The transform capability: an immutable handle that knows its length, its
//! direction and its scratch requirement, and transforms a buffer in place.

use vstd::prelude::*;
use crate::complex::{Complex, c_wf, seq_wf};

verus! {

/// An in-place transform handle.
///
/// A handle is immutable after construction: `apply` is a function of the
/// handle and the input alone, so repeated calls on identical inputs yield
/// identical outputs.
pub trait FftInline: Sized {
    /// The handle's internal invariant.
    spec fn wf(&self) -> bool;

    /// The transform length `N`.
    spec fn spec_len(&self) -> nat;

    /// The transform direction: `true` for inverse, `false` for forward.
    spec fn spec_inverse(&self) -> bool;

    /// The scratch requirement, in complex samples.
    spec fn spec_scratch_len(&self) -> nat;

    /// The mathematical function the handle computes.
    spec fn apply(&self, x: Seq<Complex>) -> Seq<Complex>;

    /// `apply` preserves length and well-formedness.
    proof fn lemma_apply_shape(&self, x: Seq<Complex>)
        requires
            self.wf(),
            x.len() == self.spec_len(),
            seq_wf(x),
        ensures
            self.apply(x).len() == self.spec_len(),
            seq_wf(self.apply(x)),
    ;

    /// The transform length.
    fn len(&self) -> (r: usize)
        requires
            self.wf(),
        ensures
            r == self.spec_len(),
    ;

    /// The transform direction.
    fn is_inverse(&self) -> (r: bool)
        requires
            self.wf(),
        ensures
            r == self.spec_inverse(),
    ;

    /// How much scratch `process_inline` needs.
    fn get_required_scratch_len(&self) -> (r: usize)
        requires
            self.wf(),
        ensures
            r == self.spec_scratch_len(),
    ;

    /// Transforms `buffer` in place. The scratch contents are unspecified
    /// afterwards (only their count and well-formedness are kept).
    fn process_inline(&self, buffer: &mut [Complex], scratch: &mut [Complex])
        requires
            self.wf(),
            old(buffer)@.len() == self.spec_len(),
            seq_wf(old(buffer)@),
            old(scratch)@.len() >= self.spec_scratch_len(),
            seq_wf(old(scratch)@),
        ensures
            final(buffer)@ == self.apply(old(buffer)@),
            final(scratch)@.len() == old(scratch)@.len(),
            seq_wf(final(scratch)@),
    ;
}

/// The batched transform: each `N`-sized chunk transformed independently.
pub open spec fn apply_multi<F: FftInline>(fft: &F, x: Seq<Complex>) -> Seq<Complex>
    decreases x.len(),
{
    if fft.spec_len() == 0 || x.len() < fft.spec_len() {
        x
    } else {
        fft.apply(x.take(fft.spec_len() as int)) + apply_multi(fft, x.skip(fft.spec_len() as int))
    }
}

/// Transforms every `N`-sized chunk of `buffer` independently, reusing the
/// same scratch; each chunk's result is exactly what the single-chunk path
/// produces on that chunk alone.
pub fn process_inline_multi<F: FftInline>(fft: &F, buffer: &mut [Complex], scratch: &mut [Complex])
    requires
        fft.wf(),
        fft.spec_len() >= 1,
        old(buffer)@.len() % fft.spec_len() == 0,
        seq_wf(old(buffer)@),
        old(scratch)@.len() >= fft.spec_scratch_len(),
        seq_wf(old(scratch)@),
    ensures
        final(buffer)@ == apply_multi(fft, old(buffer)@),
        final(scratch)@.len() == old(scratch)@.len(),
        seq_wf(final(scratch)@),
    decreases old(buffer)@.len(),
{
    if buffer.len() == 0 {
        return;
    }
    proof {
        vstd::arithmetic::div_mod::lemma_mod_is_zero(old(buffer)@.len() as nat, fft.spec_len());
        vstd::arithmetic::div_mod::lemma_mod_sub_multiples_vanish(
            old(buffer)@.len() as int,
            fft.spec_len() as int,
        );
    }
    let n = fft.len();
    let (chunk, rest) = buffer.split_at_mut(n);
    let ghost chunk_in = chunk@;
    let ghost rest_in = rest@;
    proof {
        assert forall|i: int| 0 <= i < chunk_in.len() implies c_wf(#[trigger] chunk_in[i]) by {
            assert(chunk_in[i] == old(buffer)@[i]);
        }
        assert forall|i: int| 0 <= i < rest_in.len() implies c_wf(#[trigger] rest_in[i]) by {
            assert(rest_in[i] == old(buffer)@[i + n]);
        }
    }
    fft.process_inline(chunk, scratch);
    process_inline_multi(fft, rest, scratch);
    proof {
        assert(old(buffer)@.take(n as int) =~= chunk_in);
        assert(old(buffer)@.skip(n as int) =~= rest_in);
        assert(buffer@ =~= apply_multi(fft, old(buffer)@));
    }
}

} // verus!
