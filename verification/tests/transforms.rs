//! End-to-end tests of every transform against the direct-summation
//! reference, the concrete scenarios of the engine, and its exact laws.

use splitfft::complex::Complex;
use splitfft::dft::Dft;
use splitfft::kernels::{
    MixedRadixAvx4x2, MixedRadixAvx4x4, MixedRadixAvx4x8, MixedRadixAvx8x8, SimdSupport,
};
use splitfft::modp::{mmul, P};
use splitfft::split_radix::{SplitRadix, SplitRadixAvx};
use splitfft::traits::{process_inline_multi, FftInline};
use splitfft::twiddles::single_twiddle;

const FULL_SUPPORT: SimdSupport = SimdSupport { avx: true, fma: true };

fn zeros(n: usize) -> Vec<Complex> {
    vec![Complex { re: 0, im: 0 }; n]
}

fn next_sample(seed: &mut u64) -> u64 {
    *seed = seed
        .wrapping_mul(6364136223846793005)
        .wrapping_add(1442695040888963407);
    (*seed >> 33) % P
}

fn random_signal(n: usize, seed: u64) -> Vec<Complex> {
    let mut s = seed;
    (0..n)
        .map(|_| Complex {
            re: next_sample(&mut s),
            im: next_sample(&mut s),
        })
        .collect()
}

fn reference_dft(input: &[Complex], inverse: bool) -> Vec<Complex> {
    let n = input.len();
    let dft = Dft::new(n, inverse);
    let mut buffer = input.to_vec();
    let mut scratch = zeros(n);
    dft.process_inline(&mut buffer, &mut scratch);
    buffer
}

fn run_inline<F: FftInline>(fft: &F, input: &[Complex]) -> Vec<Complex> {
    let mut buffer = input.to_vec();
    let mut scratch = zeros(fft.get_required_scratch_len());
    fft.process_inline(&mut buffer, &mut scratch);
    buffer
}

fn check_inline_fft_algorithm<F: FftInline>(fft: &F, len: usize, inverse: bool) {
    assert_eq!(fft.len(), len);
    assert_eq!(fft.is_inverse(), inverse);
    for k in 0..len.min(4) {
        let mut impulse = zeros(len);
        impulse[k] = Complex { re: 1, im: 0 };
        assert_eq!(run_inline(fft, &impulse), reference_dft(&impulse, inverse));
    }
    let signal = random_signal(len, 0x5eed + len as u64);
    assert_eq!(run_inline(fft, &signal), reference_dft(&signal, inverse));
}

#[test]
fn test_splitradix_scalar() {
    for pow in 3..8 {
        let len = 1 << pow;
        test_splitradix_with_length(len, false);
        test_splitradix_with_length(len, true);
    }
}

fn test_splitradix_with_length(len: usize, inverse: bool) {
    let quarter = Dft::new(len / 4, inverse);
    let half = Dft::new(len / 2, inverse);
    let fft = SplitRadix::new(half, quarter);
    check_inline_fft_algorithm(&fft, len, inverse);
}

#[test]
fn test_splitradix_avx() {
    for pow in 4..8 {
        let len = 1 << pow;
        test_splitradix_avx_with_length(len, false);
        test_splitradix_avx_with_length(len, true);
    }
}

fn test_splitradix_avx_with_length(len: usize, inverse: bool) {
    let quarter = Dft::new(len / 4, inverse);
    let half = Dft::new(len / 2, inverse);
    let fft = SplitRadixAvx::new(half, quarter, FULL_SUPPORT)
        .expect("Can't run test because this machine doesn't have the required instruction sets");
    check_inline_fft_algorithm(&fft, len, inverse);
}

#[test]
fn test_avx_mixedradix4x2() {
    let fft_forward = MixedRadixAvx4x2::new(false, FULL_SUPPORT)
        .expect("Can't run test because this machine doesn't have the required instruction sets");
    check_inline_fft_algorithm(&fft_forward, 8, false);

    let fft_inverse = MixedRadixAvx4x2::new(true, FULL_SUPPORT)
        .expect("Can't run test because this machine doesn't have the required instruction sets");
    check_inline_fft_algorithm(&fft_inverse, 8, true);
}

#[test]
fn test_avx_mixedradix4x4() {
    let fft_forward = MixedRadixAvx4x4::new(false, FULL_SUPPORT)
        .expect("Can't run test because this machine doesn't have the required instruction sets");
    check_inline_fft_algorithm(&fft_forward, 16, false);

    let fft_inverse = MixedRadixAvx4x4::new(true, FULL_SUPPORT)
        .expect("Can't run test because this machine doesn't have the required instruction sets");
    check_inline_fft_algorithm(&fft_inverse, 16, true);
}

#[test]
fn test_avx_mixedradix4x8() {
    let fft_forward = MixedRadixAvx4x8::new(false, FULL_SUPPORT)
        .expect("Can't run test because this machine doesn't have the required instruction sets");
    check_inline_fft_algorithm(&fft_forward, 32, false);

    let fft_inverse = MixedRadixAvx4x8::new(true, FULL_SUPPORT)
        .expect("Can't run test because this machine doesn't have the required instruction sets");
    check_inline_fft_algorithm(&fft_inverse, 32, true);
}

#[test]
fn test_avx_mixedradix8x8() {
    let fft_forward = MixedRadixAvx8x8::new(false, FULL_SUPPORT)
        .expect("Can't run test because this machine doesn't have the required instruction sets");
    check_inline_fft_algorithm(&fft_forward, 64, false);

    let fft_inverse = MixedRadixAvx8x8::new(true, FULL_SUPPORT)
        .expect("Can't run test because this machine doesn't have the required instruction sets");
    check_inline_fft_algorithm(&fft_inverse, 64, true);
}

#[test]
fn test_construction_needs_vector_support() {
    assert!(MixedRadixAvx4x2::new(false, SimdSupport { avx: false, fma: true }).is_err());
    assert!(MixedRadixAvx4x4::new(false, SimdSupport { avx: true, fma: false }).is_err());
    assert!(MixedRadixAvx4x8::new(true, SimdSupport { avx: false, fma: false }).is_err());
    assert!(MixedRadixAvx8x8::new(true, SimdSupport { avx: false, fma: true }).is_err());
    let half = Dft::new(16, false);
    let quarter = Dft::new(8, false);
    assert!(SplitRadixAvx::new(half, quarter, SimdSupport { avx: true, fma: false }).is_err());
}

#[test]
fn test_impulse_forward_size8() {
    // The transform of the unit impulse is all ones.
    let fft = MixedRadixAvx4x2::new(false, FULL_SUPPORT).unwrap();
    let mut input = zeros(8);
    input[0] = Complex { re: 1, im: 0 };
    let output = run_inline(&fft, &input);
    for k in 0..8 {
        assert_eq!(output[k], Complex { re: 1, im: 0 });
    }
}

#[test]
fn test_all_ones_forward_size8() {
    // The transform of all ones is the scaled impulse.
    let fft = MixedRadixAvx4x2::new(false, FULL_SUPPORT).unwrap();
    let input = vec![Complex { re: 1, im: 0 }; 8];
    let output = run_inline(&fft, &input);
    assert_eq!(output[0], Complex { re: 8, im: 0 });
    for k in 1..8 {
        assert_eq!(output[k], Complex { re: 0, im: 0 });
    }
}

#[test]
fn test_single_tone_forward_size16() {
    // A pure positive-frequency tone lands entirely in bin one.
    let fft = MixedRadixAvx4x4::new(false, FULL_SUPPORT).unwrap();
    let input: Vec<Complex> = (0..16).map(|n| single_twiddle(n, 16, true)).collect();
    let output = run_inline(&fft, &input);
    assert_eq!(output[1], Complex { re: 16, im: 0 });
    for k in 0..16 {
        if k != 1 {
            assert_eq!(output[k], Complex { re: 0, im: 0 });
        }
    }
}

#[test]
fn test_impulse_inverse_size32() {
    // The unnormalized inverse of the scaled impulse is the constant signal.
    let fft = MixedRadixAvx4x8::new(true, FULL_SUPPORT).unwrap();
    let mut input = zeros(32);
    input[0] = Complex { re: 32, im: 0 };
    let output = run_inline(&fft, &input);
    for k in 0..32 {
        assert_eq!(output[k], Complex { re: 32, im: 0 });
    }
}

#[test]
fn test_cosine_forward_size64() {
    // The exact cosine at three cycles concentrates in bins 3 and 61.
    let fft = MixedRadixAvx8x8::new(false, FULL_SUPPORT).unwrap();
    let input: Vec<Complex> = (0..64)
        .map(|n| Complex { re: single_twiddle((3 * n) % 64, 64, false).re, im: 0 })
        .collect();
    let output = run_inline(&fft, &input);
    for k in 0..64 {
        if k == 3 || k == 61 {
            assert_eq!(output[k], Complex { re: 32, im: 0 });
        } else {
            assert_eq!(output[k], Complex { re: 0, im: 0 });
        }
    }
}

#[test]
fn test_splitradix_256_matches_reference() {
    // A nested split radix of length 256 agrees with the direct summation.
    let quarter = SplitRadix::new(Dft::new(32, false), Dft::new(16, false));
    let half = SplitRadix::new(Dft::new(64, false), Dft::new(32, false));
    let fft = SplitRadix::new(half, quarter);
    let signal = random_signal(256, 0xfeed);
    assert_eq!(run_inline(&fft, &signal), reference_dft(&signal, false));
}

fn scale(v: &[Complex], factor: u64) -> Vec<Complex> {
    v.iter()
        .map(|c| Complex { re: mmul(c.re, factor), im: mmul(c.im, factor) })
        .collect()
}

fn inverse_of_len(n: usize) -> u64 {
    // The inverse of 2^k modulo P, as a product of inverses of two.
    let mut r: u64 = 1;
    let mut m = n;
    while m > 1 {
        r = mmul(r, 32769);
        m /= 2;
    }
    r
}

#[test]
fn test_round_trip_recovers_signal() {
    // Forward then inverse, scaled by 1/N, recovers the input exactly.
    for pow in 3..9 {
        let len = 1usize << pow;
        let forward = SplitRadix::new(Dft::new(len / 2, false), Dft::new(len / 4, false));
        let inverse = SplitRadix::new(Dft::new(len / 2, true), Dft::new(len / 4, true));
        let signal = random_signal(len, 7 + len as u64);
        let spectrum = run_inline(&forward, &signal);
        let recovered = scale(&run_inline(&inverse, &spectrum), inverse_of_len(len));
        assert_eq!(recovered, signal);
    }
}

#[test]
fn test_round_trip_vectorized() {
    for pow in 4..7 {
        let len = 1usize << pow;
        let forward = SplitRadixAvx::new(Dft::new(len / 2, false), Dft::new(len / 4, false), FULL_SUPPORT)
            .unwrap();
        let inverse = SplitRadixAvx::new(Dft::new(len / 2, true), Dft::new(len / 4, true), FULL_SUPPORT)
            .unwrap();
        let signal = random_signal(len, 11 + len as u64);
        let spectrum = run_inline(&forward, &signal);
        let recovered = scale(&run_inline(&inverse, &spectrum), inverse_of_len(len));
        assert_eq!(recovered, signal);
    }
}

#[test]
fn test_linearity() {
    // T(a*x + b*y) equals a*T(x) + b*T(y), exactly.
    let fft = MixedRadixAvx4x4::new(false, FULL_SUPPORT).unwrap();
    let x = random_signal(16, 21);
    let y = random_signal(16, 43);
    let a = Complex { re: 12345, im: 678 };
    let b = Complex { re: 4242, im: 65000 };
    let combined: Vec<Complex> = (0..16)
        .map(|n| a.mul_c(x[n]).add_c(b.mul_c(y[n])))
        .collect();
    let lhs = run_inline(&fft, &combined);
    let tx = run_inline(&fft, &x);
    let ty = run_inline(&fft, &y);
    let rhs: Vec<Complex> = (0..16).map(|k| a.mul_c(tx[k]).add_c(b.mul_c(ty[k]))).collect();
    assert_eq!(lhs, rhs);
}

#[test]
fn test_parseval() {
    // The energy of the signal equals the energy of the spectrum over N.
    let fft = MixedRadixAvx8x8::new(false, FULL_SUPPORT).unwrap();
    let x = random_signal(64, 99);
    let spectrum = run_inline(&fft, &x);
    let energy = |v: &[Complex]| -> Complex {
        let mut acc = Complex { re: 0, im: 0 };
        for c in v {
            acc = acc.add_c(c.mul_c(c.conj()));
        }
        acc
    };
    let lhs = energy(&x);
    let scaled = scale(&[energy(&spectrum)], inverse_of_len(64));
    assert_eq!(lhs, scaled[0]);
}

#[test]
fn test_batch_equivalence() {
    // Each chunk of a batch matches the single-chunk path bit for bit.
    let fft = MixedRadixAvx4x4::new(false, FULL_SUPPORT).unwrap();
    let chunks = [random_signal(16, 1), random_signal(16, 2), random_signal(16, 3)];
    let mut batch: Vec<Complex> = chunks.iter().flatten().copied().collect();
    let mut scratch = zeros(fft.get_required_scratch_len().max(1));
    process_inline_multi(&fft, &mut batch, &mut scratch);
    for (i, chunk) in chunks.iter().enumerate() {
        assert_eq!(&batch[16 * i..16 * (i + 1)], &run_inline(&fft, chunk)[..]);
    }
}

#[test]
fn test_repeated_calls_are_identical() {
    // Handles are immutable: identical inputs yield identical outputs.
    let fft = SplitRadix::new(Dft::new(8, false), Dft::new(4, false));
    let signal = random_signal(16, 5);
    assert_eq!(run_inline(&fft, &signal), run_inline(&fft, &signal));
}

#[test]
fn test_scalar_and_vectorized_split_radix_agree() {
    // The two split-radix paths compute the same mathematics.
    for pow in 4..8 {
        let len = 1usize << pow;
        for &inverse in &[false, true] {
            let scalar = SplitRadix::new(Dft::new(len / 2, inverse), Dft::new(len / 4, inverse));
            let vectorized = SplitRadixAvx::new(
                Dft::new(len / 2, inverse),
                Dft::new(len / 4, inverse),
                FULL_SUPPORT,
            )
            .unwrap();
            let signal = random_signal(len, 17 + len as u64);
            assert_eq!(run_inline(&scalar, &signal), run_inline(&vectorized, &signal));
        }
    }
}

#[test]
fn test_scalar_leaf_butterflies() {
    // The size-2 and size-4 leaves agree with the reference.
    for &inverse in &[false, true] {
        let bf2 = splitfft::butterflies::Butterfly2::new(inverse);
        let x2 = random_signal(2, 23);
        assert_eq!(run_inline(&bf2, &x2), reference_dft(&x2, inverse));

        let bf4 = splitfft::butterflies::Butterfly4::new(inverse);
        let x4 = random_signal(4, 29);
        assert_eq!(run_inline(&bf4, &x4), reference_dft(&x4, inverse));
    }
}

#[test]
fn test_split_radix_over_leaf_butterflies() {
    // The split radix seeded by the scalar leaves matches the reference.
    let fft = SplitRadix::new(
        splitfft::butterflies::Butterfly4::new(false),
        splitfft::butterflies::Butterfly2::new(false),
    );
    let signal = random_signal(8, 31);
    assert_eq!(run_inline(&fft, &signal), reference_dft(&signal, false));
}

#[test]
fn test_introspection() {
    let fft = SplitRadix::new(Dft::new(16, false), Dft::new(8, false));
    assert_eq!(fft.len(), 32);
    assert!(!fft.is_inverse());
    assert_eq!(fft.get_required_scratch_len(), 16);

    let vectorized = SplitRadixAvx::new(Dft::new(16, true), Dft::new(8, true), FULL_SUPPORT).unwrap();
    assert_eq!(vectorized.len(), 32);
    assert!(vectorized.is_inverse());
    assert_eq!(vectorized.get_required_scratch_len(), 17);

    let kernel = MixedRadixAvx8x8::new(false, FULL_SUPPORT).unwrap();
    assert_eq!(kernel.len(), 64);
    assert_eq!(kernel.get_required_scratch_len(), 0);
}

#[test]
fn test_twiddle_values() {
    // The twiddle at index zero is one; the quarter twiddle is the
    // direction's 90-degree rotation; forward and inverse are conjugates.
    assert_eq!(single_twiddle(0, 8, false), Complex { re: 1, im: 0 });
    assert_eq!(single_twiddle(1, 4, false), Complex { re: 0, im: P - 1 });
    assert_eq!(single_twiddle(1, 4, true), Complex { re: 0, im: 1 });
    let forward = single_twiddle(3, 16, false);
    let inverse = single_twiddle(3, 16, true);
    assert_eq!(forward, inverse.conj());
    // Twiddles have unit modulus in the ring.
    let norm = mmul(forward.re, forward.re) + mmul(forward.im, forward.im);
    assert_eq!(norm % P, 1);
}
