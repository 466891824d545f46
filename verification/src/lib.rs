//! A split-radix fast Fourier transform engine, verified end to end.
//!
//! The engine computes discrete Fourier transforms of power-of-two length
//! with the classical split-radix decomposition, a family of fixed-size
//! mixed-radix kernels whose data movement mirrors 256-bit SIMD register
//! choreography (4 complex lanes per register), and a direct-summation
//! reference transform.
//!
//! Floating point admits no exact contracts, so the engine fixes its sample
//! scalar to the field of integers modulo the Fermat prime 65537. The
//! multiplicative group of that field is cyclic of order 2^16, so exact
//! roots of unity of every power-of-two order up to 2^16 exist, and every
//! transform identity (twiddle indexing, decimation, recombination) holds
//! exactly rather than up to rounding.

pub mod butterflies;
pub mod complex;
pub mod modp;
pub mod split_radix;
pub mod dft;
pub mod kernels;
pub mod lanes;
pub mod laws;
pub mod traits;
pub mod twiddles;
pub mod vector_butterflies;
