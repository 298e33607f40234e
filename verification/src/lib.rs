//! Integer core of a procedural noise toolkit.
//!
//! The noise kernels themselves (gradient, simplex, cellular, domain-warped,
//! and the fractal combinators) blend floating-point samples, which this
//! library does not hold. What it holds, and verifies, is everything the
//! kernels decide with integers: the hash-based uniform generator's state
//! machine, the permutation table and the lattice-corner hash chains built on
//! it, the per-cell seeds and Poisson point counts of cellular noise, the
//! uncorrelated cell keys of value noise, and the simplex traversal-order
//! tables. Each function carries an exact contract: the result is pinned to a
//! spec-level formula over the tables and wrapping 32-bit arithmetic.

pub mod perlin;
pub mod random;
pub mod simplex;
pub mod uniform;
pub mod worley;

pub use uniform::UniformRandomGen;
