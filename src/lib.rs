//! Deterministic seeding for a randomized test harness: a run seed and a
//! test's name give a reproducible stream of per-iteration seeds, and a
//! pseudorandom generator whose output is a pure function of its seed.
pub mod framework;
pub mod prng;

pub use framework::{identity, Test, TestCase, TestCaseId, TestFramework, RUN_SEED};
pub use prng::{DefaultPrng, SplitMix64, Xoshiro256ss};
