//! Verified core of a small quantitative-finance service: it turns loosely
//! structured price histories into a validated, time-major price matrix and
//! prepares portfolio-allocation requests for an external optimizer, whose
//! sparse answer it normalizes into a dense weight vector.
//!
//! Floating-point arithmetic cannot be reasoned about here, so every price or
//! weight travels through this crate as the IEEE-754 bit pattern of the `f64`
//! (a `u64`) it denotes; the unverified shell around the crate converts in
//! both directions and performs the numeric work (random draws, the geometric
//! Brownian motion steps, and the optimizer itself).

pub mod allocation;
pub mod error;
pub mod frequency;
pub mod json;
pub mod matrix;
