//! Pricing and position engine of a distribution market: an automated market
//! maker whose belief is a scaled Gaussian, priced by L2 distance in
//! nine-digit fixed-point arithmetic.

pub mod abi;
pub mod bytes;
pub mod dispatch;
pub mod fixed;
pub mod gaussian;
pub mod keys;
pub mod laws;
pub mod lifecycle;
pub mod mixture;
pub mod pricing;
pub mod records;
pub mod valuation;
