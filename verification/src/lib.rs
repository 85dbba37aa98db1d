//! Verified models of the small firmware routines used in a set of cycle
//! measurement exercises, together with the arithmetic that the measurement
//! runner performs on the numbers it collects.
//!
//! The firmware side consists of a three-way sign function, a pair of
//! doubling functions (one saturating, one exact), a fixed-count busy loop,
//! a mock peripheral with an eight-byte receive buffer, and three summation
//! strategies (recursive, iterative, closed-form) that are proved to agree.
//! The runner side consists of the pure arithmetic around the measurements —
//! selecting the largest per-path cycle estimate, and differencing the
//! 24-bit cycle counter register across a measured region — together with the
//! runner's decisions: a step function that fixes the order of the probe
//! operations of one hardware measurement and stops it at the first failed
//! operation, and the verdict on one symbolic-execution report.

pub mod device;
pub mod measure;
pub mod runner;
pub mod sign;
pub mod sums;
