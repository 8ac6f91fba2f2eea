//! A boundary layer for a time-weighted moving average over fixed-point
//! "division" buckets: lossless 128-bit wire encoding, a success/failure
//! envelope, borrowed sequences copied out, and the call into the averaging
//! engine of `transmuter_math`.
pub mod numbers;
pub mod result;
pub mod slice;
pub mod errors;
pub mod transmuter;
