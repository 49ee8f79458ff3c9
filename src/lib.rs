//! Resolve an NVDA release channel to an installer, check its SHA-1 digest,
//! and decide each step of a download run.

pub mod hex;
pub mod digest;
pub mod text;
pub mod release;
pub mod run;
pub mod laws;
