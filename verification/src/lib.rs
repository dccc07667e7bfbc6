//! The Apache Etch hash: a 32-bit, non-cryptographic string hash of the DJB2
//! family, used to derive a stable identifier from a byte string, typically a
//! dotted symbolic name.
//!
//! The hash is a left fold of one mixing step over the input bytes, starting
//! from a fixed seed. It can be computed in one shot ([`hash`]), resumed from
//! an earlier result ([`hash_more`]), or accumulated piece by piece
//! ([`EtchHash`]). Every executable function is proved to compute the
//! mathematical model in [`model`]; [`laws`] states what follows for callers.

pub mod etch_hash;
pub mod laws;
pub mod model;

pub use etch_hash::{hash, hash_more, EtchHash};
pub use model::SEED;
