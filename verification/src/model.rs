//! The mathematical model of the hash: one mixing step, and its left fold
//! over a sequence of bytes.

use vstd::prelude::*;

verus! {

/// The state from which every one-shot hash starts.
pub const SEED: u32 = 5381;

/// Number of distinct states: the arithmetic of the hash is modulo this.
pub open spec fn modulus() -> int {
    0x1_0000_0000
}

/// One mixing step: the state `r` absorbs the byte `b`.
///
/// The next state is `(r << 16) + (r << 6) - r + b`, taken over the integers
/// and then reduced modulo 2^32.
pub open spec fn mix(r: u32, b: u8) -> u32 {
    ((r * 65536 + r * 64 - r + b) % modulus()) as u32
}

/// The state reached from `start` after absorbing the bytes of `data`, first
/// to last.
pub open spec fn hash_from(start: u32, data: Seq<u8>) -> u32
    decreases data.len(),
{
    if data.len() == 0 {
        start
    } else {
        mix(hash_from(start, data.drop_last()), data.last())
    }
}

/// The low 32 bits of a 64-bit value: what remains of it as a state.
pub open spec fn low_word(value: u64) -> u32 {
    (value % 0x1_0000_0000) as u32
}

/// The hash of `data`: the state reached from the seed.
pub open spec fn hash_of(data: Seq<u8>) -> u32 {
    hash_from(SEED, data)
}

} // verus!
