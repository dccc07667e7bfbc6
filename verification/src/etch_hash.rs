//! The executable hash: one-shot, resumable, and as an accumulator that is
//! fed piece by piece.

use vstd::prelude::*;
use crate::model::{hash_from, hash_of, low_word, mix, SEED};

verus! {

/// Absorbs one byte into the state.
///
/// The shifts are done in 64 bits, where they cannot lose a bit, and only the
/// sum is cut back to 32 bits.
fn absorb(r: u32, b: u8) -> (next: u32)
    ensures
        next == mix(r, b),
{
    let wide_r: u64 = r as u64;
    let high: u64 = wide_r << 16;
    let low: u64 = wide_r << 6;
    assert(high == wide_r * 65536 && low == wide_r * 64) by (bit_vector)
        requires
            wide_r <= 0xffff_ffff,
            high == wide_r << 16,
            low == wide_r << 6,
    ;
    let wide: u64 = high + low - wide_r + (b as u64);
    let next: u32 = #[verifier::truncate] (wide as u32);
    assert(next == wide % 0x1_0000_0000) by (bit_vector)
        requires
            next == wide as u32,
    ;
    next
}

/// Continues a hash computation: the state reached from `start_hash` after
/// absorbing `data`, first byte to last.
///
/// Defined for every state and every byte string; on the empty string the
/// result is `start_hash` itself.
pub fn hash_more(start_hash: u32, data: &[u8]) -> (result: u32)
    ensures
        result == hash_from(start_hash, data@),
{
    let mut result: u32 = start_hash;
    let mut i: usize = 0;
    while i < data.len()
        invariant
            i <= data.len(),
            result == hash_from(start_hash, data@.take(i as int)),
        decreases data.len() - i,
    {
        proof {
            let next = data@.take(i + 1);
            assert(next.drop_last() == data@.take(i as int));
            assert(next.last() == data@[i as int]);
        }
        result = absorb(result, data[i]);
        i += 1;
    }
    proof {
        assert(data@.take(i as int) == data@);
    }
    result
}

/// The hash of `data`: `hash_more` started from the seed.
///
/// The hash of the empty string is the seed itself.
pub fn hash(data: &[u8]) -> (result: u32)
    ensures
        result == hash_of(data@),
{
    hash_more(SEED, data)
}

/// An accumulator that holds the state of a hash computation in progress.
///
/// Its view is that state. Feeding it byte strings one after another leaves
/// it where feeding their concatenation at once would.
#[derive(Debug)]
pub struct EtchHash {
    state: u32,
}

impl View for EtchHash {
    type V = u32;

    closed spec fn view(&self) -> u32 {
        self.state
    }
}

impl EtchHash {
    /// An accumulator that has absorbed nothing: its state is the seed.
    pub fn new() -> (hasher: EtchHash)
        ensures
            hasher@ == SEED,
    {
        EtchHash { state: SEED }
    }

    /// An accumulator that resumes from `state`.
    ///
    /// Only the low 32 bits of `state` are kept and the higher bits are cut
    /// off, so a value that `finish` returned gives back the state it was
    /// read from.
    pub fn new_with_state(state: u64) -> (hasher: EtchHash)
        ensures
            hasher@ == low_word(state),
    {
        let low: u32 = #[verifier::truncate] (state as u32);
        assert(low == state % 0x1_0000_0000) by (bit_vector)
            requires
                low == state as u32,
        ;
        EtchHash { state: low }
    }

    /// What `finish` returns for this accumulator: its state, widened.
    pub open spec fn finish_value(&self) -> u64 {
        self@ as u64
    }
}

impl Clone for EtchHash {
    /// An independent accumulator in the same state. Feeding one of the two
    /// afterwards leaves the other as it is.
    fn clone(&self) -> (copy: EtchHash)
        ensures
            copy@ == self@,
    {
        EtchHash { state: self.state }
    }
}

impl std::hash::Hasher for EtchHash {
    /// The current state, widened to 64 bits. The accumulator is left as it
    /// is and can be fed further.
    fn finish(&self) -> (value: u64)
        ensures
            value == self.finish_value(),
    {
        self.state as u64
    }

    /// Absorbs `bytes`, first to last, into the state.
    fn write(&mut self, bytes: &[u8])
        ensures
            final(self)@ == hash_from(old(self)@, bytes@),
    {
        self.state = hash_more(self.state, bytes);
    }
}

} // verus!
