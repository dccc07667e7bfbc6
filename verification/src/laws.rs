//! What holds of the hash whatever the input: the laws that make it safe to
//! hash a common prefix once and branch from there.

use vstd::prelude::*;
use crate::etch_hash::EtchHash;
use crate::model::{hash_from, hash_of, low_word, mix, modulus, SEED};

verus! {

/// The mixing step is a multiply-and-add: the state times 65599, plus the
/// byte, modulo 2^32.
pub proof fn lemma_mix_is_multiply_add(r: u32, b: u8)
    ensures
        mix(r, b) == (65599 * r + b) % modulus(),
{
}

/// Absorbing nothing leaves the state as it is.
pub proof fn lemma_hash_from_empty(start: u32)
    ensures
        hash_from(start, Seq::<u8>::empty()) == start,
{
}

/// Absorbing `first` and then `second` reaches the same state as absorbing
/// their concatenation at once, from any starting state.
pub proof fn lemma_hash_from_concat(start: u32, first: Seq<u8>, second: Seq<u8>)
    ensures
        hash_from(hash_from(start, first), second) == hash_from(start, first + second),
    decreases second.len(),
{
    if second.len() == 0 {
        assert(first + second == first);
    } else {
        lemma_hash_from_concat(start, first, second.drop_last());
        assert((first + second).drop_last() == first + second.drop_last());
        assert((first + second).last() == second.last());
    }
}

/// Resuming from the hash of a prefix with a suffix gives the hash of the
/// prefix followed by the suffix.
pub proof fn lemma_hash_resumes(prefix: Seq<u8>, suffix: Seq<u8>)
    ensures
        hash_from(hash_of(prefix), suffix) == hash_of(prefix + suffix),
{
    lemma_hash_from_concat(SEED, prefix, suffix);
}

/// A state survives the round trip through 64 bits: widened and cut back, it
/// is the same state.
pub proof fn lemma_low_word_of_state(state: u32)
    ensures
        low_word(state as u64) == state,
{
}

/// An accumulator that starts where `new` puts it and is then fed `data`
/// finishes with the hash of `data`.
pub proof fn lemma_accumulator_agrees_with_hash(fresh: EtchHash, fed: EtchHash, data: Seq<u8>)
    requires
        fresh@ == SEED,
        fed@ == hash_from(fresh@, data),
    ensures
        fed.finish_value() == hash_of(data),
{
}

/// Feeding an accumulator `first` and then `second` leaves it where feeding
/// it their concatenation at once would.
pub proof fn lemma_writes_concatenate(
    before: EtchHash,
    between: EtchHash,
    after: EtchHash,
    first: Seq<u8>,
    second: Seq<u8>,
)
    requires
        between@ == hash_from(before@, first),
        after@ == hash_from(between@, second),
    ensures
        after@ == hash_from(before@, first + second),
{
    lemma_hash_from_concat(before@, first, second);
}

/// Two copies of an accumulator that has absorbed `prefix`, each fed a suffix
/// of its own, finish with the hash of `prefix` followed by that suffix:
/// neither result depends on what the other copy was fed.
pub proof fn lemma_copies_are_independent(
    original: EtchHash,
    left: EtchHash,
    right: EtchHash,
    prefix: Seq<u8>,
    left_suffix: Seq<u8>,
    right_suffix: Seq<u8>,
)
    requires
        original@ == hash_of(prefix),
        left@ == hash_from(original@, left_suffix),
        right@ == hash_from(original@, right_suffix),
    ensures
        left.finish_value() == hash_of(prefix + left_suffix),
        right.finish_value() == hash_of(prefix + right_suffix),
{
    lemma_hash_resumes(prefix, left_suffix);
    lemma_hash_resumes(prefix, right_suffix);
}

/// An accumulator resumed from the finished value of the hash of `prefix`
/// and then fed `suffix` finishes with the hash of `prefix` followed by
/// `suffix`.
pub proof fn lemma_state_round_trip(resumed: EtchHash, fed: EtchHash, prefix: Seq<u8>, suffix: Seq<u8>)
    requires
        resumed@ == low_word(hash_of(prefix) as u64),
        fed@ == hash_from(resumed@, suffix),
    ensures
        fed.finish_value() == hash_of(prefix + suffix),
{
    lemma_low_word_of_state(hash_of(prefix));
    lemma_hash_resumes(prefix, suffix);
}

} // verus!
