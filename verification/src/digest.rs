//! The model's commitment function: a 64-bit mixing digest standing in for
//! the consensus hashes (trie roots, header hash). It is deterministic and
//! spreads its input; nothing here claims collision resistance.

use vstd::prelude::*;

verus! {

/// Multiplier of the mixing step.
pub const DIGEST_PRIME: u128 = 0x100000001b3;

/// Additive constant of the mixing step.
pub const DIGEST_SHIFT: u128 = 0x9e3779b97f4a7c15;

/// Seed every digest starts from.
pub const DIGEST_SEED: u64 = 0xcbf29ce484222325;

/// One mixing step: fold the word `x` into the running digest `h`.
pub open spec fn spec_mix64(h: u64, x: u64) -> u64 {
    ((((h ^ x) as u128) * DIGEST_PRIME + DIGEST_SHIFT) % 0x10000000000000000int) as u64
}

/// One mixing step: fold the word `x` into the running digest `h`.
pub fn mix64(h: u64, x: u64) -> (r: u64)
    ensures
        r == spec_mix64(h, x),
{
    ((((h ^ x) as u128) * DIGEST_PRIME + DIGEST_SHIFT) % 0x10000000000000000u128) as u64
}

/// The low 64 bits of a 128-bit value.
pub open spec fn spec_lo64(v: u128) -> u64 {
    (v % 0x10000000000000000u128) as u64
}

/// The high 64 bits of a 128-bit value.
pub open spec fn spec_hi64(v: u128) -> u64 {
    (v / 0x10000000000000000u128) as u64
}

/// Splits a 128-bit value into its high and low 64-bit words.
pub fn u128_words(v: u128) -> (r: (u64, u64))
    ensures
        r.0 == spec_hi64(v),
        r.1 == spec_lo64(v),
{
    proof {
        vstd::arithmetic::div_mod::lemma_multiply_divide_lt(v as int, 0x10000000000000000, 0x10000000000000000);
    }
    ((v / 0x10000000000000000u128) as u64, (v % 0x10000000000000000u128) as u64)
}

/// The word a boolean folds in as.
pub open spec fn spec_bool_word(b: bool) -> u64 {
    if b { 1u64 } else { 0u64 }
}

/// The word a boolean folds in as.
pub fn bool_word(b: bool) -> (r: u64)
    ensures
        r == spec_bool_word(b),
{
    if b { 1 } else { 0 }
}

/// The words an optional word folds in as: a presence tag, then the value.
pub open spec fn spec_mix_option(h: u64, v: Option<u64>) -> u64 {
    match v {
        Option::Some(x) => spec_mix64(spec_mix64(h, 1), x),
        Option::None => spec_mix64(h, 0),
    }
}

/// Folds an optional word into the running digest.
pub fn mix_option(h: u64, v: Option<u64>) -> (r: u64)
    ensures
        r == spec_mix_option(h, v),
{
    match v {
        Option::Some(x) => mix64(mix64(h, 1), x),
        Option::None => mix64(h, 0),
    }
}

} // verus!
