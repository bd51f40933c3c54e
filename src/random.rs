use crate::bytes::{le_value, read_u64_le};
use vstd::arithmetic::div_mod::{lemma_add_mod_noop_right, lemma_div_denominator, lemma_basic_div};
use vstd::arithmetic::power2::{lemma_pow2_pos, lemma_pow2_unfold, lemma_pow2_strictly_increases, lemma2_to64, pow2};
use vstd::prelude::*;

verus! {

/// Ticks between opening a session and the first tick at which it may settle.
pub const ENHANCER_TARGET_SLOT: u64 = 20;

/// Ticks after the target during which settlement carries no penalty.
pub const ENHANCE_SLOT_BUFFER: u64 = 6;

/// Lower end of the enhancement multiplier range, and the floor of the decay.
pub const ENHANCE_MIN_MULTIPLIER: u64 = 320;

/// Upper end of the enhancement multiplier range.
pub const ENHANCE_MAX_MULTIPLIER: u64 = 600;

pub open spec fn word_modulus() -> int {
    0x1_0000_0000_0000_0000int
}

/// The `i`-th little-endian 8-byte word of `h`.
pub open spec fn hash_word(h: Seq<u8>, i: int) -> nat {
    le_value(h.subrange(8 * i, 8 * i + 8))
}

/// Sum of the first `n` words of `h`, as an unbounded integer.
pub open spec fn words_total(h: Seq<u8>, n: nat) -> nat
    decreases n,
{
    if n == 0 {
        0
    } else {
        words_total(h, (n - 1) as nat) + hash_word(h, n - 1)
    }
}

/// The four words of a 32-byte hash summed with 64-bit wraparound.
pub open spec fn hash_accumulator(h: Seq<u8>) -> int {
    words_total(h, 4) as int % word_modulus()
}

/// The number that `derive_number_from_hash` yields for `h` and the range `[min, max]`.
pub open spec fn derived_number(h: Seq<u8>, min: int, max: int) -> int {
    min + hash_accumulator(h) % (max - min + 1)
}

/// Maps a 32-byte hash to a number in `[min, max]`: the hash is read as four
/// little-endian words, summed with wraparound, and reduced modulo the size
/// of the range.
pub fn derive_number_from_hash(hash: &[u8; 32], min: u64, max: u64) -> (r: u64)
    requires
        min <= max,
        max - min < u64::MAX,
    ensures
        r == derived_number(hash@, min as int, max as int),
        min <= r <= max,
{
    let data: &[u8] = hash.as_slice();
    let mut acc: u64 = 0;
    let mut i: usize = 0;
    while i < 4
        invariant
            i <= 4,
            data@ == hash@,
            data@.len() == 32,
            acc as int == words_total(hash@, i as nat) as int % word_modulus(),
        decreases 4 - i,
    {
        let w = read_u64_le(data, 8 * i);
        let s: u128 = acc as u128 + w as u128;
        proof {
            lemma_add_mod_noop_right(
                hash_word(hash@, i as int) as int,
                words_total(hash@, i as nat) as int,
                word_modulus(),
            );
        }
        acc = (s % 0x1_0000_0000_0000_0000u128) as u64;
        i = i + 1;
    }
    let span: u64 = max - min + 1;
    min + acc % span
}

/// The multiplier that settling at `current` a session that targets `target`
/// yields from the raw draw `raw`: unchanged up to `target` plus the buffer,
/// then halved once for each tick past it, but never below the minimum.
pub open spec fn settled_multiplier(raw: int, current: int, target: int) -> int {
    let tolerance = target + ENHANCE_SLOT_BUFFER;
    if current > tolerance {
        let halved = raw / pow2((current - tolerance) as nat) as int;
        if halved < ENHANCE_MIN_MULTIPLIER {
            ENHANCE_MIN_MULTIPLIER as int
        } else {
            halved
        }
    } else {
        raw
    }
}

/// Applies the late-settlement decay to the raw draw.
pub fn apply_decay(raw: u64, current_slot: u64, target_slot: u64) -> (r: u64)
    ensures
        r == settled_multiplier(raw as int, current_slot as int, target_slot as int),
{
    let tolerance: u64 = target_slot.saturating_add(ENHANCE_SLOT_BUFFER);
    if current_slot <= tolerance {
        return raw;
    }
    let late: u64 = current_slot - tolerance;
    let mut v: u64 = raw;
    let mut k: u64 = 0;
    let steps: u64 = if late < 64 { late } else { 64 };
    proof {
        lemma2_to64();
    }
    while k < steps
        invariant
            k <= steps <= 64,
            v as int == raw as int / pow2(k as nat) as int,
        decreases steps - k,
    {
        proof {
            lemma_pow2_pos(k as nat);
            lemma_div_denominator(raw as int, pow2(k as nat) as int, 2);
            lemma_pow2_unfold((k + 1) as nat);
        }
        v = v / 2;
        k = k + 1;
    }
    proof {
        if late >= 64 {
            lemma2_to64();
            if late > 64 {
                lemma_pow2_strictly_increases(64, late as nat);
            }
            lemma_basic_div(raw as int, pow2(late as nat) as int);
            lemma_basic_div(raw as int, pow2(64) as int);
        }
    }
    if v < ENHANCE_MIN_MULTIPLIER {
        ENHANCE_MIN_MULTIPLIER
    } else {
        v
    }
}

/// Every 32-byte hash draws a number in `[320, 600]`, and equal hashes draw
/// equal numbers.
pub proof fn lemma_derived_number_in_range(h1: Seq<u8>, h2: Seq<u8>)
    requires
        h1.len() == 32,
    ensures
        ENHANCE_MIN_MULTIPLIER <= derived_number(h1, 320, 600) <= ENHANCE_MAX_MULTIPLIER,
        h1 == h2 ==> derived_number(h1, 320, 600) == derived_number(h2, 320, 600),
{
}

/// Settling exactly at the end of the buffer keeps the raw draw.
pub proof fn lemma_no_decay_at_tolerance(raw: int, target: int)
    ensures
        settled_multiplier(raw, target + ENHANCE_SLOT_BUFFER, target) == raw,
{
}

/// Three ticks past the buffer, a draw of 500 falls to the floor of 320.
pub proof fn lemma_decay_three_ticks_late(target: int)
    ensures
        settled_multiplier(500, target + ENHANCE_SLOT_BUFFER + 3, target) == 320,
{
    lemma2_to64();
    assert(500int / 8 == 62);
}

} // verus!
