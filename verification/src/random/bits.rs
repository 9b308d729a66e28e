//! The generators of 64-bit words: a seed expander and the bit
//! generator that it seeds.

use crate::random::clock::micros_from_epoch;
use vstd::prelude::*;

verus! {

/// The odd increment by which the seed expander advances its state.
pub const GOLDEN_GAMMA: u64 = 0x9e37_79b9_7f4a_7c15;

/// Multiplier of the first mixing round of the seed expander.
pub const MIX_FIRST: u64 = 0xbf58_476d_1ce4_e5b9;

/// Multiplier of the second mixing round of the seed expander.
pub const MIX_SECOND: u64 = 0x94d0_49bb_1331_11eb;

/// The state of the seed expander after one more draw.
pub open spec fn expander_advance(state: u64) -> u64 {
    state.wrapping_add(GOLDEN_GAMMA)
}

/// The word that the seed expander puts out from the state it has advanced to:
/// two rounds of xor-shift and multiply, and a last xor-shift.
pub open spec fn expander_mix(state: u64) -> u64 {
    let a = (state ^ (state >> 30)).wrapping_mul(MIX_FIRST);
    let b = (a ^ (a >> 27)).wrapping_mul(MIX_SECOND);
    b ^ (b >> 31)
}

/// The `n`-th word (counting from zero) that a seed expander in state `state` puts out.
pub open spec fn expander_output(state: u64, n: nat) -> u64
    decreases n,
{
    if n == 0 {
        expander_mix(expander_advance(state))
    } else {
        expander_output(expander_advance(state), (n - 1) as nat)
    }
}

/// `x` rotated left by `k` bits.
pub open spec fn rotate_left(x: u64, k: u64) -> u64
    recommends
        0 < k < 64,
{
    (x << k) | (x >> ((64 - k) as u64))
}

/// The two state words that the bit generator starts from under `seed`:
/// the first two outputs of a seed expander seeded with it.
pub open spec fn seeded_state(seed: u64) -> (u64, u64) {
    (expander_output(seed, 0), expander_output(seed, 1))
}

/// The word that the bit generator puts out in state `state`.
pub open spec fn generator_output(state: (u64, u64)) -> u64 {
    state.0.wrapping_add(state.1)
}

/// The state of the bit generator after a draw in state `state`.
pub open spec fn generator_advance(state: (u64, u64)) -> (u64, u64) {
    let t = state.1 ^ state.0;
    (rotate_left(state.0, 55) ^ t ^ (t << 14), rotate_left(t, 36))
}

/// The state of the bit generator after `n` draws from `state`.
pub open spec fn generator_state_after(state: (u64, u64), n: nat) -> (u64, u64)
    decreases n,
{
    if n == 0 {
        state
    } else {
        generator_advance(generator_state_after(state, (n - 1) as nat))
    }
}

/// The first `n` words that the bit generator puts out from `state`.
pub open spec fn generator_stream(state: (u64, u64), n: nat) -> Seq<u64> {
    Seq::new(n, |i: int| generator_output(generator_state_after(state, i as nat)))
}

/// Generators in one state put out the same words, however many are drawn:
/// seeded twice with one seed, the generator repeats itself.
pub proof fn lemma_same_seed_same_stream(first: u64, second: u64, n: nat)
    requires
        first == second,
    ensures
        generator_stream(seeded_state(first), n) == generator_stream(seeded_state(second), n),
        generator_state_after(seeded_state(first), n) == generator_state_after(
            seeded_state(second),
            n,
        ),
{
}

/// Advancing first and then `n` times is advancing `n` times and then once more.
pub proof fn lemma_state_after_advance(state: (u64, u64), n: nat)
    ensures
        generator_state_after(generator_advance(state), n) == generator_state_after(
            state,
            n + 1,
        ),
    decreases n,
{
    if n == 0 {
        assert(generator_state_after(state, 1) == generator_advance(
            generator_state_after(state, 0),
        ));
    } else {
        lemma_state_after_advance(state, (n - 1) as nat);
        assert(generator_state_after(state, n + 1) == generator_advance(
            generator_state_after(state, n),
        ));
    }
}

/// The words put out from a state are the word of that state, followed by
/// the words put out from the state after it.
pub proof fn lemma_stream_unfold(state: (u64, u64), n: nat)
    ensures
        generator_stream(state, n + 1) == seq![generator_output(state)] + generator_stream(
            generator_advance(state),
            n,
        ),
{
    let whole = generator_stream(state, n + 1);
    let parts = seq![generator_output(state)] + generator_stream(generator_advance(state), n);
    assert forall|i: int| 0 <= i < n + 1 implies whole[i] == parts[i] by {
        if i > 0 {
            lemma_state_after_advance(state, (i - 1) as nat);
        }
    }
    assert(whole =~= parts);
}

/// The two multipliers of the seed expander are odd: each has an inverse
/// among the 64-bit words, and multiplying by it undoes the multiplication.
proof fn lemma_multipliers_invert(x: u64)
    ensures
        x.wrapping_mul(MIX_FIRST).wrapping_mul(0x96de_1b17_3f11_9089) == x,
        x.wrapping_mul(MIX_SECOND).wrapping_mul(0x3196_42b2_d24d_8ec3) == x,
{
    assert(x.wrapping_mul(0xbf58_476d_1ce4_e5b9u64).wrapping_mul(0x96de_1b17_3f11_9089u64) == x)
        by (bit_vector);
    assert(x.wrapping_mul(0x94d0_49bb_1331_11ebu64).wrapping_mul(0x3196_42b2_d24d_8ec3u64) == x)
        by (bit_vector);
}

/// A xor-shift to the right loses nothing: words that it carries to one
/// word are one word.
proof fn lemma_xor_shifts_injective(x: u64, y: u64)
    ensures
        x ^ (x >> 30) == y ^ (y >> 30) ==> x == y,
        x ^ (x >> 27) == y ^ (y >> 27) ==> x == y,
        x ^ (x >> 31) == y ^ (y >> 31) ==> x == y,
{
    assert(x ^ (x >> 30) == y ^ (y >> 30) ==> x == y) by (bit_vector);
    assert(x ^ (x >> 27) == y ^ (y >> 27) ==> x == y) by (bit_vector);
    assert(x ^ (x >> 31) == y ^ (y >> 31) ==> x == y) by (bit_vector);
}

/// The mixing of the seed expander is one-to-one.
pub proof fn lemma_mix_injective(x: u64, y: u64)
    requires
        expander_mix(x) == expander_mix(y),
    ensures
        x == y,
{
    let ax = (x ^ (x >> 30)).wrapping_mul(MIX_FIRST);
    let ay = (y ^ (y >> 30)).wrapping_mul(MIX_FIRST);
    let bx = (ax ^ (ax >> 27)).wrapping_mul(MIX_SECOND);
    let by_ = (ay ^ (ay >> 27)).wrapping_mul(MIX_SECOND);
    lemma_xor_shifts_injective(bx, by_);
    lemma_multipliers_invert(ax ^ (ax >> 27));
    lemma_multipliers_invert(ay ^ (ay >> 27));
    lemma_xor_shifts_injective(ax, ay);
    lemma_multipliers_invert(x ^ (x >> 30));
    lemma_multipliers_invert(y ^ (y >> 30));
    lemma_xor_shifts_injective(x, y);
}

/// Different seeds start the bit generator in different states.
pub proof fn lemma_distinct_seeds_distinct_states(first: u64, second: u64)
    requires
        first != second,
    ensures
        seeded_state(first) != seeded_state(second),
{
    if seeded_state(first) == seeded_state(second) {
        lemma_mix_injective(expander_advance(first), expander_advance(second));
    }
}

fn rotl(x: u64, k: u64) -> (r: u64)
    requires
        0 < k < 64,
    ensures
        r == rotate_left(x, k),
{
    (x << k) | (x >> (64 - k))
}

/// The seed expander: one 64-bit state word, advanced and mixed at every draw.
#[derive(Debug)]
pub struct Splitmix64 {
    state: u64,
}

impl View for Splitmix64 {
    type V = u64;

    closed spec fn view(&self) -> u64 {
        self.state
    }
}

impl Splitmix64 {
    /// An expander seeded from the wall clock, in microseconds since the Unix
    /// epoch: two of them made at different times start from different states.
    pub fn new() -> (mix: Splitmix64) {
        Splitmix64::from_seed(micros_from_epoch())
    }

    /// An expander whose state is `seed`.
    pub fn from_seed(seed: u64) -> (mix: Splitmix64)
        ensures
            mix@ == seed,
    {
        Splitmix64 { state: seed }
    }

    /// Advances the state by the golden-ratio increment and returns the mixed word.
    pub fn next(&mut self) -> (out: u64)
        ensures
            final(self)@ == expander_advance(old(self)@),
            out == expander_mix(final(self)@),
            out == expander_output(old(self)@, 0),
    {
        self.state = self.state.wrapping_add(GOLDEN_GAMMA);
        let mut z: u64 = self.state;
        z = (z ^ (z >> 30)).wrapping_mul(MIX_FIRST);
        z = (z ^ (z >> 27)).wrapping_mul(MIX_SECOND);
        z ^ (z >> 31)
    }
}

/// The bit generator: two 64-bit state words, put out as their wrapping sum
/// and then scrambled by rotations, xors and a shift.
#[derive(Debug)]
pub struct RngBase {
    s: [u64; 2],
}

impl View for RngBase {
    type V = (u64, u64);

    closed spec fn view(&self) -> (u64, u64) {
        (self.s[0], self.s[1])
    }
}

impl RngBase {
    /// A generator seeded from the wall clock through a seed expander. Its
    /// state is one that some explicit seed would have given.
    pub fn new() -> (rng: RngBase)
        ensures
            exists|seed: u64| rng@ == seeded_state(seed),
    {
        RngBase::from_seed(micros_from_epoch())
    }

    /// A generator whose two state words are the first two outputs of a seed
    /// expander seeded with `seed`.
    pub fn from_seed(seed: u64) -> (rng: RngBase)
        ensures
            rng@ == seeded_state(seed),
    {
        let mut mix = Splitmix64::from_seed(seed);
        let first = mix.next();
        let second = mix.next();
        proof {
            reveal_with_fuel(expander_output, 2);
        }
        RngBase { s: [first, second] }
    }

    /// Returns the wrapping sum of the two state words and moves to the next state.
    pub fn next(&mut self) -> (out: u64)
        ensures
            out == generator_output(old(self)@),
            final(self)@ == generator_advance(old(self)@),
    {
        let mut s0: u64 = self.s[0];
        let mut s1: u64 = self.s[1];
        let result = s0.wrapping_add(s1);
        s1 ^= s0;
        s0 = rotl(s0, 55) ^ s1 ^ (s1 << 14);
        s1 = rotl(s1, 36);
        self.s = [s0, s1];
        result
    }
}

} // verus!
