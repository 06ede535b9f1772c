//! The pseudorandom engine: a SplitMix64 generator that expands one seed
//! into the initial lanes of a xoshiro256** generator.
use vstd::prelude::*;

verus! {

/// Added to the SplitMix64 state on every draw.
pub const GOLDEN_GAMMA: u64 = 0x9e3779b97f4a7c15;

/// Multiplier of the first SplitMix64 mixing round.
pub const MIX_MUL_1: u64 = 0xbf58476d1ce4e5b9;

/// Multiplier of the second SplitMix64 mixing round.
pub const MIX_MUL_2: u64 = 0x94d049bb133111eb;

/// `x` rotated left by `k` bits, for `0 < k < 64`.
pub open spec fn rotl(x: u64, k: u32) -> u64 {
    (x << k) | (x >> ((64 - k) as u32))
}

/// The SplitMix64 output for the state value `z` held before the draw.
pub open spec fn splitmix_mix(z: u64) -> u64 {
    let a = vstd::wrapping::u64_specs::wrapping_mul(z ^ (z >> 30u64), MIX_MUL_1);
    let b = vstd::wrapping::u64_specs::wrapping_mul(a ^ (a >> 27u64), MIX_MUL_2);
    b ^ (b >> 31u64)
}


/// The SplitMix64 state after `i` draws from a generator seeded with `seed`.
pub open spec fn splitmix_state(seed: u64, i: nat) -> u64
    decreases i,
{
    if i == 0 {
        seed
    } else {
        vstd::wrapping::u64_specs::wrapping_add(splitmix_state(seed, (i - 1) as nat), GOLDEN_GAMMA)
    }
}

/// The `i`-th value (counting from zero) drawn from SplitMix64 seeded with `seed`.
pub open spec fn splitmix_value(seed: u64, i: nat) -> u64 {
    splitmix_mix(splitmix_state(seed, i))
}

/// The four lanes `s0, s1, s2, s3` of a xoshiro256** generator.
pub type Lanes = (u64, u64, u64, u64);

/// The value that a draw from lanes `s` returns: `rotl(s1 * 5, 7) * 9`.
pub open spec fn xoshiro_output(s: Lanes) -> u64 {
    vstd::wrapping::u64_specs::wrapping_mul(
        rotl(vstd::wrapping::u64_specs::wrapping_mul(s.1, 5), 7),
        9,
    )
}

/// The lanes after one draw from lanes `s`.
pub open spec fn xoshiro_step(s: Lanes) -> Lanes {
    let t = s.1 << 17u64;
    let s2 = s.2 ^ s.0;
    let s3 = s.3 ^ s.1;
    let s1 = s.1 ^ s2;
    let s0 = s.0 ^ s3;
    (s0, s1, s2 ^ t, rotl(s3, 45))
}

/// The lanes after `n` draws from lanes `s`.
pub open spec fn xoshiro_state_after(s: Lanes, n: nat) -> Lanes
    decreases n,
{
    if n == 0 {
        s
    } else {
        xoshiro_step(xoshiro_state_after(s, (n - 1) as nat))
    }
}

/// The first `n` values drawn from lanes `s`, in order.
pub open spec fn xoshiro_draws(s: Lanes, n: nat) -> Seq<u64> {
    Seq::new(n, |i: int| xoshiro_output(xoshiro_state_after(s, i as nat)))
}

/// The lanes of a xoshiro256** generator seeded with `seed`: the first four
/// SplitMix64 values for that seed.
pub open spec fn seeded_lanes(seed: u64) -> Lanes {
    (splitmix_value(seed, 0), splitmix_value(seed, 1), splitmix_value(seed, 2), splitmix_value(seed, 3))
}

/// The first `n` values of a xoshiro256** generator seeded with `seed`.
pub open spec fn seeded_draws(seed: u64, n: nat) -> Seq<u64> {
    xoshiro_draws(seeded_lanes(seed), n)
}

/// The first `j` of `k` draws are the `j` draws of a run that stops there.
pub proof fn lemma_draws_prefix(s: Lanes, j: nat, k: nat)
    requires
        j <= k,
    ensures
        xoshiro_draws(s, k).subrange(0, j as int) == xoshiro_draws(s, j),
{
    assert(xoshiro_draws(s, k).subrange(0, j as int) =~= xoshiro_draws(s, j));
}

/// Determinism: two generators made by `from_seed` with the same seed hold
/// the same lanes, so any number `n` of draws gives the same values from
/// both and leaves them in the same lanes.
pub proof fn lemma_same_seed_same_draws(a: Xoshiro256ss, b: Xoshiro256ss, seed: u64, n: nat)
    requires
        a@ == seeded_lanes(seed),
        b@ == seeded_lanes(seed),
    ensures
        xoshiro_draws(a@, n) == seeded_draws(seed, n),
        xoshiro_draws(a@, n) == xoshiro_draws(b@, n),
        xoshiro_state_after(a@, n) == xoshiro_state_after(b@, n),
{
}

/// SplitMix64: a one-lane generator, used to expand a single seed into the
/// lanes of the main generator.
pub struct SplitMix64 {
    state: u64,
}

impl View for SplitMix64 {
    type V = u64;

    closed spec fn view(&self) -> u64 {
        self.state
    }
}

impl SplitMix64 {
    /// A generator whose state is `seed`.
    pub fn from_seed(seed: u64) -> (r: Self)
        ensures
            r@ == seed,
    {
        SplitMix64 { state: seed }
    }

    /// Draws the next value. The state advances by the golden gamma, with
    /// wraparound, and the value is the mix of the state held before.
    pub fn next(&mut self) -> (r: u64)
        ensures
            r == splitmix_mix(old(self)@),
            final(self)@ == vstd::wrapping::u64_specs::wrapping_add(old(self)@, GOLDEN_GAMMA),
    {
        let z = self.state;
        self.state = self.state.wrapping_add(GOLDEN_GAMMA);
        let a = (z ^ (z >> 30)).wrapping_mul(MIX_MUL_1);
        let b = (a ^ (a >> 27)).wrapping_mul(MIX_MUL_2);
        b ^ (b >> 31)
    }
}

/// The xoshiro256** generator, with four 64-bit lanes.
pub struct Xoshiro256ss {
    s0: u64,
    s1: u64,
    s2: u64,
    s3: u64,
}

/// The generator that the harness uses by default.
pub type DefaultPrng = Xoshiro256ss;

impl View for Xoshiro256ss {
    type V = Lanes;

    closed spec fn view(&self) -> Lanes {
        (self.s0, self.s1, self.s2, self.s3)
    }
}

impl Xoshiro256ss {
    /// A generator whose lanes are the first four SplitMix64 values drawn
    /// for `seed`.
    pub fn from_seed(seed: u64) -> (r: Self)
        ensures
            r@ == seeded_lanes(seed),
    {
        let mut gen = SplitMix64::from_seed(seed);
        let s0 = gen.next();
        let s1 = gen.next();
        let s2 = gen.next();
        let s3 = gen.next();
        proof {
            reveal_with_fuel(splitmix_state, 4);
        }
        Xoshiro256ss { s0, s1, s2, s3 }
    }

    /// Draws the next value, computed from the lanes held before the draw,
    /// and advances the lanes by one step.
    pub fn next(&mut self) -> (r: u64)
        ensures
            r == xoshiro_output(old(self)@),
            final(self)@ == xoshiro_step(old(self)@),
    {
        let result = Self::rotate(self.s1.wrapping_mul(5), 7).wrapping_mul(9);
        let t = self.s1 << 17;
        self.s2 = self.s2 ^ self.s0;
        self.s3 = self.s3 ^ self.s1;
        self.s1 = self.s1 ^ self.s2;
        self.s0 = self.s0 ^ self.s3;
        self.s2 = self.s2 ^ t;
        self.s3 = Self::rotate(self.s3, 45);
        result
    }

    fn rotate(x: u64, k: u32) -> (r: u64)
        requires
            0 < k < 64,
        ensures
            r == rotl(x, k),
    {
        (x << k) | (x >> (64 - k))
    }
}

} // verus!
