//! Seeded pseudo-random number generator (xorshift64*).
//!
//! The platform supplies the seed; the core never reads its own entropy.

use vstd::prelude::*;

verus! {

/// What a zero seed becomes: xorshift has a fixed point at zero.
pub const ZERO_SEED_STATE: u64 = 0x9E37_79B9_7F4A_7C15;

/// The multiplier that scrambles each state into an output.
pub const MULTIPLIER: u64 = 0x2545_F491_4F6C_DD1D;

/// The state a generator seeded with `seed` starts in.
pub open spec fn seeded(seed: u64) -> u64 {
    if seed == 0 {
        ZERO_SEED_STATE
    } else {
        seed
    }
}

/// One xorshift step of the state.
pub open spec fn step(x: u64) -> u64 {
    let a = x ^ (x >> 12u64);
    let b = a ^ (a << 25u64);
    b ^ (b >> 27u64)
}

/// The output drawn from a new state: the state times `MULTIPLIER`, wrapping.
pub open spec fn scramble(x: u64) -> u64 {
    ((x as int * MULTIPLIER as int) % 0x1_0000_0000_0000_0000int) as u64
}

/// The state a generator seeded with `seed` is in after `n` draws.
pub open spec fn nth_state(seed: u64, n: nat) -> u64
    decreases n,
{
    if n == 0 {
        seeded(seed)
    } else {
        step(nth_state(seed, (n - 1) as nat))
    }
}

/// The `n`-th value (counting from zero) a generator seeded with `seed` draws.
pub open spec fn nth_draw(seed: u64, n: nat) -> u64 {
    scramble(nth_state(seed, n + 1))
}

/// The same seed gives the same sequence: a generator that has drawn `n`
/// values since it was seeded with `seed` is in `nth_state(seed, n)`, and
/// `next_u64` then returns `nth_draw(seed, n)` and leaves it in the state of
/// `n + 1` draws. Both depend on the seed and the count alone.
pub proof fn lemma_same_seed_same_sequence(seed: u64, n: nat)
    ensures
        nth_state(seed, 0) == seeded(seed),
        step(nth_state(seed, n)) == nth_state(seed, n + 1),
        scramble(step(nth_state(seed, n))) == nth_draw(seed, n),
{
}

/// A pseudo-random generator. Its view is its state, which is never zero.
#[derive(Debug)]
pub struct Rng {
    state: u64,
}

impl View for Rng {
    type V = u64;

    closed spec fn view(&self) -> u64 {
        self.state
    }
}

/// An xorshift step never reaches the all-zero state from any other state.
pub proof fn lemma_step_nonzero(x: u64)
    requires
        x != 0,
    ensures
        step(x) != 0,
{
    assert(x != 0 ==> ({
        let a = x ^ (x >> 12u64);
        let b = a ^ (a << 25u64);
        b ^ (b >> 27u64)
    }) != 0) by (bit_vector);
}

impl Clone for Rng {
    fn clone(&self) -> (r: Rng)
        ensures
            r@ == self@,
    {
        proof {
            use_type_invariant(self);
        }
        Rng { state: self.state }
    }
}

impl Rng {
    #[verifier::type_invariant]
    spec fn nonzero(self) -> bool {
        self.state != 0
    }

    /// A generator's state is never zero, so it never gets stuck.
    pub fn state_is_nonzero(&self) -> (b: bool)
        ensures
            b,
            self@ != 0,
    {
        proof {
            use_type_invariant(self);
        }
        self.state != 0
    }

    /// A generator seeded with `seed`. A zero seed is remapped, since zero is
    /// xorshift's fixed point.
    pub fn new(seed: u64) -> (r: Rng)
        ensures
            r@ == seeded(seed),
    {
        let state = if seed == 0 {
            ZERO_SEED_STATE
        } else {
            seed
        };
        Rng { state }
    }

    /// Advance the state one step and return the scrambled new state.
    pub fn next_u64(&mut self) -> (v: u64)
        ensures
            final(self)@ == step(old(self)@),
            v == scramble(step(old(self)@)),
    {
        proof {
            use_type_invariant(&*self);
            lemma_step_nonzero(self.state);
        }
        let mut x = self.state;
        x = x ^ (x >> 12u64);
        x = x ^ (x << 25u64);
        x = x ^ (x >> 27u64);
        self.state = x;
        x.wrapping_mul(MULTIPLIER)
    }

    /// A value in `lo..=hi`. Returns `lo`, drawing nothing, if `hi <= lo`.
    pub fn range_inclusive(&mut self, lo: u64, hi: u64) -> (v: u64)
        ensures
            hi <= lo ==> v == lo && final(self)@ == old(self)@,
            lo < hi ==> final(self)@ == step(old(self)@),
            lo < hi && hi - lo < u64::MAX ==> v == lo + scramble(step(old(self)@)) as int % (
            hi - lo + 1),
            lo < hi && hi - lo == u64::MAX ==> v == scramble(step(old(self)@)),
            lo <= v <= hi || (hi < lo && v == lo),
    {
        if hi <= lo {
            return lo;
        }
        let diff = hi - lo;
        if diff < u64::MAX {
            let span = diff + 1;
            let r = self.next_u64();
            proof {
                assert(r % span < span) by (nonlinear_arith)
                    requires
                        span > 0,
                ;
            }
            lo + r % span
        } else {
            self.next_u64()
        }
    }
}

} // verus!
