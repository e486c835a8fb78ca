use vstd::prelude::*;

verus! {

/// One xorshift32 round: `x ^= x << 13; x ^= x >> 17; x ^= x << 5`.
pub open spec fn xorshift32(x: u32) -> u32 {
    let a = x ^ ((x << 13u32) as u32);
    let b = a ^ (a >> 17u32);
    b ^ ((b << 5u32) as u32)
}

/// Xorshift pseudo-random generator used for the noise of the synthesised sounds.
pub struct PRNG {
    seed: u32,
}

impl PRNG {
    /// The current internal state.
    pub closed spec fn state(&self) -> u32 {
        self.seed
    }

    /// The state is never zero: zero is the one fixed point of xorshift.
    #[verifier::type_invariant]
    closed spec fn nonzero(&self) -> bool {
        self.seed != 0
    }

    /// The current state, which is never zero.
    pub fn current(&self) -> (r: u32)
        ensures
            r == self.state(),
            r != 0,
    {
        proof {
            use_type_invariant(self);
        }
        self.seed
    }

    /// Creates a generator whose state is `seed` with its lowest bit set.
    pub fn new(seed: u32) -> (r: Self)
        ensures
            r.state() == seed | 1u32,
    {
        assert(seed | 1u32 != 0u32) by (bit_vector);
        PRNG { seed: seed | 1 }
    }

    /// Advances the generator by one xorshift32 round and returns the new state.
    pub fn next_u32(&mut self) -> (r: u32)
        ensures
            r == xorshift32(old(self).state()),
            final(self).state() == r,
            r != 0,
    {
        proof {
            use_type_invariant(&*self);
        }
        let x = self.seed;
        let a = x ^ (x << 13u32);
        let b = a ^ (a >> 17u32);
        let c = b ^ (b << 5u32);
        proof {
            lemma_xorshift32_nonzero(x);
        }
        self.seed = c;
        c
    }
}

/// Xorshift32 maps every nonzero state to a nonzero state, so a generator
/// seeded through `PRNG::new` never falls into the all-zero fixed point.
pub proof fn lemma_xorshift32_nonzero(x: u32)
    requires
        x != 0,
    ensures
        xorshift32(x) != 0,
{
    let a = x ^ ((x << 13u32) as u32);
    assert(x != 0u32 ==> x ^ ((x << 13u32) as u32) != 0u32) by (bit_vector);
    let b = a ^ (a >> 17u32);
    assert(a != 0u32 ==> a ^ (a >> 17u32) != 0u32) by (bit_vector);
    assert(b != 0u32 ==> b ^ ((b << 5u32) as u32) != 0u32) by (bit_vector);
}

} // verus!
