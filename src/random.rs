use vstd::prelude::*;
use rand::rngs::StdRng;
use rand::{Rng, SeedableRng};

verus! {

/// rand's `StdRng`, the seeded generator behind the session's random
/// stream; held opaque, only passed to the functions below.
#[verifier::external_type_specification]
#[verifier::external_body]
pub struct ExStdRng(StdRng);

/// Relies on rand's `StdRng::seed_from_u64`: a generator whose stream is
/// fixed by the seed.
#[verifier::external_body]
fn rng_from_seed(seed: u64) -> StdRng {
    StdRng::seed_from_u64(seed)
}

/// Relies on rand's `Rng::gen::<u32>`: the next value of the stream, any `u32`.
#[verifier::external_body]
fn draw_u32(rng: &mut StdRng) -> u32 {
    rng.gen::<u32>()
}

/// Relies on rand's `Rng::gen::<u64>`: the next value of the stream, any `u64`.
#[verifier::external_body]
fn draw_u64(rng: &mut StdRng) -> u64 {
    rng.gen::<u64>()
}

/// Relies on rand's `Rng::gen_range(0..max)`: a value below `max`; the
/// function panics on an empty range, which `requires` leaves out.
#[verifier::external_body]
fn draw_below(rng: &mut StdRng, max: usize) -> (r: usize)
    requires
        max > 0,
    ensures
        r < max,
{
    rng.gen_range(0..max)
}

/// Swaps two entries of `v`, `j` below `i`, moving values only.
fn swap_entries<T>(v: &mut Vec<T>, j: usize, i: usize)
    requires
        j < i < old(v).len(),
    ensures
        final(v)@ == old(v)@.update(i as int, old(v)@[j as int]).update(j as int, old(v)@[i as int]),
        final(v)@.to_multiset() == old(v)@.to_multiset(),
{
    broadcast use vstd::seq_lib::group_to_multiset_ensures;
    broadcast use vstd::multiset::group_multiset_axioms;

    let ghost s0 = v@;
    let a = v.remove(i);
    let ghost s1 = v@;
    let b = v.remove(j);
    let ghost s2 = v@;
    v.insert(j, a);
    let ghost s3 = v@;
    v.insert(i, b);
    assert(v@ =~= s0.update(i as int, s0[j as int]).update(j as int, s0[i as int]));
    assert(s1.to_multiset() == s0.to_multiset().remove(a));
    assert(s2.to_multiset() == s1.to_multiset().remove(b));
    assert(s3.to_multiset() == s2.to_multiset().insert(a));
    assert(v@.to_multiset() == s3.to_multiset().insert(b));
    assert(s0.to_multiset().contains(a));
    assert(s1.to_multiset().contains(b)) by {
        assert(s1[j as int] == b);
    }
    assert(v@.to_multiset() =~= s0.to_multiset());
}

/// The session's single seeded random stream.
#[derive(Debug)]
pub struct SeededRandom {
    rng: StdRng,
}

impl SeededRandom {
    /// A stream fixed by `seed`.
    pub fn new(seed: u64) -> Self {
        SeededRandom { rng: rng_from_seed(seed) }
    }

    /// The next `u32` of the stream.
    pub fn next_u32(&mut self) -> u32 {
        draw_u32(&mut self.rng)
    }

    /// The next `u64` of the stream.
    pub fn next_u64(&mut self) -> u64 {
        draw_u64(&mut self.rng)
    }

    /// A value in `[0, max)`.
    pub fn next_range(&mut self, max: usize) -> (r: usize)
        requires
            max > 0,
        ensures
            r < max,
    {
        draw_below(&mut self.rng, max)
    }

    /// Reorders `v` at random (Fisher-Yates); the entries stay the same.
    pub fn shuffle<T>(&mut self, v: &mut Vec<T>)
        ensures
            final(v)@.len() == old(v)@.len(),
            final(v)@.to_multiset() == old(v)@.to_multiset(),
    {
        let n = v.len();
        if n < 2 {
            return ;
        }
        let mut i: usize = n - 1;
        while i > 0
            invariant
                i < n,
                v@.len() == n,
                v@.to_multiset() == old(v)@.to_multiset(),
            decreases i,
        {
            let j = draw_below(&mut self.rng, i + 1);
            if j < i {
                swap_entries(v, j, i);
            }
            i = i - 1;
        }
    }
}

} // verus!
