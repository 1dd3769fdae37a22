use vstd::prelude::*;

verus! {

/// The saved state `(state, increment)` of the 32-bit generator right after
/// it has been seeded.
pub uninterp spec fn seeded_state(seed: u64) -> (u64, u64);

/// The number that the 32-bit generator hands out from a saved state,
/// together with the saved state it is left in.
pub uninterp spec fn drawn(state: (u64, u64)) -> (u32, (u64, u64));

/// The saved state of the generator before its `n`-th draw (counted from 0).
pub open spec fn state_before(seed: u64, n: nat) -> (u64, u64)
    decreases n,
{
    if n == 0 {
        seeded_state(seed)
    } else {
        drawn(state_before(seed, (n - 1) as nat)).1
    }
}

/// The `n`-th number (counted from 0) of the stream that a seed starts.
pub open spec fn nth_draw(seed: u64, n: nat) -> u32 {
    drawn(state_before(seed, n)).0
}

/// Seeds a generator with `oorandom::Rand32::new` and saves it with
/// `Rand32::state`. Trusted: the saved state depends on the seed alone,
/// which the generator's source shows (no clock, no global state).
#[verifier::external_body]
fn seed_generator(seed: u64) -> (s: (u64, u64))
    ensures
        s == seeded_state(seed),
{
    oorandom::Rand32::new(seed).state()
}

/// Resumes a generator with `oorandom::Rand32::from_state`, takes one number
/// with `Rand32::rand_u32` and saves the generator again. Trusted: number and
/// new state depend on the old state alone; nothing is claimed of their values.
#[verifier::external_body]
fn draw_u32(state: (u64, u64)) -> (r: (u32, (u64, u64)))
    ensures
        r == drawn(state),
{
    let mut generator = oorandom::Rand32::from_state(state);
    let number: u32 = generator.rand_u32();
    (number, generator.state())
}

/// A stream of numbers that its seed fixes: the same seed gives the same
/// numbers in the same order.
pub struct RandomSeeder {
    state: (u64, u64),
}

impl RandomSeeder {
    /// The saved state of the generator behind the stream.
    pub closed spec fn saved(&self) -> (u64, u64) {
        self.state
    }

    /// The stream that `seed` starts.
    pub fn new(seed: u64) -> (seeder: RandomSeeder)
        ensures
            seeder.saved() == seeded_state(seed),
    {
        RandomSeeder { state: seed_generator(seed) }
    }

    /// Takes the next number off the stream.
    pub fn draw(&mut self) -> (number: u32)
        ensures
            number == drawn(old(self).saved()).0,
            final(self).saved() == drawn(old(self).saved()).1,
    {
        let (number, after) = draw_u32(self.state);
        self.state = after;
        number
    }
}

} // verus!
