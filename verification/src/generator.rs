//! The seeded generator that board fills draw their booleans from.

use rand::rngs::StdRng;
use rand::{Rng, SeedableRng};
use vstd::prelude::*;

verus! {

/// The seed that every generator starts from, and returns to on a reset.
pub const SEED: u64 = 2024;

/// `rand::rngs::StdRng`, carried as an opaque value.
#[verifier::external_type_specification]
#[verifier::external_body]
pub struct ExStdRng(StdRng);

/// The boolean that the draw number `index`, counted from zero, returns on a
/// generator that `StdRng::seed_from_u64(seed)` made. `rand` documents the
/// algorithm of `StdRng` as deterministic, and leaves open only that another
/// version of the crate may choose another algorithm: the stream is that of
/// the version this crate is built with.
pub uninterp spec fn seeded_draw(seed: u64, index: nat) -> bool;

/// What a generator holds: the booleans that it will hand out from the
/// state it is in, each under the number of its draw, counted from zero.
pub uninterp spec fn pending(rng: StdRng) -> Map<nat, bool>;

/// Calls `StdRng::seed_from_u64`. The seed alone fixes the generator's state,
/// and so every boolean that will be drawn from it.
#[verifier::external_body]
fn seeded(seed: u64) -> (rng: StdRng)
    ensures
        forall|k: nat| #[trigger] pending(rng)[k] == seeded_draw(seed, k),
{
    StdRng::seed_from_u64(seed)
}

/// Calls `Rng::gen::<bool>`, which takes the next 32 bits of the stream and
/// tests their sign. The generator hands out the boolean that was next and
/// moves on by one: what was its draw `k + 1` is now its draw `k`.
#[verifier::external_body]
fn next_bool(rng: &mut StdRng) -> (b: bool)
    ensures
        b == pending(*old(rng))[0],
        forall|k: nat| #[trigger] pending(*final(rng))[k] == pending(*old(rng))[k + 1],
{
    rng.gen::<bool>()
}

/// A deterministic source of booleans. It starts from [`SEED`], moves on by
/// one with every draw, and goes back to the start only on [`Generator::reset`].
pub struct Generator {
    rng: StdRng,
    drawn: Ghost<nat>,
}

impl Generator {
    /// The number of draws made since the generator was created or last reset.
    pub closed spec fn drawn(&self) -> nat {
        self.drawn@
    }

    /// The boolean that the draw number `k` from now (counted from zero)
    /// will return.
    pub closed spec fn upcoming(&self, k: nat) -> bool {
        pending(self.rng)[k]
    }

    /// The next `n` booleans that the generator will hand out, in order.
    pub open spec fn next_draws(&self, n: nat) -> Seq<bool> {
        Seq::new(n, |k: int| self.upcoming(k as nat))
    }

    /// The generator stands in the stream of [`SEED`], `drawn()` draws from
    /// its start.
    pub open spec fn wf(&self) -> bool {
        forall|k: nat| self.upcoming(k) == seeded_draw(SEED, self.drawn() + k)
    }

    /// A generator at the start of the stream of [`SEED`].
    pub fn new() -> (generator: Generator)
        ensures
            generator.wf(),
            generator.drawn() == 0,
    {
        Generator { rng: seeded(SEED), drawn: Ghost(0) }
    }

    /// Starts the stream over from [`SEED`], wherever the generator stood.
    pub fn reset(&mut self)
        ensures
            final(self).wf(),
            final(self).drawn() == 0,
    {
        self.rng = seeded(SEED);
        self.drawn = Ghost(0);
    }

    /// Draws the next boolean of the stream and moves on by one.
    pub fn draw_bool(&mut self) -> (b: bool)
        ensures
            b == old(self).upcoming(0),
            forall|k: nat| final(self).upcoming(k) == old(self).upcoming(k + 1),
            final(self).drawn() == old(self).drawn() + 1,
            old(self).wf() ==> final(self).wf() && b == seeded_draw(SEED, old(self).drawn()),
    {
        let b = next_bool(&mut self.rng);
        self.drawn = Ghost(self.drawn@ + 1);
        proof {
            assert(b == old(self).upcoming(0));
            if old(self).wf() {
                assert forall|k: nat| self.upcoming(k) == seeded_draw(
                    SEED,
                    self.drawn() + k,
                ) by {
                    assert(old(self).upcoming(k + 1) == seeded_draw(
                        SEED,
                        old(self).drawn() + (k + 1),
                    ));
                }
            }
        }
        b
    }
}

/// Two generators that stand at the start of the stream, as every generator
/// does when it is made and after each reset, hand out the same booleans,
/// however many are drawn.
pub proof fn lemma_same_start_same_draws(a: Generator, b: Generator, n: nat)
    requires
        a.wf(),
        b.wf(),
        a.drawn() == 0,
        b.drawn() == 0,
    ensures
        a.next_draws(n) == b.next_draws(n),
        forall|k: int| 0 <= k < n ==> a.next_draws(n)[k] == seeded_draw(SEED, k as nat),
{
    assert forall|k: int| 0 <= k < n implies a.next_draws(n)[k] == seeded_draw(SEED, k as nat) by {
        assert(a.upcoming(k as nat) == seeded_draw(SEED, a.drawn() + k as nat));
    }
    assert forall|k: int| 0 <= k < n implies a.next_draws(n)[k] == b.next_draws(n)[k] by {
        assert(a.upcoming(k as nat) == seeded_draw(SEED, a.drawn() + k as nat));
        assert(b.upcoming(k as nat) == seeded_draw(SEED, b.drawn() + k as nat));
    }
    assert(a.next_draws(n) =~= b.next_draws(n));
}

} // verus!
