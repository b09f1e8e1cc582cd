//! The pseudo-random generator behind every sample space.
//!
//! A `Generator` owns a `rand::rngs::StdRng` together with a ghost record of
//! how that generator was seeded and which bounded draws it has served so
//! far.  `StdRng` is a deterministic pseudo-random generator: once it is
//! seeded from a `u64`, the value of every subsequent bounded draw is a pure
//! function of the seed and of the sequence of bounds drawn with.  The spec
//! function `std_draw` names that function, and the trusted draw wrapper
//! states each draw's result through it.
//!
//! The `history` field is ghost bookkeeping, private to this module: every
//! function here that touches the `rng` field keeps `history` an exact record
//! of how `rng` was produced.  The contracts of the trusted items below are
//! true of `rand` only under that correspondence.

use vstd::prelude::*;
use rand::Rng;
use rand::SeedableRng;

verus! {

#[verifier::external_type_specification]
#[verifier::external_body]
pub struct ExStdRng(rand::rngs::StdRng);

/// The value returned by `rand`'s bounded uniform draw at the end of a
/// trajectory: an `StdRng` is seeded with `StdRng::seed_from_u64(seed)`, then
/// `Rng::gen_range(0..b)` is called once for each `b` in `bounds`, in order;
/// `std_draw(seed, bounds)` is what the last of those calls returns.
///
/// `StdRng` in the pinned version of `rand` is the ChaCha block cipher with
/// twelve rounds, `seed_from_u64` expands the seed by a fixed arithmetic
/// recurrence, and `gen_range` over `u64` is rejection sampling over the
/// generator's output stream, so the whole trajectory is determined by the
/// seed and the bounds alone.
pub uninterp spec fn std_draw(seed: u64, bounds: Seq<u64>) -> u64;

/// What is known of how a generator reached its current state.
pub enum History {
    /// Seeded from entropy: nothing can be said of its draws.
    Unknown,
    /// Seeded from `seed`, then asked for one bounded draw per entry of
    /// `bounds`, in order.
    Seeded { seed: u64, bounds: Seq<u64> },
}

/// A deterministic pseudo-random generator with a ghost record of its
/// seeding and draw history.
pub struct Generator {
    rng: rand::rngs::StdRng,
    history: Ghost<History>,
}

/// Relies on `rand::SeedableRng::seed_from_u64` for `StdRng`: the returned
/// generator's state is a pure function of `seed`.
#[verifier::external_body]
fn rng_from_seed(seed: u64) -> rand::rngs::StdRng {
    rand::rngs::StdRng::seed_from_u64(seed)
}

/// Relies on `rand::SeedableRng::from_entropy` for `StdRng`: a generator
/// seeded from the operating system's entropy source.  Nothing is promised
/// of its draws.  It panics only if the operating system cannot supply
/// entropy.
#[verifier::external_body]
fn rng_from_entropy() -> rand::rngs::StdRng {
    rand::rngs::StdRng::from_entropy()
}

impl Generator {
    /// What is recorded of this generator's seeding and draws.
    pub closed spec fn history(&self) -> History {
        self.history@
    }

    /// Whether the generator was seeded from a known `u64` seed.
    pub open spec fn is_seeded(&self) -> bool {
        self.history() is Seeded
    }

    /// The seed the generator was built from, when it is known.
    pub open spec fn seed(&self) -> u64 {
        self.history()->Seeded_seed
    }

    /// The bounds of the draws served since seeding, in draw order.
    pub open spec fn bounds(&self) -> Seq<u64> {
        self.history()->Seeded_bounds
    }

    /// A generator deterministically seeded from `seed`, with no draws yet.
    pub fn from_seed(seed: u64) -> (g: Generator)
        ensures
            g.is_seeded(),
            g.seed() == seed,
            g.bounds() == Seq::<u64>::empty(),
    {
        Generator {
            rng: rng_from_seed(seed),
            history: Ghost(History::Seeded { seed, bounds: Seq::empty() }),
        }
    }

    /// A generator seeded from a non-reproducible entropy source.
    pub fn from_entropy() -> (g: Generator)
        ensures
            !g.is_seeded(),
    {
        Generator {
            rng: rng_from_entropy(),
            history: Ghost(History::Unknown),
        }
    }

    /// Relies on `rand::Rng::gen_range` over `0..bound` for `StdRng`: the
    /// result lies in `[0, bound)` (unbiased rejection sampling; it panics
    /// only on an empty range, which the precondition rules out), and both
    /// the result and the generator's next state are pure functions of the
    /// generator's state and `bound` — so, for a generator seeded from a
    /// known seed, the result is `std_draw` of the seed and of the bounds
    /// drawn with so far.
    #[verifier::external_body]
    pub(crate) fn draw_below(&mut self, bound: u64) -> (r: u64)
        requires
            bound >= 1,
        ensures
            r < bound,
            final(self).is_seeded() == old(self).is_seeded(),
            old(self).is_seeded() ==> {
                &&& final(self).seed() == old(self).seed()
                &&& final(self).bounds() == old(self).bounds().push(bound)
                &&& r == std_draw(old(self).seed(), old(self).bounds().push(bound))
            },
    {
        self.rng.gen_range(0..bound)
    }
}

} // verus!
