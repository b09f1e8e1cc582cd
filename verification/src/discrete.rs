//! The discrete sample space: the integers `0` through `n - 1`.
//!
//! A `Discrete` holds its cardinality `n` (immutable, at least one) and an
//! exclusively owned pseudo-random generator.  When the generator was seeded
//! from a known seed, every draw the space makes is pinned down exactly: the
//! value of the `i`-th draw is `nth_sample(seed, n, i)`, so two spaces built
//! with the same cardinality and seed return identical sequences, and a batch
//! of draws equals the same number of single draws.

use vstd::prelude::*;
use crate::generator::Generator;
use crate::generator::std_draw;
use crate::space::Candidate;
use crate::space::Space;

verus! {

/// Why constructing a space was refused.
#[derive(Clone, Copy, PartialEq, Eq, Structural, Debug)]
pub enum ConstructionError {
    /// The requested cardinality was zero: such a space would have no value
    /// to draw.
    ZeroSize,
}

/// The bounds of `k` draws that all use the same bound `n`.
pub open spec fn repeat_bound(n: usize, k: nat) -> Seq<u64> {
    Seq::new(k, |i: int| n as u64)
}

/// The value of draw number `i` (counting from zero) of a discrete space of
/// cardinality `n` whose generator was seeded from `seed`.
pub open spec fn nth_sample(seed: u64, n: usize, i: nat) -> usize {
    std_draw(seed, repeat_bound(n, i + 1)) as usize
}

/// The values of draws `start` through `start + k - 1` of a discrete space
/// of cardinality `n` whose generator was seeded from `seed`.
pub open spec fn sample_seq(seed: u64, n: usize, start: nat, k: nat) -> Seq<usize> {
    Seq::new(k, |i: int| nth_sample(seed, n, (start + i) as nat))
}

/// Seed determinism: the values a discrete space will draw are a function of
/// its seed, its cardinality and its position on the trajectory alone.  Two
/// well-formed seeded spaces with equal cardinality, equal seed and equally
/// many draws behind them are owed identical values for their next `k`
/// draws, however those draws are split between single and batch calls.
pub proof fn lemma_seed_determinism(a: Discrete, b: Discrete, k: nat)
    requires
        a.inv(),
        b.inv(),
        a.is_seeded(),
        b.is_seeded(),
        a.size() == b.size(),
        a.seed() == b.seed(),
        a.drawn() == b.drawn(),
    ensures
        sample_seq(a.seed(), a.size(), a.drawn(), k) == sample_seq(b.seed(), b.size(), b.drawn(), k),
{
}

/// Reseed reproducibility: a space that was just reseeded with some seed and
/// a fresh space of the same cardinality constructed with that seed stand at
/// the start of the same trajectory, so their next `k` draws are owed to be
/// identical.
pub proof fn lemma_reseed_reproduces(reseeded: Discrete, fresh: Discrete, k: nat)
    requires
        reseeded.inv(),
        fresh.inv(),
        reseeded.is_seeded(),
        fresh.is_seeded(),
        reseeded.size() == fresh.size(),
        reseeded.seed() == fresh.seed(),
        reseeded.drawn() == 0,
        fresh.drawn() == 0,
    ensures
        sample_seq(reseeded.seed(), reseeded.size(), reseeded.drawn(), k)
            == sample_seq(fresh.seed(), fresh.size(), fresh.drawn(), k),
{
}

/// Batch/single agreement: the `k1 + k2` values drawn from one trajectory
/// point are the `k1` values drawn there followed by the `k2` values drawn
/// `k1` positions later.  Hence one batch of `k` draws and `k` single draws
/// from the same state yield the same values in the same order.
pub proof fn lemma_sample_seq_concat(seed: u64, n: usize, start: nat, k1: nat, k2: nat)
    ensures
        sample_seq(seed, n, start, k1 + k2)
            == sample_seq(seed, n, start, k1) + sample_seq(seed, n, start + k1, k2),
{
    assert(sample_seq(seed, n, start, k1 + k2)
        =~= sample_seq(seed, n, start, k1) + sample_seq(seed, n, start + k1, k2));
}

/// A space of the integers `{0, 1, ..., n - 1}`, drawn uniformly.
pub struct Discrete {
    n: usize,
    gen: Generator,
}

impl Discrete {
    /// The cardinality `n`: members are exactly the integers in `[0, n)`.
    pub closed spec fn size(&self) -> usize {
        self.n
    }

    /// Whether the space's generator was seeded from a known seed.
    pub closed spec fn is_seeded(&self) -> bool {
        self.gen.is_seeded()
    }

    /// The seed the generator was last initialized from, when known.
    pub closed spec fn seed(&self) -> u64 {
        self.gen.seed()
    }

    /// How many values the space has drawn since it was last seeded.
    pub closed spec fn drawn(&self) -> nat {
        self.gen.bounds().len()
    }

    /// Well-formedness: the cardinality is at least one, and every draw made
    /// since seeding was bounded by that cardinality.
    pub closed spec fn inv(&self) -> bool {
        &&& 1 <= self.n
        &&& (self.gen.is_seeded() ==> self.gen.bounds() == repeat_bound(self.n, self.gen.bounds().len()))
    }

    /// `value` lies in the space's range `[0, n)`.
    pub open spec fn in_range(&self, value: int) -> bool {
        0 <= value < self.size()
    }

    /// Construct a space of the integers `[0, n)`.  A zero cardinality is
    /// rejected; with a seed the generator is deterministically initialized
    /// from it, without one it comes from a non-reproducible entropy source.
    pub fn new(n: usize, seed: Option<u64>) -> (r: Result<Discrete, ConstructionError>)
        ensures
            r is Err <==> n == 0,
            r matches Err(e) ==> e == ConstructionError::ZeroSize,
            r matches Ok(d) ==> {
                &&& d.inv()
                &&& d.size() == n
                &&& d.is_seeded() == (seed is Some)
                &&& (seed matches Some(s) ==> d.seed() == s && d.drawn() == 0)
            },
    {
        if n == 0 {
            return Err(ConstructionError::ZeroSize);
        }
        let gen = match seed {
            Some(s) => Generator::from_seed(s),
            None => Generator::from_entropy(),
        };
        let d = Discrete { n, gen };
        proof {
            if d.gen.is_seeded() {
                assert(d.gen.bounds() =~= repeat_bound(n, d.gen.bounds().len()));
            }
        }
        Ok(d)
    }

    /// The number of values in the space.
    pub fn cardinality(&self) -> (r: usize)
        ensures
            r == self.size(),
    {
        self.n
    }

    /// Typed membership test: exactly the integers in `[0, n)` belong to the
    /// space.
    pub fn contains_int(&self, value: isize) -> (r: bool)
        ensures
            r == self.in_range(value as int),
    {
        value >= 0 && (value as usize) < self.n
    }
}

impl Space<usize> for Discrete {
    open spec fn wf(&self) -> bool {
        self.inv()
    }

    open spec fn mem(&self, value: usize) -> bool {
        self.in_range(value as int)
    }

    open spec fn candidate_mem(&self, candidate: Candidate) -> bool {
        match candidate {
            Candidate::Int(v) => self.in_range(v as int),
            Candidate::Other => false,
        }
    }

    /// Draw one value uniformly from `[0, n)`.  On a seeded space the result
    /// is exactly the next value of the seed's sample trajectory.
    fn sample(&mut self) -> (r: usize)
        ensures
            final(self).size() == old(self).size(),
            final(self).is_seeded() == old(self).is_seeded(),
            r < old(self).size(),
            old(self).is_seeded() ==> {
                &&& final(self).seed() == old(self).seed()
                &&& final(self).drawn() == old(self).drawn() + 1
                &&& r == nth_sample(old(self).seed(), old(self).size(), old(self).drawn())
            },
    {
        let ghost prior = self.gen.bounds();
        let v = self.gen.draw_below(self.n as u64);
        proof {
            if old(self).is_seeded() {
                assert(self.gen.bounds() =~= repeat_bound(self.n, prior.len() + 1));
            }
        }
        v as usize
    }

    /// Draw `count` values uniformly from `[0, n)`, in draw order, advancing
    /// the generator exactly as `count` single draws would: on a seeded space
    /// the batch is the next `count` values of the seed's sample trajectory.
    fn sample_batch(&mut self, count: usize) -> (r: Vec<usize>)
        ensures
            final(self).size() == old(self).size(),
            final(self).is_seeded() == old(self).is_seeded(),
            forall|i: int| 0 <= i < count ==> r[i] < old(self).size(),
            old(self).is_seeded() ==> {
                &&& final(self).seed() == old(self).seed()
                &&& final(self).drawn() == old(self).drawn() + count
                &&& r@ == sample_seq(old(self).seed(), old(self).size(), old(self).drawn(), count as nat)
            },
    {
        let mut out: Vec<usize> = Vec::new();
        let mut i: usize = 0;
        while i < count
            invariant
                i <= count,
                self.inv(),
                self.size() == old(self).size(),
                self.is_seeded() == old(self).is_seeded(),
                out.len() == i,
                forall|j: int| 0 <= j < i ==> out[j] < old(self).size(),
                old(self).is_seeded() ==> {
                    &&& self.seed() == old(self).seed()
                    &&& self.drawn() == old(self).drawn() + i
                    &&& out@ == sample_seq(old(self).seed(), old(self).size(), old(self).drawn(), i as nat)
                },
            decreases count - i,
        {
            let v = self.sample();
            out.push(v);
            i = i + 1;
            proof {
                if old(self).is_seeded() {
                    assert(out@ =~= sample_seq(
                        old(self).seed(),
                        old(self).size(),
                        old(self).drawn(),
                        i as nat,
                    ));
                }
            }
        }
        out
    }

    /// Total membership test: `true` exactly for integer inputs in `[0, n)`,
    /// `false` for out-of-range integers and for every non-integer input.
    fn contains(&self, candidate: &Candidate) -> (r: bool) {
        match candidate {
            Candidate::Int(v) => self.contains_int(*v),
            Candidate::Other => false,
        }
    }

    /// Replace the generator with one deterministically seeded from `seed`;
    /// the cardinality is unchanged and the draw count starts over.
    fn reseed(&mut self, seed: u64)
        ensures
            final(self).size() == old(self).size(),
            final(self).is_seeded(),
            final(self).seed() == seed,
            final(self).drawn() == 0,
    {
        self.gen = Generator::from_seed(seed);
        proof {
            assert(self.gen.bounds() =~= repeat_bound(self.n, self.gen.bounds().len()));
        }
    }
}

} // verus!
