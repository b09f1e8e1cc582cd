//! The capability contract every sample space offers: draw one value, draw a
//! batch, test membership, reseed.

use vstd::prelude::*;

verus! {

/// A candidate value handed to a membership test.  A space accepts arbitrary
/// inputs there and answers `false` rather than failing on anything that is
/// not integer-shaped, so the input is a tagged union: an integer, or
/// anything else.
#[derive(Clone, Copy, PartialEq, Eq, Structural, Debug)]
pub enum Candidate {
    /// An integer-shaped input.
    Int(isize),
    /// Any input that is not integer-shaped (wrong type, non-numeric, ...).
    Other,
}

/// A sample space over values of type `T`: a set of legal values together
/// with a way of drawing them at random.
///
/// Sampling never fails on a well-formed space, each drawn value is a member
/// of the space, and no operation changes which values the space holds.
pub trait Space<T> {
    /// The space is well formed.
    spec fn wf(&self) -> bool;

    /// `value` is a legal value of this space.
    spec fn mem(&self, value: T) -> bool;

    /// The membership answer owed for an arbitrary, possibly non-integer
    /// input.
    spec fn candidate_mem(&self, candidate: Candidate) -> bool;

    /// Draw one value from the space's distribution.
    fn sample(&mut self) -> (r: T)
        requires
            old(self).wf(),
        ensures
            final(self).wf(),
            final(self).mem(r),
            forall|v: T| final(self).mem(v) == old(self).mem(v),
            forall|c: Candidate| final(self).candidate_mem(c) == old(self).candidate_mem(c),
    ;

    /// Draw `count` values, in draw order; `count == 0` yields an empty
    /// vector.
    fn sample_batch(&mut self, count: usize) -> (r: Vec<T>)
        requires
            old(self).wf(),
        ensures
            final(self).wf(),
            r.len() == count,
            forall|i: int| 0 <= i < count ==> final(self).mem(#[trigger] r[i]),
            forall|v: T| final(self).mem(v) == old(self).mem(v),
            forall|c: Candidate| final(self).candidate_mem(c) == old(self).candidate_mem(c),
    ;

    /// Total membership test: `true` exactly for the members of the space,
    /// `false` (never an error) for everything else.
    fn contains(&self, candidate: &Candidate) -> (r: bool)
        ensures
            r == self.candidate_mem(*candidate),
    ;

    /// Deterministically reinitialize the internal generator from `seed`,
    /// discarding all prior generator state; the value set is unchanged.
    fn reseed(&mut self, seed: u64)
        requires
            old(self).wf(),
        ensures
            final(self).wf(),
            forall|v: T| final(self).mem(v) == old(self).mem(v),
            forall|c: Candidate| final(self).candidate_mem(c) == old(self).candidate_mem(c),
    ;
}

} // verus!
