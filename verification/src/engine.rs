//! The state an engine handle carries between C calls: its current grid
//! values. An evolution computes new values outside this module and hands
//! the outcome in; a read copies the values out.

use vstd::prelude::*;
use crate::gate::{LenRule, LenCheck, spec_len_ok, len_ok};
use crate::status::{ErrorKind, SemiflowStatus, spec_status_of_error};

verus! {

/// `dst` with its front overwritten by `src`; the rest of `dst` is kept.
pub open spec fn spec_copied<T>(dst: Seq<T>, src: Seq<T>) -> Seq<T> {
    Seq::new(dst.len(), |i: int| if i < src.len() { src[i] } else { dst[i] })
}

/// Copies `src` into the front of `dst`.
pub fn copy_prefix<T: Copy>(dst: &mut Vec<T>, src: &[T])
    requires
        src@.len() <= old(dst)@.len(),
    ensures
        final(dst)@ == spec_copied(old(dst)@, src@),
{
    let mut i: usize = 0;
    while i < src.len()
        invariant
            src@.len() <= dst@.len(),
            dst@.len() == old(dst)@.len(),
            i <= src@.len(),
            forall|j: int|
                0 <= j < dst@.len() ==> #[trigger] dst@[j] == (if j < i {
                    src@[j]
                } else {
                    old(dst)@[j]
                }),
        decreases src@.len() - i,
    {
        dst.set(i, src[i]);
        i = i + 1;
    }
    assert(dst@ =~= spec_copied(old(dst)@, src@));
}

/// The current grid values of an engine handle.
pub struct FieldState<T> {
    values: Vec<T>,
}

impl<T> View for FieldState<T> {
    type V = Seq<T>;

    closed spec fn view(&self) -> Seq<T> {
        self.values@
    }
}

impl<T: Copy> FieldState<T> {
    /// A state holding `values`.
    pub fn new(values: Vec<T>) -> (s: Self)
        ensures
            s@ == values@,
    {
        FieldState { values }
    }

    /// The number of grid values.
    pub fn size(&self) -> (n: usize)
        ensures
            n == self@.len(),
    {
        self.values.len()
    }

    /// The current grid values.
    pub fn values(&self) -> (v: &[T])
        ensures
            v@ == self@,
    {
        self.values.as_slice()
    }

    /// Replaces the current values by `values`.
    pub fn replace(&mut self, values: Vec<T>)
        ensures
            final(self)@ == values@,
    {
        self.values = values;
    }

    /// Copies the current values into the front of `out`, whose length
    /// must relate to the grid size by `rule`; otherwise `GridMismatch`
    /// and `out` is left as it was.
    pub fn read_into(&self, out: &mut Vec<T>, rule: LenRule) -> (s: SemiflowStatus)
        ensures
            spec_len_ok(LenCheck { len: old(out)@.len() as usize, expected: self@.len() as usize, rule }) ==> {
                &&& s == SemiflowStatus::Success
                &&& final(out)@ == spec_copied(old(out)@, self@)
            },
            !spec_len_ok(LenCheck { len: old(out)@.len() as usize, expected: self@.len() as usize, rule }) ==> {
                &&& s == SemiflowStatus::GridMismatch
                &&& final(out)@ == old(out)@
            },
            rule == LenRule::AtLeast ==> (s == SemiflowStatus::Success <==> self@.len() <= old(out)@.len()),
            rule == LenRule::Exact ==> (s == SemiflowStatus::Success <==> self@.len() == old(out)@.len()),
            s == SemiflowStatus::Success || s == SemiflowStatus::GridMismatch,
    {
        let check = LenCheck { len: out.len(), expected: self.values.len(), rule };
        if !len_ok(&check) {
            return SemiflowStatus::GridMismatch;
        }
        copy_prefix(out, self.values.as_slice());
        SemiflowStatus::Success
    }

    /// Applies the outcome of an evolution: new values replace the state;
    /// an error leaves the state unchanged and is reported as its status.
    pub fn commit(&mut self, outcome: Result<Vec<T>, ErrorKind>) -> (s: SemiflowStatus)
        ensures
            match outcome {
                Ok(v) => final(self)@ == v@ && s == SemiflowStatus::Success,
                Err(e) => final(self)@ == old(self)@ && s == spec_status_of_error(e),
            },
    {
        match outcome {
            Ok(v) => {
                self.values = v;
                SemiflowStatus::Success
            },
            Err(e) => SemiflowStatus::from_error(&e),
        }
    }

    /// Applies the outcome of an evolution and copies the new values into
    /// `out`, a buffer as long as the grid.
    ///
    /// New values of another length than `out` cannot be copied: that is
    /// reported as `Panic`, with the state and `out` left as they were.
    pub fn commit_into(&mut self, outcome: Result<Vec<T>, ErrorKind>, out: &mut Vec<T>) -> (s:
        SemiflowStatus)
        ensures
            match outcome {
                Ok(v) => if v@.len() == old(out)@.len() {
                    &&& s == SemiflowStatus::Success
                    &&& final(self)@ == v@
                    &&& final(out)@ == v@
                } else {
                    &&& s == SemiflowStatus::Panic
                    &&& final(self)@ == old(self)@
                    &&& final(out)@ == old(out)@
                },
                Err(e) => {
                    &&& final(self)@ == old(self)@
                    &&& final(out)@ == old(out)@
                    &&& s == spec_status_of_error(e)
                },
            },
    {
        match outcome {
            Ok(v) => {
                if v.len() != out.len() {
                    return SemiflowStatus::Panic;
                }
                self.values = v;
                copy_prefix(out, self.values.as_slice());
                assert(out@ =~= self.values@);
                SemiflowStatus::Success
            },
            Err(e) => SemiflowStatus::from_error(&e),
        }
    }
}

/// The size a `*_size` entry point reports: the grid size of a live handle,
/// `0` for a null one.
pub fn size_or_zero(present: bool, size: usize) -> (n: usize)
    ensures
        n == (if present {
            size
        } else {
            0
        }),
{
    if present {
        size
    } else {
        0
    }
}

/// What a read returns after a successful evolution is what the evolution
/// produced: committing values `v` and copying the state into a buffer at
/// least as long gives `v` at the front of the buffer.
pub proof fn lemma_read_after_commit<T>(v: Seq<T>, out: Seq<T>)
    requires
        v.len() <= out.len(),
    ensures
        spec_copied(out, v).subrange(0, v.len() as int) == v,
        spec_copied(out, v).len() == out.len(),
{
    assert(spec_copied(out, v).subrange(0, v.len() as int) =~= v);
}

/// Copying into a buffer of exactly the grid size yields the grid values.
pub proof fn lemma_exact_copy<T>(v: Seq<T>, out: Seq<T>)
    requires
        v.len() == out.len(),
    ensures
        spec_copied(out, v) == v,
{
    assert(spec_copied(out, v) =~= v);
}

} // verus!
