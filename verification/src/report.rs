//! The ordered, append-only record of every step's outcome in one run.

use vstd::prelude::*;

use crate::outcome::Outcome;

verus! {

/// An ordered sequence of (step name, outcome) pairs, in the order the steps
/// ran. It is built incrementally by the runner and read once at the end of
/// the run to display a summary and choose the process exit code.
pub struct Report {
    entries: Vec<(String, Outcome)>,
}

impl View for Report {
    type V = Seq<(String, Outcome)>;

    closed spec fn view(&self) -> Seq<(String, Outcome)> {
        self.entries@
    }
}

/// How many of the outcomes in `entries` satisfy `pred`.
pub open spec fn count_outcomes(
    entries: Seq<(String, Outcome)>,
    pred: spec_fn(Outcome) -> bool,
) -> nat
    decreases entries.len(),
{
    if entries.len() == 0 {
        0
    } else {
        count_outcomes(entries.drop_last(), pred) + if pred(entries.last().1) {
            1nat
        } else {
            0nat
        }
    }
}

impl Report {
    /// A fresh, empty report.
    pub fn new() -> (r: Report)
        ensures
            r@ == Seq::<(String, Outcome)>::empty(),
    {
        Report { entries: Vec::new() }
    }

    /// Append one step's outcome; earlier entries are never changed.
    pub fn record(&mut self, name: String, outcome: Outcome)
        ensures
            final(self)@ == old(self)@.push((name, outcome)),
    {
        self.entries.push((name, outcome));
    }

    /// How many steps have been recorded.
    pub fn len(&self) -> (n: usize)
        ensures
            n == self@.len(),
    {
        self.entries.len()
    }

    /// The recorded entry at position `i`.
    pub fn entry(&self, i: usize) -> (e: &(String, Outcome))
        requires
            i < self@.len(),
        ensures
            *e == self@[i as int],
    {
        &self.entries[i]
    }

    /// How many steps failed.
    pub fn count_failed(&self) -> (n: usize)
        ensures
            n == count_outcomes(self@, |o: Outcome| o is Failed),
    {
        let mut n: usize = 0;
        let mut i: usize = 0;
        while i < self.entries.len()
            invariant
                i <= self.entries@.len(),
                n <= i,
                n == count_outcomes(
                    self.entries@.take(i as int),
                    |o: Outcome| o is Failed,
                ),
            decreases self.entries@.len() - i,
        {
            proof {
                assert(self.entries@.take(i + 1).drop_last() =~= self.entries@.take(i as int));
                assert(self.entries@.take(i + 1).last() == self.entries@[i as int]);
            }
            if matches!(self.entries[i].1, Outcome::Failed { .. }) {
                n += 1;
            }
            i += 1;
        }
        proof {
            assert(self.entries@.take(self.entries@.len() as int) =~= self.entries@);
        }
        n
    }

    /// How many steps succeeded.
    pub fn count_success(&self) -> (n: usize)
        ensures
            n == count_outcomes(self@, |o: Outcome| o is Success),
    {
        let mut n: usize = 0;
        let mut i: usize = 0;
        while i < self.entries.len()
            invariant
                i <= self.entries@.len(),
                n <= i,
                n == count_outcomes(
                    self.entries@.take(i as int),
                    |o: Outcome| o is Success,
                ),
            decreases self.entries@.len() - i,
        {
            proof {
                assert(self.entries@.take(i + 1).drop_last() =~= self.entries@.take(i as int));
                assert(self.entries@.take(i + 1).last() == self.entries@[i as int]);
            }
            if matches!(self.entries[i].1, Outcome::Success) {
                n += 1;
            }
            i += 1;
        }
        proof {
            assert(self.entries@.take(self.entries@.len() as int) =~= self.entries@);
        }
        n
    }

    /// How many steps were skipped.
    pub fn count_skipped(&self) -> (n: usize)
        ensures
            n == count_outcomes(self@, |o: Outcome| o is Skipped),
    {
        let mut n: usize = 0;
        let mut i: usize = 0;
        while i < self.entries.len()
            invariant
                i <= self.entries@.len(),
                n <= i,
                n == count_outcomes(
                    self.entries@.take(i as int),
                    |o: Outcome| o is Skipped,
                ),
            decreases self.entries@.len() - i,
        {
            proof {
                assert(self.entries@.take(i + 1).drop_last() =~= self.entries@.take(i as int));
                assert(self.entries@.take(i + 1).last() == self.entries@[i as int]);
            }
            if matches!(self.entries[i].1, Outcome::Skipped { .. }) {
                n += 1;
            }
            i += 1;
        }
        proof {
            assert(self.entries@.take(self.entries@.len() as int) =~= self.entries@);
        }
        n
    }

    /// How many steps ended in an ignored error.
    pub fn count_ignored(&self) -> (n: usize)
        ensures
            n == count_outcomes(self@, |o: Outcome| o is Ignored),
    {
        let mut n: usize = 0;
        let mut i: usize = 0;
        while i < self.entries.len()
            invariant
                i <= self.entries@.len(),
                n <= i,
                n == count_outcomes(
                    self.entries@.take(i as int),
                    |o: Outcome| o is Ignored,
                ),
            decreases self.entries@.len() - i,
        {
            proof {
                assert(self.entries@.take(i + 1).drop_last() =~= self.entries@.take(i as int));
                assert(self.entries@.take(i + 1).last() == self.entries@[i as int]);
            }
            if matches!(self.entries[i].1, Outcome::Ignored { .. }) {
                n += 1;
            }
            i += 1;
        }
        proof {
            assert(self.entries@.take(self.entries@.len() as int) =~= self.entries@);
        }
        n
    }

    /// Whether any step failed.
    pub fn any_failed(&self) -> (b: bool)
        ensures
            b <==> exists|i: int| 0 <= i < self@.len() && (#[trigger] self@[i].1) is Failed,
    {
        let mut i: usize = 0;
        while i < self.entries.len()
            invariant
                i <= self.entries@.len(),
                forall|j: int| 0 <= j < i ==> !((#[trigger] self.entries@[j].1) is Failed),
            decreases self.entries@.len() - i,
        {
            if matches!(self.entries[i].1, Outcome::Failed { .. }) {
                return true;
            }
            i += 1;
        }
        false
    }

    /// The process exit code the report asks for: zero exactly when no step
    /// failed; skipped and ignored steps do not affect it.
    pub fn exit_code(&self) -> (c: i32)
        ensures
            c == 0 <==> !(exists|i: int|
                0 <= i < self@.len() && (#[trigger] self@[i].1) is Failed),
            c == 0 || c == 1,
    {
        if self.any_failed() {
            1
        } else {
            0
        }
    }
}

} // verus!
