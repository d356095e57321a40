//! The step runner: it classifies each finished step and appends exactly one
//! report entry for it, so that one step's failure never stops the run.

use vstd::prelude::*;

use crate::outcome::{classify, spec_classify, StepError};
use crate::report::Report;

verus! {

/// Record the finished step `name` in the report: its result is classified
/// and appended as exactly one new entry; earlier entries stay as they were.
pub fn record_step(report: &mut Report, name: String, result: Result<(), StepError>)
    ensures
        final(report)@ == old(report)@.push((name, spec_classify(result))),
{
    let outcome = classify(result);
    report.record(name, outcome);
}

/// Build the report of a whole run from the results of its steps, in order.
/// Every step contributes exactly one entry, classified independently of all
/// the others: one step's failure never prevents the next step's result from
/// being recorded.
pub fn report_of_results(results: Vec<(String, Result<(), StepError>)>) -> (report: Report)
    ensures
        report@.len() == results@.len(),
        forall|i: int|
            0 <= i < results@.len() ==> (#[trigger] report@[i]).0 == results@[i].0
                && report@[i].1 == spec_classify(results@[i].1),
{
    let ghost all = results@;
    let mut rest = results;
    let total = rest.len();
    proof {
        assert(all.len() == total);
    }
    let mut report = Report::new();
    let mut done: usize = 0;
    while rest.len() > 0
        invariant
            all.len() <= usize::MAX,
            done + rest@.len() == all.len(),
            rest@ =~= all.subrange(done as int, all.len() as int),
            report@.len() == done,
            forall|i: int|
                0 <= i < done ==> (#[trigger] report@[i]).0 == all[i].0 && report@[i].1
                    == spec_classify(all[i].1),
        decreases rest@.len(),
    {
        let (name, result) = rest.remove(0);
        proof {
            assert(all.subrange(done as int, all.len() as int)[0] == all[done as int]);
        }
        record_step(&mut report, name, result);
        done += 1;
        proof {
            assert(rest@ =~= all.subrange(done as int, all.len() as int));
        }
    }
    report
}

/// Failure isolation: in the report of a run whose step `k` failed, the
/// report still holds one entry per step, entry `k` is classified failed, and
/// every other entry is exactly the classification of that step's own
/// result.
pub proof fn lemma_failure_isolation(
    results: Seq<(String, Result<(), StepError>)>,
    report: Seq<(String, crate::outcome::Outcome)>,
    k: int,
)
    requires
        report.len() == results.len(),
        forall|i: int|
            0 <= i < results.len() ==> (#[trigger] report[i]).0 == results[i].0 && report[i].1
                == spec_classify(results[i].1),
        0 <= k < results.len(),
        results[k].1 matches Err(e) && (e is NonZeroExit || e is SpawnFailure || e is Io),
    ensures
        report[k].1 is Failed,
        forall|j: int|
            0 <= j < results.len() && j != k ==> (#[trigger] report[j]).1 == spec_classify(
                results[j].1,
            ),
{
}

} // verus!
