use vstd::prelude::*;
use crate::error::{StoreError, StoreErrorView};
use crate::outcome::result_view;
use crate::run::RunId;

verus! {

/// How one field write of a batch ended.
#[derive(Debug)]
pub struct WriteOutcome {
    pub run: RunId,
    pub result: Result<i64, StoreError>,
}

/// A field write that failed, with the run it was for.
#[derive(Debug)]
pub struct WriteFailure {
    pub run: RunId,
    pub error: StoreError,
}

/// The mathematical content of a `WriteFailure`.
pub struct WriteFailureView {
    pub run: u128,
    pub error: StoreErrorView,
}

impl View for WriteFailure {
    type V = WriteFailureView;

    open spec fn view(&self) -> WriteFailureView {
        WriteFailureView { run: self.run.value, error: self.error@ }
    }
}

/// The contents of a list of failures.
pub open spec fn failure_views(failures: Seq<WriteFailure>) -> Seq<WriteFailureView> {
    Seq::new(failures.len(), |i: int| failures[i]@)
}

/// The failures among the outcomes of a batch, each with its run, in the
/// order of the outcomes.
pub open spec fn failures_among(outcomes: Seq<WriteOutcome>) -> Seq<WriteFailureView>
    decreases outcomes.len(),
{
    if outcomes.len() == 0 {
        Seq::empty()
    } else {
        let earlier = failures_among(outcomes.drop_last());
        match result_view(outcomes.last().result) {
            Ok(_) => earlier,
            Err(e) => earlier.push(WriteFailureView { run: outcomes.last().run.value, error: e }),
        }
    }
}

/// Collects the failed writes of a batch, so that none is lost: one entry
/// for each outcome that is an error, with its run.
pub fn failed_writes(outcomes: &Vec<WriteOutcome>) -> (failures: Vec<WriteFailure>)
    ensures
        failure_views(failures@) == failures_among(outcomes@),
{
    let mut failures: Vec<WriteFailure> = Vec::new();
    let mut i: usize = 0;
    assert(outcomes@.subrange(0, 0) =~= Seq::empty());
    while i < outcomes.len()
        invariant
            i <= outcomes.len(),
            failure_views(failures@) == failures_among(outcomes@.subrange(0, i as int)),
        decreases outcomes.len() - i,
    {
        assert(outcomes@.subrange(0, i + 1).drop_last() =~= outcomes@.subrange(0, i as int));
        let ghost before = failure_views(failures@);
        match &outcomes[i].result {
            Ok(_) => {},
            Err(e) => {
                failures.push(WriteFailure { run: outcomes[i].run, error: e.clone() });
                assert(failure_views(failures@) =~= before.push(
                    WriteFailureView { run: outcomes[i as int].run.value, error: e@ },
                ));
            },
        }
        i = i + 1;
    }
    assert(outcomes@.subrange(0, i as int) =~= outcomes@);
    failures
}

/// The verdict on a batch whose writes are all over: it succeeded if no
/// write failed, and else it fails with the first failure.
pub fn batch_verdict(outcomes: &Vec<WriteOutcome>) -> (verdict: Result<(), StoreError>)
    ensures
        match verdict {
            Ok(_) => failures_among(outcomes@).len() == 0,
            Err(e) => failures_among(outcomes@).len() > 0 && e@ == failures_among(
                outcomes@,
            )[0].error,
        },
{
    let failures = failed_writes(outcomes);
    if failures.len() == 0 {
        Ok(())
    } else {
        assert(failure_views(failures@)[0] == failures@[0]@);
        Err(failures[0].error.clone())
    }
}

} // verus!
