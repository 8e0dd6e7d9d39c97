//! Reduction of individual task outcomes to the single result of `join`.
//!
//! A joined task either completed normally or ended abnormally (it panicked
//! or was aborted), in which case the scheduler reports a
//! [`tokio::task::JoinError`]. `join` reduces the collected outcomes to one
//! result: success only if every task completed, otherwise the first
//! failure in collection order; later failures are discarded.

use vstd::prelude::*;

verus! {

/// Declares `tokio::task::JoinError`, the scheduler's report of a task that
/// ended abnormally. The coordinator never inspects it; it is carried through
/// to the caller.
#[verifier::external_type_specification]
#[verifier::external_body]
pub struct ExJoinError(tokio::task::JoinError);

/// Error type returned by `HaltHandle::join`.
#[derive(Debug)]
pub enum HaltError {
    /// The collected tasks did not all finish inside the deadline given to `join`.
    Timeout,
    /// A collected task ended abnormally; this is the first such failure
    /// in collection order.
    Join(tokio::task::JoinError),
}

/// The first abnormal outcome in `rs`, or `Ok(())` if every task completed.
pub open spec fn first_failure(rs: Seq<Result<(), tokio::task::JoinError>>) -> Result<
    (),
    tokio::task::JoinError,
>
    decreases rs.len(),
{
    if rs.len() == 0 {
        Ok(())
    } else if rs[0] is Err {
        rs[0]
    } else {
        first_failure(rs.skip(1))
    }
}

/// Law: success is owed exactly when every task completed — the reduction of
/// the collected outcomes is `Ok` if and only if no outcome is a failure.
pub proof fn lemma_success_iff_all_completed(rs: Seq<Result<(), tokio::task::JoinError>>)
    ensures
        first_failure(rs) is Ok <==> (forall|i: int| 0 <= i < rs.len() ==> rs[i] is Ok),
    decreases rs.len(),
{
    if rs.len() > 0 && rs[0] is Ok {
        lemma_success_iff_all_completed(rs.skip(1));
        assert forall|i: int| 0 <= i < rs.skip(1).len() implies rs.skip(1)[i] == rs[i + 1] by {}
        if first_failure(rs) is Ok {
            assert forall|i: int| 0 <= i < rs.len() implies rs[i] is Ok by {
                if i > 0 {
                    assert(rs.skip(1)[i - 1] is Ok);
                }
            }
        }
    }
}

/// Law: the failure the reduction reports is the first one in collection
/// order — it stands at an index before which every outcome is a success;
/// later failures are the ones discarded.
pub proof fn lemma_reported_failure_is_first(rs: Seq<Result<(), tokio::task::JoinError>>)
    ensures
        first_failure(rs) matches Err(e) ==> exists|i: int|
            0 <= i < rs.len() && rs[i] == Err::<(), tokio::task::JoinError>(e) && (forall|j: int|
                0 <= j < i ==> rs[j] is Ok),
    decreases rs.len(),
{
    if rs.len() == 0 || rs[0] is Err {
        if rs.len() > 0 && rs[0] is Err {
            let e = first_failure(rs)->Err_0;
            assert(rs[0] == Err::<(), tokio::task::JoinError>(e) && (forall|j: int|
                0 <= j < 0 ==> rs[j] is Ok));
        }
    } else {
        lemma_reported_failure_is_first(rs.skip(1));
        if first_failure(rs) is Err {
            let e = first_failure(rs)->Err_0;
            assert(first_failure(rs.skip(1)) == first_failure(rs));
            let i1 = choose|i: int|
                0 <= i < rs.skip(1).len() && rs.skip(1)[i] == Err::<(
                ),
                tokio::task::JoinError,
                >(e) && (forall|j: int| 0 <= j < i ==> rs.skip(1)[j] is Ok);
            assert(rs[i1 + 1] == Err::<(), tokio::task::JoinError>(e));
            assert forall|j: int| 0 <= j < i1 + 1 implies rs[j] is Ok by {
                if j > 0 {
                    assert(rs.skip(1)[j - 1] is Ok);
                }
            }
            assert(0 <= i1 + 1 < rs.len() && rs[i1 + 1] == Err::<(), tokio::task::JoinError>(e)
                && (forall|j: int| 0 <= j < i1 + 1 ==> rs[j] is Ok));
        }
    }
}

/// Reduce the outcomes of the collected tasks to the result of `join`:
/// `Ok(())` only if every task completed normally, otherwise the first
/// failure in collection order, wrapped in `HaltError::Join`. Later
/// failures are discarded.
pub fn reduce_outcomes(results: Vec<Result<(), tokio::task::JoinError>>) -> (r: Result<
    (),
    HaltError,
>)
    ensures
        first_failure(results@) is Ok ==> r == Ok::<(), HaltError>(()),
        first_failure(results@) matches Err(e) ==> r == Err::<(), HaltError>(HaltError::Join(e)),
{
    let ghost orig = results@;
    let mut results = results;
    let mut out: Result<(), HaltError> = Ok(());
    proof {
        assert(orig.take(orig.len() as int) =~= orig);
        assert(orig.skip(orig.len() as int) =~= Seq::<
            Result<(), tokio::task::JoinError>,
        >::empty());
    }
    while results.len() > 0
        invariant
            results@ == orig.take(results@.len() as int),
            results@.len() <= orig.len(),
            match first_failure(orig.skip(results@.len() as int)) {
                Ok(_) => out == Ok::<(), HaltError>(()),
                Err(e) => out == Err::<(), HaltError>(HaltError::Join(e)),
            },
        decreases results@.len(),
    {
        let ghost k: int = results@.len() - 1;
        let res = results.pop().unwrap();
        proof {
            assert(results@ =~= orig.take(k));
            assert(orig.skip(k)[0] == orig[k]);
            assert(orig.skip(k).skip(1) =~= orig.skip(k + 1));
        }
        match res {
            Ok(()) => {},
            Err(e) => {
                out = Err(HaltError::Join(e));
            },
        }
    }
    proof {
        assert(orig.skip(0) =~= orig);
    }
    out
}

/// Decide the result of `join` after the wait for the collected tasks:
/// `outcome` is `None` when the deadline elapsed first (the tasks are left
/// running), or `Some` with every task's outcome. A deadline that elapses
/// yields `HaltError::Timeout`; otherwise the outcomes are reduced by
/// [`reduce_outcomes`].
pub fn join_outcome(outcome: Option<Vec<Result<(), tokio::task::JoinError>>>) -> (r: Result<
    (),
    HaltError,
>)
    ensures
        outcome is None ==> r == Err::<(), HaltError>(HaltError::Timeout),
        outcome matches Some(rs) ==> {
            &&& first_failure(rs@) is Ok ==> r == Ok::<(), HaltError>(())
            &&& first_failure(rs@) matches Err(e) ==> r == Err::<(), HaltError>(
                HaltError::Join(e),
            )
        },
{
    match outcome {
        None => Err(HaltError::Timeout),
        Some(results) => reduce_outcomes(results),
    }
}

} // verus!
