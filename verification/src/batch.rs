//! Aggregation of per-file outcomes into a `BatchResult`, and the laws that
//! make the aggregate independent of the order the outcomes arrived in:
//! a sequential run and a parallel run that produce the same outcomes, in
//! whatever order, aggregate to the same counts and the same failure set.

use vstd::prelude::*;
use crate::outcome::{BatchResult, ConversionOutcome, FailedFile, FailedFileView, OutcomeView};

verus! {

/// The views of a sequence of outcomes.
pub open spec fn outcome_views(s: Seq<ConversionOutcome>) -> Seq<OutcomeView> {
    s.map_values(|o: ConversionOutcome| o@)
}

/// The views of a sequence of failed files.
pub open spec fn failed_views(s: Seq<FailedFile>) -> Seq<FailedFileView> {
    s.map_values(|f: FailedFile| f@)
}

/// How many of the outcomes are successes.
pub open spec fn count_successes(s: Seq<OutcomeView>) -> nat
    decreases s.len(),
{
    if s.len() == 0 {
        0
    } else {
        count_successes(s.drop_last()) + (if s.last() is Success {
            1nat
        } else {
            0nat
        })
    }
}

/// The failures among the outcomes, in order, as failed-file records.
pub open spec fn failed_list(s: Seq<OutcomeView>) -> Seq<FailedFileView>
    decreases s.len(),
{
    if s.len() == 0 {
        Seq::empty()
    } else {
        let rest = failed_list(s.drop_last());
        match s.last() {
            OutcomeView::Failure { source_path, kind } => rest.push(
                FailedFileView { source_path, kind },
            ),
            OutcomeView::Success { .. } => rest,
        }
    }
}

/// Every outcome is a success or a failure, so the success count and the
/// failure list partition the batch: with `N` files and `K` failures,
/// exactly `N - K` succeeded.
pub proof fn lemma_success_failure_partition(s: Seq<OutcomeView>)
    ensures
        count_successes(s) + failed_list(s).len() == s.len(),
    decreases s.len(),
{
    if s.len() > 0 {
        lemma_success_failure_partition(s.drop_last());
    }
}

/// Fold the outcomes of a batch into its result: the scanned total is the
/// number of outcomes, the success count and the failure list come from
/// them, and together they account for every file.
pub fn aggregate(outcomes: &Vec<ConversionOutcome>) -> (r: BatchResult)
    ensures
        r.total_scanned == outcomes@.len(),
        r.succeeded == count_successes(outcome_views(outcomes@)),
        failed_views(r.failed@) == failed_list(outcome_views(outcomes@)),
        r.succeeded + r.failed@.len() == r.total_scanned,
{
    let ghost all = outcome_views(outcomes@);
    let mut succeeded: usize = 0;
    let mut failed: Vec<FailedFile> = Vec::new();
    let mut i: usize = 0;
    while i < outcomes.len()
        invariant
            i <= outcomes@.len(),
            all == outcome_views(outcomes@),
            all.len() == outcomes@.len(),
            succeeded == count_successes(all.take(i as int)),
            failed_views(failed@) == failed_list(all.take(i as int)),
            succeeded + failed@.len() == i,
        decreases outcomes@.len() - i,
    {
        proof {
            assert(all.take(i + 1).drop_last() =~= all.take(i as int));
            assert(all.take(i + 1).last() == outcomes@[i as int]@);
        }
        match &outcomes[i] {
            ConversionOutcome::Success { .. } => {
                succeeded += 1;
            },
            ConversionOutcome::Failure { source_path, kind } => {
                let record = FailedFile { source_path: source_path.as_str().to_owned(), kind: *kind };
                failed.push(record);
                proof {
                    assert(failed_views(failed@) =~= failed_views(failed@.drop_last()).push(
                        failed@.last()@,
                    ));
                }
            },
        }
        i += 1;
    }
    proof {
        assert(all.take(outcomes@.len() as int) =~= all);
    }
    BatchResult { total_scanned: outcomes.len(), succeeded, failed }
}

/// Removing the outcome at `j` removes its contribution to the success
/// count and nothing else.
proof fn lemma_count_remove(s: Seq<OutcomeView>, j: int)
    requires
        0 <= j < s.len(),
    ensures
        count_successes(s) == count_successes(s.remove(j)) + (if s[j] is Success {
            1nat
        } else {
            0nat
        }),
    decreases s.len(),
{
    if j == s.len() - 1 {
        assert(s.remove(j) =~= s.drop_last());
    } else {
        assert(s.remove(j).drop_last() =~= s.drop_last().remove(j));
        assert(s.remove(j).last() == s.last());
        lemma_count_remove(s.drop_last(), j);
    }
}

/// Removing the outcome at `j` removes its contribution, if any, from the
/// multiset of failures and nothing else.
proof fn lemma_failed_remove(s: Seq<OutcomeView>, j: int)
    requires
        0 <= j < s.len(),
    ensures
        s[j] is Success ==> failed_list(s).to_multiset() == failed_list(
            s.remove(j),
        ).to_multiset(),
        s[j] matches OutcomeView::Failure { source_path, kind } ==> failed_list(s).to_multiset()
            == failed_list(s.remove(j)).to_multiset().insert(FailedFileView { source_path, kind }),
    decreases s.len(),
{
    broadcast use vstd::seq_lib::group_to_multiset_ensures;

    if j == s.len() - 1 {
        assert(s.remove(j) =~= s.drop_last());
    } else {
        assert(s.remove(j).drop_last() =~= s.drop_last().remove(j));
        assert(s.remove(j).last() == s.last());
        lemma_failed_remove(s.drop_last(), j);
    }
}

/// Aggregation does not depend on the order outcomes arrive in: two runs
/// over the same files that produce the same outcomes, in any order, have
/// the same success count and the same multiset of failures. This is what
/// makes the parallel mode's result content equal to the sequential one's.
pub proof fn lemma_aggregate_order_independent(a: Seq<OutcomeView>, b: Seq<OutcomeView>)
    requires
        a.to_multiset() == b.to_multiset(),
    ensures
        count_successes(a) == count_successes(b),
        failed_list(a).to_multiset() == failed_list(b).to_multiset(),
    decreases a.len(),
{
    broadcast use vstd::seq_lib::group_to_multiset_ensures;
    broadcast use vstd::multiset::group_multiset_axioms;

    if a.len() == 0 {
        assert(a.to_multiset().len() == a.len());
        assert(b.to_multiset().len() == b.len());
        assert(b.len() == 0);
    } else {
        let x = a.last();
        let a2 = a.drop_last();
        assert(a =~= a2.push(x));
        assert(a.to_multiset() == a2.to_multiset().insert(x));
        assert(b.to_multiset().count(x) > 0);
        assert(b.contains(x));
        let j = choose|j: int| 0 <= j < b.len() && b[j] == x;
        let b2 = b.remove(j);
        assert(b2.to_multiset() == b.to_multiset().remove(x));
        assert(a2.to_multiset() =~= b2.to_multiset()) by {
            assert forall|v: OutcomeView| a2.to_multiset().count(v) == b2.to_multiset().count(
                v,
            ) by {
                assert(a2.to_multiset().insert(x).count(v) == b.to_multiset().count(v));
            }
        }
        lemma_aggregate_order_independent(a2, b2);
        lemma_count_remove(b, j);
        lemma_failed_remove(b, j);
        match x {
            OutcomeView::Failure { source_path, kind } => {
                assert(failed_list(a) == failed_list(a2).push(
                    FailedFileView { source_path, kind },
                ));
            },
            OutcomeView::Success { .. } => {
                assert(failed_list(a) == failed_list(a2));
            },
        }
    }
}

} // verus!
