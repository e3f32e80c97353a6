//! Checking every example at once, and answering with everything that is wrong rather than only
//! the first thing.
use vstd::prelude::*;

verus! {

/// The failures among some outcomes, in the order the outcomes came in.
pub open spec fn failures_of<E>(outcomes: Seq<Result<(), E>>) -> Seq<E>
    decreases outcomes.len(),
{
    if outcomes.len() == 0 {
        Seq::empty()
    } else {
        let earlier = failures_of(outcomes.drop_last());
        match outcomes.last() {
            Ok(()) => earlier,
            Err(failure) => earlier.push(failure),
        }
    }
}

/// Some outcomes hold no failure exactly when every one of them is a success.
pub proof fn lemma_no_failures_means_every_success<E>(outcomes: Seq<Result<(), E>>)
    ensures
        failures_of(outcomes).len() == 0 <==> forall|i: int| 0 <= i < outcomes.len() ==> outcomes[i] is Ok,
    decreases outcomes.len(),
{
    if outcomes.len() > 0 {
        let earlier = outcomes.drop_last();
        lemma_no_failures_means_every_success(earlier);
        assert forall|i: int| 0 <= i < earlier.len() implies earlier[i] == outcomes[i] by {}
        if failures_of(outcomes).len() == 0 {
            assert(outcomes.last() is Ok);
            assert forall|i: int| 0 <= i < outcomes.len() implies outcomes[i] is Ok by {
                if i < earlier.len() {
                    assert(earlier[i] is Ok);
                }
            }
        } else if forall|i: int| 0 <= i < outcomes.len() ==> outcomes[i] is Ok {
            assert(outcomes[outcomes.len() - 1] is Ok);
            assert forall|i: int| 0 <= i < earlier.len() implies earlier[i] is Ok by {
                assert(outcomes[i] is Ok);
            }
        }
    }
}

/// Gathers what checking every example came to: success when every one checked out, and otherwise
/// every failure, in the order the examples were checked.
pub fn inspect_all<E>(outcomes: Vec<Result<(), E>>) -> (gathered: Result<(), Vec<E>>)
    ensures
        gathered is Ok <==> forall|i: int| 0 <= i < outcomes@.len() ==> outcomes@[i] is Ok,
        gathered matches Err(failures) ==> failures@ == failures_of(outcomes@),
{
    let ghost all = outcomes@;
    let mut rest = outcomes;
    let mut failures: Vec<E> = Vec::new();
    let mut k: usize = 0;
    let n = rest.len();
    while rest.len() > 0
        invariant
            n == all.len(),
            k <= n,
            rest@ == all.skip(k as int),
            failures@ == failures_of(all.take(k as int)),
        decreases rest.len(),
    {
        let outcome = rest.remove(0);
        assert(all.take(k + 1).drop_last() =~= all.take(k as int));
        assert(all.take(k + 1).last() == all[k as int]);
        match outcome {
            Ok(()) => {},
            Err(failure) => failures.push(failure),
        }
        assert(rest@ =~= all.skip(k + 1));
        k += 1;
    }
    assert(all.take(k as int) =~= all);
    proof {
        lemma_no_failures_means_every_success(all);
    }
    if failures.len() == 0 {
        Ok(())
    } else {
        Err(failures)
    }
}

} // verus!
