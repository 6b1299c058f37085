//! Probing a fleet: one probe per host, one outcome per probe, and the
//! split of the outcomes into survivors and failures.

use vstd::prelude::*;

verus! {

/// How the probe of one host ended: with the host's metrics, or with the
/// reason why there are none.
#[derive(Debug, Clone, PartialEq, Eq)]
pub enum ProbeOutcome<M, F> {
    Success(M),
    Failure(F),
}

/// Calls `collector` once for each host, in order, and returns what the
/// calls gave, in the same order: as many results as hosts, the result at
/// each position being that of the host at that position.
pub fn dispatch<O, C: Fn(&String) -> O>(hosts: &Vec<String>, collector: C) -> (outcomes: Vec<O>)
    requires
        forall|i: int| 0 <= i < hosts.len() ==> call_requires(collector, (&#[trigger] hosts[i],)),
    ensures
        outcomes.len() == hosts.len(),
        forall|i: int|
            0 <= i < hosts.len() ==> call_ensures(collector, (&hosts[i],), #[trigger] outcomes[i]),
{
    let mut outcomes: Vec<O> = Vec::new();
    let mut i: usize = 0;
    while i < hosts.len()
        invariant
            i <= hosts.len(),
            outcomes.len() == i,
            forall|j: int| 0 <= j < hosts.len() ==> call_requires(collector, (&#[trigger] hosts[j],)),
            forall|j: int| 0 <= j < i ==> call_ensures(collector, (&hosts[j],), #[trigger] outcomes[j]),
        decreases hosts.len() - i,
    {
        let outcome = collector(&hosts[i]);
        outcomes.push(outcome);
        i += 1;
    }
    outcomes
}

/// The metrics of the probes that succeeded, in the order of the outcomes.
pub open spec fn survivors<M, F>(outcomes: Seq<ProbeOutcome<M, F>>) -> Seq<M>
    decreases outcomes.len(),
{
    if outcomes.len() == 0 {
        Seq::empty()
    } else {
        match outcomes.last() {
            ProbeOutcome::Success(metrics) => survivors(outcomes.drop_last()).push(metrics),
            ProbeOutcome::Failure(_) => survivors(outcomes.drop_last()),
        }
    }
}

/// The reasons of the probes that failed, in the order of the outcomes.
pub open spec fn failures<M, F>(outcomes: Seq<ProbeOutcome<M, F>>) -> Seq<F>
    decreases outcomes.len(),
{
    if outcomes.len() == 0 {
        Seq::empty()
    } else {
        match outcomes.last() {
            ProbeOutcome::Success(_) => failures(outcomes.drop_last()),
            ProbeOutcome::Failure(reason) => failures(outcomes.drop_last()).push(reason),
        }
    }
}

/// Every outcome is a survivor or a failure, and none is both.
pub proof fn lemma_partition_complete<M, F>(outcomes: Seq<ProbeOutcome<M, F>>)
    ensures
        survivors(outcomes).len() + failures(outcomes).len() == outcomes.len(),
    decreases outcomes.len(),
{
    if outcomes.len() > 0 {
        lemma_partition_complete(outcomes.drop_last());
    }
}

/// There is no survivor exactly when every probe failed.
pub proof fn lemma_no_survivor<M, F>(outcomes: Seq<ProbeOutcome<M, F>>)
    ensures
        survivors(outcomes).len() == 0 <==> forall|i: int|
            0 <= i < outcomes.len() ==> #[trigger] outcomes[i] is Failure,
    decreases outcomes.len(),
{
    if outcomes.len() > 0 {
        let rest = outcomes.drop_last();
        lemma_no_survivor(rest);
        if survivors(outcomes).len() == 0 {
            assert forall|i: int| 0 <= i < outcomes.len() implies #[trigger] outcomes[i] is Failure by {
                if i < rest.len() {
                    assert(outcomes[i] == rest[i]);
                }
            }
        } else if outcomes.last() is Failure {
            let i = choose|i: int| 0 <= i < rest.len() && !(#[trigger] rest[i] is Failure);
            assert(outcomes[i] == rest[i]);
        }
    }
}

/// Splits the outcomes into the metrics of the survivors and the reasons of
/// the failures, each in the order of the outcomes.
pub fn partition<M, F>(outcomes: Vec<ProbeOutcome<M, F>>) -> (parts: (Vec<M>, Vec<F>))
    ensures
        parts.0@ == survivors(outcomes@),
        parts.1@ == failures(outcomes@),
{
    let mut alive: Vec<M> = Vec::new();
    let mut failed: Vec<F> = Vec::new();
    let ghost all = outcomes@;
    for outcome in it: outcomes
        invariant
            it.seq() == all,
            alive@ == survivors(all.take(it.index())),
            failed@ == failures(all.take(it.index())),
    {
        proof {
            let k = it.index();
            assert(all.take(k + 1).drop_last() =~= all.take(k));
            assert(all.take(k + 1).last() == outcome);
        }
        match outcome {
            ProbeOutcome::Success(metrics) => alive.push(metrics),
            ProbeOutcome::Failure(reason) => failed.push(reason),
        }
    }
    assert(all.take(all.len() as int) =~= all);
    (alive, failed)
}

} // verus!
