//! The batch of checks of one run: which targets were asked, and what has
//! come back so far.
//!
//! The checks of a batch run side by side and finish in any order. The
//! batch keeps one place for each target; a result goes to the place of
//! its target whenever it arrives, and the run has a result when every
//! place is filled.

use vstd::prelude::*;

use crate::config::{target_views, Target, TargetView};
use crate::outcome::{conclude, outcome_of, CheckOutcome, OutcomeView, ProbeResult};
use crate::run::{summed, RunResult, RunView};

verus! {

/// What a batch holds: its targets, and for each of them the result of
/// its check, once that has arrived.
pub struct BatchView {
    pub targets: Seq<TargetView>,
    pub results: Seq<Option<ProbeResult>>,
}

/// The checks of one run.
#[derive(Debug, PartialEq, Eq)]
pub struct Batch {
    targets: Vec<Target>,
    results: Vec<Option<ProbeResult>>,
}

impl View for Batch {
    type V = BatchView;

    closed spec fn view(&self) -> BatchView {
        BatchView { targets: target_views(self.targets@), results: self.results@ }
    }
}

/// Whether a batch has one place for each of its targets.
pub open spec fn well_formed(batch: BatchView) -> bool {
    batch.results.len() == batch.targets.len()
}

/// The batch for `targets` before anything has come back.
pub open spec fn started(targets: Seq<TargetView>) -> BatchView {
    BatchView { targets, results: Seq::new(targets.len(), |i: int| None::<ProbeResult>) }
}

/// Whether a batch takes a result for the target at `index`: the target
/// exists, and nothing has come back for it yet.
pub open spec fn accepts(batch: BatchView, index: int) -> bool {
    0 <= index < batch.results.len() && batch.results[index] is None
}

/// The batch after `result` arrived for the target at `index`. A result
/// that the batch does not take leaves it as it was.
pub open spec fn recorded(batch: BatchView, index: int, result: ProbeResult) -> BatchView {
    if accepts(batch, index) {
        BatchView { targets: batch.targets, results: batch.results.update(index, Some(result)) }
    } else {
        batch
    }
}

/// Whether the check of every target has come to its end.
pub open spec fn complete(batch: BatchView) -> bool {
    forall|i: int| 0 <= i < batch.results.len() ==> (#[trigger] batch.results[i]) is Some
}

/// The outcomes of a complete batch: for each target, at the target's
/// place, the outcome of what came back for it.
pub open spec fn outcomes_of(batch: BatchView) -> Seq<OutcomeView> {
    Seq::new(batch.targets.len(), |i: int| outcome_of(batch.targets[i], batch.results[i]->0))
}

/// The result of the run: none while a check is still out, and the sum of
/// all outcomes after that.
pub open spec fn finished(batch: BatchView) -> Option<RunView> {
    if complete(batch) {
        Some(summed(outcomes_of(batch)))
    } else {
        None
    }
}

/// One arrival: the place of the target, and what came back for it.
pub struct Arrival {
    pub index: int,
    pub result: ProbeResult,
}

/// The batch after `arrivals` came in, one after the other.
pub open spec fn replayed(batch: BatchView, arrivals: Seq<Arrival>) -> BatchView
    decreases arrivals.len(),
{
    if arrivals.len() == 0 {
        batch
    } else {
        replayed(
            recorded(batch, arrivals[0].index, arrivals[0].result),
            arrivals.drop_first(),
        )
    }
}

/// What the earliest of `arrivals` for the target at `index` brought
/// back, if there is one.
pub open spec fn first_for(arrivals: Seq<Arrival>, index: int) -> Option<ProbeResult>
    decreases arrivals.len(),
{
    if arrivals.len() == 0 {
        None
    } else if arrivals[0].index == index {
        Some(arrivals[0].result)
    } else {
        first_for(arrivals.drop_first(), index)
    }
}

impl Batch {
    #[verifier::type_invariant]
    spec fn one_place_per_target(self) -> bool {
        self.results.len() == self.targets.len()
    }

    /// Starts a batch for `targets`. Nothing has come back yet.
    pub fn new(targets: Vec<Target>) -> (batch: Batch)
        ensures
            batch@ == started(target_views(targets@)),
    {
        let mut results: Vec<Option<ProbeResult>> = Vec::new();
        let mut i: usize = 0;
        while i < targets.len()
            invariant
                i <= targets.len(),
                results.len() == i,
                forall|j: int| 0 <= j < i ==> (#[trigger] results[j]) is None,
            decreases targets.len() - i,
        {
            results.push(None);
            i += 1;
        }
        assert(results@ =~= started(target_views(targets@)).results);
        Batch { targets, results }
    }

    /// The targets of the batch, in their order.
    pub fn targets(&self) -> (targets: &Vec<Target>)
        ensures
            target_views(targets@) == self@.targets,
            well_formed(self@),
    {
        proof {
            use_type_invariant(self);
        }
        &self.targets
    }

    /// Takes the result of the check of the target at `index`. The first
    /// result for a target stands: a second one for the same target, or
    /// one for a target that the batch does not have, is turned away and
    /// changes nothing.
    pub fn record(&mut self, index: usize, result: ProbeResult) -> (accepted: bool)
        ensures
            accepted == accepts(old(self)@, index as int),
            final(self)@ == recorded(old(self)@, index as int, result),
            well_formed(final(self)@),
    {
        proof {
            use_type_invariant(&*self);
        }
        if index < self.results.len() && self.results[index].is_none() {
            self.results[index] = Some(result);
            true
        } else {
            false
        }
    }

    /// Whether the check of every target has come to its end.
    pub fn is_complete(&self) -> (yes: bool)
        ensures
            yes == complete(self@),
    {
        let mut i: usize = 0;
        while i < self.results.len()
            invariant
                i <= self.results.len(),
                forall|j: int| 0 <= j < i ==> (#[trigger] self.results[j]) is Some,
            decreases self.results.len() - i,
        {
            if self.results[i].is_none() {
                return false;
            }
            i += 1;
        }
        true
    }

    /// The result of the run, once the check of every target has come to
    /// its end; none before that, whatever has come back already.
    pub fn finish(&self) -> (result: Option<RunResult>)
        ensures
            result is Some <==> complete(self@),
            result matches Some(run) ==> Some(run@) == finished(self@),
    {
        proof {
            use_type_invariant(self);
        }
        let mut outcomes: Vec<CheckOutcome> = Vec::new();
        let mut i: usize = 0;
        while i < self.targets.len()
            invariant
                i <= self.targets.len(),
                self.results.len() == self.targets.len(),
                outcomes.len() == i,
                forall|j: int| 0 <= j < i ==> (#[trigger] self.results[j]) is Some,
                forall|j: int|
                    0 <= j < i ==> (#[trigger] outcomes[j])@ == outcome_of(
                        self.targets[j]@,
                        self.results[j]->0,
                    ),
            decreases self.targets.len() - i,
        {
            match &self.results[i] {
                Some(result) => {
                    outcomes.push(conclude(&self.targets[i], result));
                },
                None => {
                    return None;
                },
            }
            i += 1;
        }
        assert(crate::run::outcome_views(outcomes@) =~= outcomes_of(self@));
        Some(RunResult::from_outcomes(outcomes))
    }
}

/// Arrivals fill the empty places of a batch and touch nothing else: each
/// place keeps what it held, or takes the earliest arrival for it.
pub proof fn lemma_replay_fills_places(batch: BatchView, arrivals: Seq<Arrival>)
    ensures
        replayed(batch, arrivals).targets == batch.targets,
        replayed(batch, arrivals).results.len() == batch.results.len(),
        forall|i: int|
            0 <= i < batch.results.len() ==> #[trigger] replayed(batch, arrivals).results[i] == (
            if batch.results[i] is Some {
                batch.results[i]
            } else {
                first_for(arrivals, i)
            }),
    decreases arrivals.len(),
{
    if arrivals.len() > 0 {
        let next = recorded(batch, arrivals[0].index, arrivals[0].result);
        lemma_replay_fills_places(next, arrivals.drop_first());
        assert forall|i: int| 0 <= i < batch.results.len() implies #[trigger] replayed(
            batch,
            arrivals,
        ).results[i] == (if batch.results[i] is Some {
            batch.results[i]
        } else {
            first_for(arrivals, i)
        }) by {
            assert(replayed(batch, arrivals).results[i] == replayed(
                next,
                arrivals.drop_first(),
            ).results[i]);
        }
    }
}

/// A run has a result exactly when every target has reported, and then
/// the result holds one outcome for each target, at the target's place,
/// made of what came back for that target: nothing is dropped, doubled,
/// moved or made up, whichever check finished first.
pub proof fn law_outcomes_follow_targets(targets: Seq<TargetView>, arrivals: Seq<Arrival>)
    ensures
        finished(replayed(started(targets), arrivals)) is Some <==> (forall|i: int|
            0 <= i < targets.len() ==> (#[trigger] first_for(arrivals, i)) is Some),
        finished(replayed(started(targets), arrivals)) matches Some(run)
            ==> run.outcomes.len() == targets.len(),
        finished(replayed(started(targets), arrivals)) matches Some(run) ==> (forall|i: int|
            0 <= i < targets.len() ==> #[trigger] run.outcomes[i] == outcome_of(
                targets[i],
                first_for(arrivals, i)->0,
            )),
{
    let batch = replayed(started(targets), arrivals);
    lemma_replay_fills_places(started(targets), arrivals);
    if complete(batch) {
        assert forall|i: int| 0 <= i < targets.len() implies (#[trigger] first_for(arrivals, i))
            is Some by {
            assert(batch.results[i] is Some);
        }
    }
    if forall|i: int| 0 <= i < targets.len() ==> (#[trigger] first_for(arrivals, i)) is Some {
        assert forall|i: int| 0 <= i < batch.results.len() implies (#[trigger] batch.results[i])
            is Some by {
            assert(first_for(arrivals, i) is Some);
        }
    }
}

/// The order in which results arrive does not matter: two runs over the
/// same targets in which every target first brought back the same result
/// end in the same state and with the same result.
pub proof fn law_arrival_order_is_irrelevant(
    targets: Seq<TargetView>,
    first: Seq<Arrival>,
    second: Seq<Arrival>,
)
    requires
        forall|i: int| 0 <= i < targets.len() ==> first_for(first, i) == first_for(second, i),
    ensures
        replayed(started(targets), first) == replayed(started(targets), second),
        finished(replayed(started(targets), first)) == finished(
            replayed(started(targets), second),
        ),
{
    lemma_replay_fills_places(started(targets), first);
    lemma_replay_fills_places(started(targets), second);
    assert(replayed(started(targets), first).results =~= replayed(
        started(targets),
        second,
    ).results);
}

/// The outcome of a target depends on what came back for that target
/// alone: a late, failed or missing check of another target changes
/// nothing about it.
pub proof fn law_outcomes_are_independent(first: BatchView, second: BatchView, i: int)
    requires
        0 <= i < first.targets.len(),
        0 <= i < second.targets.len(),
        first.targets[i] == second.targets[i],
        first.results[i] == second.results[i],
    ensures
        outcomes_of(first)[i] == outcomes_of(second)[i],
{
}

/// The one attempt at a target is final: once a result has arrived for
/// it, a later one for the same target changes nothing.
pub proof fn law_first_result_stands(
    batch: BatchView,
    index: int,
    first: ProbeResult,
    second: ProbeResult,
)
    ensures
        recorded(recorded(batch, index, first), index, second) == recorded(batch, index, first),
        !accepts(recorded(batch, index, first), index),
{
}

/// The checks of a batch do not wait for each other: whether the batch
/// takes a result for one target, and what it then keeps for it, never
/// depends on what has or has not come back for another.
pub proof fn law_arrivals_do_not_wait(batch: BatchView, other: int, late: ProbeResult, index: int)
    requires
        other != index,
    ensures
        accepts(recorded(batch, other, late), index) == accepts(batch, index),
        0 <= index < batch.results.len() ==> recorded(batch, other, late).results[index]
            == batch.results[index],
{
}

/// A batch without targets is complete from the start, and its run is
/// healthy; a batch with targets has no result before something arrived.
pub proof fn law_empty_batch_is_healthy(targets: Seq<TargetView>)
    ensures
        targets.len() == 0 ==> finished(started(targets)) == Some(
            RunView { outcomes: Seq::<OutcomeView>::empty(), all_healthy: true },
        ),
        targets.len() > 0 ==> finished(started(targets)) is None,
{
    if targets.len() == 0 {
        assert(outcomes_of(started(targets)) =~= Seq::<OutcomeView>::empty());
    } else {
        assert(started(targets).results[0] is None);
    }
}

} // verus!
