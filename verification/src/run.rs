//! The result of a run: its outcomes and the flag derived from them.

use vstd::prelude::*;

use crate::outcome::{CheckOutcome, OutcomeView};

verus! {

/// What the result of a run says: the outcomes in the order of the
/// targets, and whether all of them are healthy.
pub struct RunView {
    pub outcomes: Seq<OutcomeView>,
    pub all_healthy: bool,
}

/// The result of one run. Its flag is derived from its outcomes.
#[derive(Debug, PartialEq, Eq)]
pub struct RunResult {
    outcomes: Vec<CheckOutcome>,
    all_healthy: bool,
}

/// The views of a list of outcomes.
pub open spec fn outcome_views(outcomes: Seq<CheckOutcome>) -> Seq<OutcomeView> {
    Seq::new(outcomes.len(), |i: int| outcomes[i]@)
}

/// Whether every outcome in the list is healthy.
pub open spec fn all_healthy(outcomes: Seq<OutcomeView>) -> bool {
    forall|i: int| 0 <= i < outcomes.len() ==> (#[trigger] outcomes[i]).verdict is Healthy
}

/// The result that a list of outcomes adds up to.
pub open spec fn summed(outcomes: Seq<OutcomeView>) -> RunView {
    RunView { outcomes, all_healthy: all_healthy(outcomes) }
}

impl View for RunResult {
    type V = RunView;

    closed spec fn view(&self) -> RunView {
        RunView { outcomes: outcome_views(self.outcomes@), all_healthy: self.all_healthy }
    }
}

impl RunResult {
    #[verifier::type_invariant]
    spec fn flag_is_derived(self) -> bool {
        self.all_healthy == all_healthy(outcome_views(self.outcomes@))
    }

    /// Sums up the outcomes of a run. All of them are kept, in their
    /// order; a failure among them changes the flag and nothing else.
    pub fn from_outcomes(outcomes: Vec<CheckOutcome>) -> (result: RunResult)
        ensures
            result@ == summed(outcome_views(outcomes@)),
    {
        let mut healthy: bool = true;
        let mut i: usize = 0;
        while i < outcomes.len()
            invariant
                i <= outcomes.len(),
                healthy == (forall|j: int|
                    0 <= j < i ==> (#[trigger] outcomes[j])@.verdict is Healthy),
            decreases outcomes.len() - i,
        {
            let fine = outcomes[i].verdict.is_healthy();
            healthy = healthy && fine;
            i += 1;
        }
        assert(healthy == all_healthy(outcome_views(outcomes@))) by {
            let views = outcome_views(outcomes@);
            if healthy {
                assert forall|j: int| 0 <= j < views.len() implies (#[trigger] views[j]).verdict
                    is Healthy by {
                    assert(outcomes[j]@.verdict is Healthy);
                }
            } else {
                let j = choose|j: int|
                    0 <= j < i && !((#[trigger] outcomes[j])@.verdict is Healthy);
                assert(views[j] == outcomes[j]@);
            }
        }
        RunResult { outcomes, all_healthy: healthy }
    }

    /// The outcomes, in the order of the targets.
    pub fn outcomes(&self) -> (outcomes: &Vec<CheckOutcome>)
        ensures
            outcome_views(outcomes@) == self@.outcomes,
    {
        &self.outcomes
    }

    /// Whether every target is healthy.
    pub fn all_healthy(&self) -> (yes: bool)
        ensures
            yes == self@.all_healthy,
            self@ == summed(self@.outcomes),
    {
        proof {
            use_type_invariant(self);
        }
        self.all_healthy
    }
}

/// A run is healthy exactly when none of its outcomes is unreachable or
/// unhealthy; a run without outcomes is healthy.
pub proof fn law_all_healthy_iff_no_failure(outcomes: Seq<OutcomeView>)
    ensures
        summed(outcomes).all_healthy <==> !exists|i: int|
            0 <= i < outcomes.len() && ((#[trigger] outcomes[i]).verdict is Unreachable
                || outcomes[i].verdict is Unhealthy),
        outcomes.len() == 0 ==> summed(outcomes).all_healthy,
{
    if !summed(outcomes).all_healthy {
        let i = choose|i: int|
            0 <= i < outcomes.len() && !((#[trigger] outcomes[i]).verdict is Healthy);
        assert(outcomes[i].verdict is Unreachable || outcomes[i].verdict is Unhealthy);
    }
}

} // verus!
