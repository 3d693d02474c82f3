//! What a probe brought back, and the verdict that follows from it.

use vstd::prelude::*;

use crate::config::{Target, TargetView};
use crate::status::{failure_code, failure_label, status_text, HttpStatus};

verus! {

/// What came back from the one request sent to a target.
#[derive(Debug, PartialEq, Eq)]
pub enum ProbeResult {
    /// A reply arrived, with this status.
    Responded { status: HttpStatus },
    /// No reply arrived: the time ran out, the connection was refused, the
    /// name did not resolve, or the transport failed in some other way.
    /// `cause` describes the failure for a human reader.
    Failed { cause: String },
}

/// The state of one target after its check.
#[derive(Debug, PartialEq, Eq)]
pub enum Verdict {
    /// A reply arrived and reported no failure.
    Healthy,
    /// No reply arrived.
    Unreachable { cause: String },
    /// A reply arrived and reported a failure.
    Unhealthy { code: u16, label: String },
}

/// What a verdict says.
pub enum VerdictView {
    Healthy,
    Unreachable { cause: Seq<char> },
    Unhealthy { code: u16, label: Seq<char> },
}

impl View for Verdict {
    type V = VerdictView;

    open spec fn view(&self) -> VerdictView {
        match self {
            Verdict::Healthy => VerdictView::Healthy,
            Verdict::Unreachable { cause } => VerdictView::Unreachable { cause: cause@ },
            Verdict::Unhealthy { code, label } => VerdictView::Unhealthy {
                code: *code,
                label: label@,
            },
        }
    }
}

impl Verdict {
    /// Whether the verdict is `Healthy`.
    pub fn is_healthy(&self) -> (yes: bool)
        ensures
            yes == (self@ is Healthy),
    {
        match self {
            Verdict::Healthy => true,
            _ => false,
        }
    }
}

/// The result of checking one target: which target, and its verdict.
#[derive(Debug, PartialEq, Eq)]
pub struct CheckOutcome {
    /// The address of the target.
    pub target: String,
    /// What the check found.
    pub verdict: Verdict,
}

/// What an outcome says.
pub struct OutcomeView {
    pub target: Seq<char>,
    pub verdict: VerdictView,
}

impl View for CheckOutcome {
    type V = OutcomeView;

    open spec fn view(&self) -> OutcomeView {
        OutcomeView { target: self.target@, verdict: self.verdict@ }
    }
}

/// The verdict on a probe result. A reply below 400 is healthy; a reply
/// from 400 on is unhealthy, with its number and label; no reply is
/// unreachable, with the cause as the transport gave it.
pub open spec fn verdict_of(result: ProbeResult) -> VerdictView {
    match result {
        ProbeResult::Responded { status } => {
            if failure_code(status@) {
                VerdictView::Unhealthy {
                    code: status@,
                    label: failure_label(status@, status_text(status@)),
                }
            } else {
                VerdictView::Healthy
            }
        },
        ProbeResult::Failed { cause } => VerdictView::Unreachable { cause: cause@ },
    }
}

/// The outcome for `target` when its probe brought back `result`.
pub open spec fn outcome_of(target: TargetView, result: ProbeResult) -> OutcomeView {
    OutcomeView { target: target.url, verdict: verdict_of(result) }
}

/// Classifies what a probe brought back.
pub fn classify(result: &ProbeResult) -> (verdict: Verdict)
    ensures
        verdict@ == verdict_of(*result),
{
    match result {
        ProbeResult::Responded { status } => {
            if status.is_failure() {
                Verdict::Unhealthy { code: status.code(), label: status.label() }
            } else {
                Verdict::Healthy
            }
        },
        ProbeResult::Failed { cause } => Verdict::Unreachable { cause: cause.clone() },
    }
}

/// Concludes the check of `target` from what its probe brought back.
pub fn conclude(target: &Target, result: &ProbeResult) -> (outcome: CheckOutcome)
    ensures
        outcome@ == outcome_of(target@, *result),
{
    CheckOutcome { target: target.url.clone(), verdict: classify(result) }
}

/// Every probe result has exactly one verdict, fixed by its kind: a
/// failed transport is unreachable and keeps its cause, a reply is healthy
/// below 400 and unhealthy from 400 on, and an unhealthy verdict carries
/// the number of the status.
pub proof fn law_classification_is_total(result: ProbeResult)
    ensures
        verdict_of(result) is Unreachable <==> result is Failed,
        verdict_of(result) is Healthy <==> result is Responded && result->status@ < 400,
        verdict_of(result) is Unhealthy <==> result is Responded && result->status@ >= 400,
        result is Failed ==> verdict_of(result)->cause == result->cause@,
        verdict_of(result) is Unhealthy ==> verdict_of(result)->code == result->status@,
{
}

} // verus!
