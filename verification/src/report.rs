//! What a run tells its invoker: the lines of the report and the exit code.

use vstd::prelude::*;
use vstd::string::*;

use crate::config::TargetView;
use crate::fatal::{fatal_text, FatalError};
use crate::outcome::{outcome_of, CheckOutcome, OutcomeView, ProbeResult, Verdict, VerdictView};
use crate::run::{summed, RunResult, RunView};
use crate::status::{code_digits, failure_code, law_label_shows_number, valid_code, HttpStatus};
use crate::text::{lemma_occurs_between, lemma_occurs_in_part, occurs_in};

verus! {

/// One line of the report.
#[derive(Debug, PartialEq, Eq)]
pub struct ReportLine {
    /// Whether the line reports a failure; such lines belong on the error
    /// stream.
    pub failure: bool,
    /// The text of the line, without a line end.
    pub text: String,
}

/// What a line of the report says.
pub struct LineView {
    pub failure: bool,
    pub text: Seq<char>,
}

impl View for ReportLine {
    type V = LineView;

    open spec fn view(&self) -> LineView {
        LineView { failure: self.failure, text: self.text@ }
    }
}

/// The views of a list of lines.
pub open spec fn line_views(lines: Seq<ReportLine>) -> Seq<LineView> {
    Seq::new(lines.len(), |i: int| lines[i]@)
}

/// The line for one outcome: a success marker and the target, or a
/// failure marker, the target, and the cause or the status label.
pub open spec fn outcome_line(outcome: OutcomeView) -> LineView {
    match outcome.verdict {
        VerdictView::Healthy => LineView {
            failure: false,
            text: "✅ "@ + outcome.target + " is up and running!"@,
        },
        VerdictView::Unreachable { cause } => LineView {
            failure: true,
            text: "❌ Error checking "@ + outcome.target + ": Failed to send request to "@
                + outcome.target + ": "@ + cause,
        },
        VerdictView::Unhealthy { code, label } => LineView {
            failure: true,
            text: "❌ Error checking "@ + outcome.target + ": "@ + outcome.target + " - "@
                + label,
        },
    }
}

/// The last line of the report of a finished run.
pub open spec fn summary_line(all_healthy: bool) -> LineView {
    if all_healthy {
        LineView { failure: false, text: "All health checks passed successfully!"@ }
    } else {
        LineView { failure: true, text: "Error: One or more health checks failed"@ }
    }
}

/// The only line of the report of a run that could not start.
pub open spec fn fatal_line(error: FatalError) -> LineView {
    LineView { failure: true, text: "Error: "@ + fatal_text(error) }
}

/// The report of a finished run: a line for each outcome, in the order of
/// the outcomes, then the summary.
pub open spec fn run_report(run: RunView) -> Seq<LineView> {
    Seq::new(run.outcomes.len(), |i: int| outcome_line(run.outcomes[i])).push(
        summary_line(run.all_healthy),
    )
}

/// The report of a run, finished or not.
pub open spec fn report_of(end: Result<RunResult, FatalError>) -> Seq<LineView> {
    match end {
        Ok(run) => run_report(run@),
        Err(error) => seq![fatal_line(error)],
    }
}

/// The exit code of a run: 0 when it finished with every target healthy,
/// 1 otherwise.
pub open spec fn exit_code_of(end: Result<RunResult, FatalError>) -> u8 {
    match end {
        Ok(run) => if run@.all_healthy { 0u8 } else { 1u8 },
        Err(_) => 1u8,
    }
}

/// Writes the line for one outcome.
pub fn describe_outcome(outcome: &CheckOutcome) -> (line: ReportLine)
    ensures
        line@ == outcome_line(outcome@),
{
    let target = outcome.target.as_str();
    match &outcome.verdict {
        Verdict::Healthy => ReportLine {
            failure: false,
            text: "✅ ".to_owned().concat(target).concat(" is up and running!"),
        },
        Verdict::Unreachable { cause } => ReportLine {
            failure: true,
            text: "❌ Error checking ".to_owned().concat(target).concat(
                ": Failed to send request to ",
            ).concat(target).concat(": ").concat(cause.as_str()),
        },
        Verdict::Unhealthy { code: _, label } => ReportLine {
            failure: true,
            text: "❌ Error checking ".to_owned().concat(target).concat(": ").concat(
                target,
            ).concat(" - ").concat(label.as_str()),
        },
    }
}

/// Writes the last line of the report of a finished run.
pub fn describe_summary(all_healthy: bool) -> (line: ReportLine)
    ensures
        line@ == summary_line(all_healthy),
{
    if all_healthy {
        ReportLine { failure: false, text: "All health checks passed successfully!".to_owned() }
    } else {
        ReportLine { failure: true, text: "Error: One or more health checks failed".to_owned() }
    }
}

/// Writes the report of a run.
pub fn report(end: &Result<RunResult, FatalError>) -> (lines: Vec<ReportLine>)
    ensures
        line_views(lines@) == report_of(*end),
{
    let mut lines: Vec<ReportLine> = Vec::new();
    match end {
        Ok(run) => {
            let outcomes = run.outcomes();
            let mut i: usize = 0;
            while i < outcomes.len()
                invariant
                    i <= outcomes.len(),
                    lines.len() == i,
                    forall|j: int|
                        0 <= j < i ==> (#[trigger] lines[j])@ == outcome_line(outcomes[j]@),
                decreases outcomes.len() - i,
            {
                lines.push(describe_outcome(&outcomes[i]));
                i += 1;
            }
            lines.push(describe_summary(run.all_healthy()));
            assert(line_views(lines@) =~= run_report(run@));
        },
        Err(error) => {
            let message = error.message();
            lines.push(
                ReportLine {
                    failure: true,
                    text: "Error: ".to_owned().concat(message.as_str()),
                },
            );
            assert(line_views(lines@) =~= seq![fatal_line(*error)]);
        },
    }
    lines
}

/// The exit code of a run.
pub fn exit_code(end: &Result<RunResult, FatalError>) -> (code: u8)
    ensures
        code == exit_code_of(*end),
{
    match end {
        Ok(run) => if run.all_healthy() { 0 } else { 1 },
        Err(_) => 1,
    }
}

/// The line for an outcome keeps what the outcome holds: it names the
/// target, it is a failure line exactly when the verdict is not healthy,
/// and it then carries the cause or the status label in full.
pub proof fn law_line_keeps_outcome(outcome: OutcomeView)
    ensures
        occurs_in(outcome.target, outcome_line(outcome).text),
        outcome_line(outcome).failure <==> !(outcome.verdict is Healthy),
        outcome.verdict is Unreachable ==> occurs_in(
            outcome.verdict->cause,
            outcome_line(outcome).text,
        ),
        outcome.verdict is Unhealthy ==> occurs_in(
            outcome.verdict->label,
            outcome_line(outcome).text,
        ),
{
    let text = outcome_line(outcome).text;
    let target = outcome.target;
    match outcome.verdict {
        VerdictView::Healthy => {
            let at = "✅ "@.len() as int;
            assert(text.subrange(at, at + target.len()) =~= target);
        },
        VerdictView::Unreachable { cause } => {
            let at = "❌ Error checking "@.len() as int;
            assert(text.subrange(at, at + target.len()) =~= target);
            let end = (text.len() - cause.len()) as int;
            assert(text.subrange(end, end + cause.len()) =~= cause);
        },
        VerdictView::Unhealthy { code, label } => {
            let at = "❌ Error checking "@.len() as int;
            assert(text.subrange(at, at + target.len()) =~= target);
            let end = (text.len() - label.len()) as int;
            assert(text.subrange(end, end + label.len()) =~= label);
        },
    }
}

/// The line for a target that replied with a failure shows the number of
/// the status.
pub proof fn law_unhealthy_line_shows_number(target: TargetView, status: HttpStatus)
    requires
        valid_code(status@),
        failure_code(status@),
    ensures
        occurs_in(
            code_digits(status@),
            outcome_line(outcome_of(target, ProbeResult::Responded { status })).text,
        ),
{
    let outcome = outcome_of(target, ProbeResult::Responded { status });
    law_label_shows_number(status@);
    law_line_keeps_outcome(outcome);
    lemma_occurs_in_part(code_digits(status@), outcome.verdict->label, outcome_line(outcome).text);
}

/// The report of a finished run has one line for each outcome, in the
/// order of the outcomes, and one summary line after them.
pub proof fn law_report_follows_outcomes(run: RunView)
    ensures
        run_report(run).len() == run.outcomes.len() + 1,
        forall|i: int|
            0 <= i < run.outcomes.len() ==> #[trigger] run_report(run)[i] == outcome_line(
                run.outcomes[i],
            ),
        run_report(run).last() == summary_line(run.all_healthy),
{
}

/// A run that could not start reports its error, in one failure line and
/// no other, and ends with exit code 1.
pub proof fn law_fatal_error_is_reported_alone(error: FatalError)
    ensures
        report_of(Err(error)).len() == 1,
        report_of(Err(error))[0].failure,
        occurs_in(fatal_text(error), report_of(Err(error))[0].text),
        exit_code_of(Err(error)) == 1,
{
    lemma_occurs_between("Error: "@, fatal_text(error), Seq::<char>::empty());
}

/// The exit code agrees with the report: it is 0 exactly when no line of
/// the report is a failure line.
pub proof fn law_exit_code_matches_report(end: Result<RunResult, FatalError>)
    requires
        end is Ok ==> end->Ok_0@ == summed(end->Ok_0@.outcomes),
    ensures
        exit_code_of(end) == 0 <==> (forall|i: int|
            0 <= i < report_of(end).len() ==> !(#[trigger] report_of(end)[i]).failure),
        exit_code_of(end) == 0 || exit_code_of(end) == 1,
{
    let lines = report_of(end);
    match end {
        Ok(result) => {
            let run = result@;
            law_report_follows_outcomes(run);
            if run.all_healthy {
                assert forall|i: int| 0 <= i < lines.len() implies !(#[trigger] lines[i]).failure by {
                    if i < run.outcomes.len() {
                        assert(run.outcomes[i].verdict is Healthy);
                    }
                }
            } else {
                assert(lines[lines.len() - 1].failure);
            }
        },
        Err(error) => {
            assert(lines[0].failure);
        },
    }
}

} // verus!
