use health_checker::config::{ConfigError, Target};
use health_checker::fatal::FatalError;
use health_checker::outcome::{conclude, CheckOutcome, ProbeResult, Verdict};
use health_checker::report::{describe_outcome, describe_summary, exit_code, report, ReportLine};
use health_checker::run::RunResult;
use health_checker::status::HttpStatus;

fn replied(url: &str, code: u16) -> CheckOutcome {
    conclude(
        &Target { url: url.to_string(), timeout: 2 },
        &ProbeResult::Responded { status: HttpStatus::new(code).unwrap() },
    )
}

fn failed(url: &str, cause: &str) -> CheckOutcome {
    conclude(
        &Target { url: url.to_string(), timeout: 2 },
        &ProbeResult::Failed { cause: cause.to_string() },
    )
}

fn line(failure: bool, text: &str) -> ReportLine {
    ReportLine { failure, text: text.to_string() }
}

#[test]
fn healthy_outcome_line() {
    let outcome = CheckOutcome { target: "http://a".to_string(), verdict: Verdict::Healthy };
    assert_eq!(describe_outcome(&outcome), line(false, "✅ http://a is up and running!"));
}

#[test]
fn unhealthy_outcome_line() {
    let outcome = CheckOutcome {
        target: "http://a".to_string(),
        verdict: Verdict::Unhealthy { code: 404, label: "Not Found (404)".to_string() },
    };
    assert_eq!(
        describe_outcome(&outcome),
        line(true, "❌ Error checking http://a: http://a - Not Found (404)")
    );
}

#[test]
fn unreachable_outcome_line() {
    let outcome = CheckOutcome {
        target: "http://a".to_string(),
        verdict: Verdict::Unreachable { cause: "operation timed out".to_string() },
    };
    assert_eq!(
        describe_outcome(&outcome),
        line(
            true,
            "❌ Error checking http://a: Failed to send request to http://a: operation timed out"
        )
    );
}

#[test]
fn failure_lines_show_the_status_number() {
    for code in 400u16..=999 {
        let line = describe_outcome(&replied("http://a", code));
        assert!(line.failure);
        assert!(line.text.contains(&code.to_string()), "status {}: {}", code, line.text);
        assert!(line.text.contains("http://a"));
    }
}

#[test]
fn summary_lines() {
    assert_eq!(describe_summary(true), line(false, "All health checks passed successfully!"));
    assert_eq!(describe_summary(false), line(true, "Error: One or more health checks failed"));
}

#[test]
fn report_of_a_healthy_run() {
    let end = Ok(RunResult::from_outcomes(vec![replied("http://a", 200), replied("http://b", 204)]));
    assert_eq!(
        report(&end),
        vec![
            line(false, "✅ http://a is up and running!"),
            line(false, "✅ http://b is up and running!"),
            line(false, "All health checks passed successfully!"),
        ]
    );
    assert_eq!(exit_code(&end), 0);
}

#[test]
fn report_of_a_failing_run() {
    let end = Ok(RunResult::from_outcomes(vec![
        replied("http://a", 500),
        replied("http://b", 200),
        failed("http://c", "connection refused"),
        replied("http://d", 429),
    ]));
    assert_eq!(
        report(&end),
        vec![
            line(true, "❌ Error checking http://a: http://a - Internal Server Error (500)"),
            line(false, "✅ http://b is up and running!"),
            line(
                true,
                "❌ Error checking http://c: Failed to send request to http://c: connection refused"
            ),
            line(
                true,
                "❌ Error checking http://d: http://d - Request failed with status: 429 Too Many Requests"
            ),
            line(true, "Error: One or more health checks failed"),
        ]
    );
    assert_eq!(exit_code(&end), 1);
}

#[test]
fn report_of_an_empty_run() {
    let end = Ok(RunResult::from_outcomes(Vec::new()));
    assert_eq!(report(&end), vec![line(false, "All health checks passed successfully!")]);
    assert_eq!(exit_code(&end), 0);
}

#[test]
fn report_of_a_refused_config() {
    let end: Result<RunResult, FatalError> =
        Err(FatalError::ConfigRefused { error: ConfigError::MissingTimeout });
    assert_eq!(
        report(&end),
        vec![line(true, "Error: Failed to parse config.toml: missing field `timeout`")]
    );
    assert_eq!(exit_code(&end), 1);
}

#[test]
fn report_of_an_unreadable_config() {
    let end: Result<RunResult, FatalError> =
        Err(FatalError::ConfigUnreadable { reason: "permission denied".to_string() });
    assert_eq!(
        report(&end),
        vec![line(true, "Error: Failed to read config.toml: permission denied")]
    );
    assert_eq!(exit_code(&end), 1);
}

#[test]
fn report_of_an_unparsable_config() {
    let end: Result<RunResult, FatalError> =
        Err(FatalError::ConfigUnparsable { reason: "invalid type".to_string() });
    assert_eq!(report(&end), vec![line(true, "Error: Failed to parse config.toml: invalid type")]);
    assert_eq!(exit_code(&end), 1);
}

#[test]
fn report_of_a_failed_client_setup() {
    let end: Result<RunResult, FatalError> =
        Err(FatalError::ClientSetup { reason: "builder error".to_string() });
    assert_eq!(
        report(&end),
        vec![line(true, "Error: Failed to build HTTP client: builder error")]
    );
    assert_eq!(exit_code(&end), 1);
}

#[test]
fn exit_code_is_zero_only_without_failure_lines() {
    let runs = vec![
        Ok(RunResult::from_outcomes(Vec::new())),
        Ok(RunResult::from_outcomes(vec![replied("http://a", 200)])),
        Ok(RunResult::from_outcomes(vec![replied("http://a", 200), replied("http://b", 404)])),
        Ok(RunResult::from_outcomes(vec![failed("http://a", "timed out")])),
        Err(FatalError::ConfigRefused { error: ConfigError::MissingUrls }),
    ];
    for end in &runs {
        let any_failure = report(end).iter().any(|l| l.failure);
        assert_eq!(exit_code(end) == 0, !any_failure);
    }
}
