use health_checker::config::Target;
use health_checker::outcome::{classify, conclude, CheckOutcome, ProbeResult, Verdict};
use health_checker::status::HttpStatus;

fn replied(code: u16) -> ProbeResult {
    ProbeResult::Responded { status: HttpStatus::new(code).expect("a status from 100 to 999") }
}

#[test]
fn status_numbers_are_accepted_from_100_to_999() {
    assert!(HttpStatus::new(0).is_none());
    assert!(HttpStatus::new(99).is_none());
    assert_eq!(HttpStatus::new(100).map(|s| s.code()), Some(100));
    assert_eq!(HttpStatus::new(404).map(|s| s.code()), Some(404));
    assert_eq!(HttpStatus::new(999).map(|s| s.code()), Some(999));
    assert!(HttpStatus::new(1000).is_none());
    assert!(HttpStatus::new(u16::MAX).is_none());
}

#[test]
fn failure_begins_at_400() {
    assert!(!HttpStatus::new(100).unwrap().is_failure());
    assert!(!HttpStatus::new(200).unwrap().is_failure());
    assert!(!HttpStatus::new(301).unwrap().is_failure());
    assert!(!HttpStatus::new(399).unwrap().is_failure());
    assert!(HttpStatus::new(400).unwrap().is_failure());
    assert!(HttpStatus::new(599).unwrap().is_failure());
    assert!(HttpStatus::new(999).unwrap().is_failure());
}

#[test]
fn status_200_is_healthy() {
    assert_eq!(classify(&replied(200)), Verdict::Healthy);
    assert!(classify(&replied(200)).is_healthy());
}

#[test]
fn replies_below_400_are_healthy() {
    for code in [100u16, 101, 204, 299, 301, 304, 399] {
        assert_eq!(classify(&replied(code)), Verdict::Healthy, "status {}", code);
    }
}

#[test]
fn status_404_is_unhealthy_not_found() {
    assert_eq!(
        classify(&replied(404)),
        Verdict::Unhealthy { code: 404, label: "Not Found (404)".to_string() }
    );
}

#[test]
fn status_500_is_unhealthy_internal_server_error() {
    assert_eq!(
        classify(&replied(500)),
        Verdict::Unhealthy { code: 500, label: "Internal Server Error (500)".to_string() }
    );
}

#[test]
fn other_failures_carry_the_displayed_status() {
    assert_eq!(
        classify(&replied(503)),
        Verdict::Unhealthy {
            code: 503,
            label: "Request failed with status: 503 Service Unavailable".to_string(),
        }
    );
    assert_eq!(
        classify(&replied(400)),
        Verdict::Unhealthy {
            code: 400,
            label: "Request failed with status: 400 Bad Request".to_string(),
        }
    );
    assert_eq!(
        classify(&replied(418)),
        Verdict::Unhealthy {
            code: 418,
            label: "Request failed with status: 418 I'm a teapot".to_string(),
        }
    );
}

#[test]
fn unregistered_failures_are_still_labelled() {
    assert_eq!(
        classify(&replied(599)),
        Verdict::Unhealthy {
            code: 599,
            label: "Request failed with status: 599 <unknown status code>".to_string(),
        }
    );
    assert_eq!(
        classify(&replied(999)),
        Verdict::Unhealthy {
            code: 999,
            label: "Request failed with status: 999 <unknown status code>".to_string(),
        }
    );
}

#[test]
fn label_agrees_with_the_http_library() {
    for code in 100u16..=999 {
        let status = HttpStatus::new(code).unwrap();
        let shown = reqwest::StatusCode::from_u16(code).unwrap().to_string();
        assert_eq!(status.label(), status.label_with(&shown), "status {}", code);
    }
}

#[test]
fn displayed_status_begins_with_its_number() {
    for code in 400u16..=999 {
        if code == 404 || code == 500 {
            continue;
        }
        let label = HttpStatus::new(code).unwrap().label();
        let prefix = format!("Request failed with status: {} ", code);
        assert!(label.starts_with(&prefix), "status {}: {}", code, label);
    }
}

#[test]
fn label_with_uses_the_given_text() {
    let status = HttpStatus::new(502).unwrap();
    assert_eq!(status.label_with("502 Bad Gateway"), "Request failed with status: 502 Bad Gateway");
    assert_eq!(status.label_with(""), "Request failed with status: ");
    assert_eq!(HttpStatus::new(404).unwrap().label_with("anything"), "Not Found (404)");
    assert_eq!(HttpStatus::new(500).unwrap().label_with("anything"), "Internal Server Error (500)");
}

#[test]
fn timed_out_probe_is_unreachable_with_its_cause() {
    let result = ProbeResult::Failed {
        cause: "error sending request for url (http://10.255.255.1/): operation timed out"
            .to_string(),
    };
    match classify(&result) {
        Verdict::Unreachable { cause } => {
            assert!(cause.contains("timed out"));
            assert_eq!(
                cause,
                "error sending request for url (http://10.255.255.1/): operation timed out"
            );
        }
        other => panic!("expected an unreachable verdict, got {:?}", other),
    }
}

#[test]
fn refused_connection_is_unreachable() {
    let result = ProbeResult::Failed { cause: "connection refused".to_string() };
    assert_eq!(classify(&result), Verdict::Unreachable { cause: "connection refused".to_string() });
    assert!(!classify(&result).is_healthy());
}

#[test]
fn empty_cause_is_kept_empty() {
    let result = ProbeResult::Failed { cause: String::new() };
    assert_eq!(classify(&result), Verdict::Unreachable { cause: String::new() });
}

#[test]
fn conclude_names_the_target() {
    let target = Target { url: "https://example.org/health".to_string(), timeout: 5 };
    assert_eq!(
        conclude(&target, &replied(200)),
        CheckOutcome { target: "https://example.org/health".to_string(), verdict: Verdict::Healthy }
    );
    assert_eq!(
        conclude(&target, &replied(404)),
        CheckOutcome {
            target: "https://example.org/health".to_string(),
            verdict: Verdict::Unhealthy { code: 404, label: "Not Found (404)".to_string() },
        }
    );
    assert_eq!(
        conclude(&target, &ProbeResult::Failed { cause: "dns error".to_string() }),
        CheckOutcome {
            target: "https://example.org/health".to_string(),
            verdict: Verdict::Unreachable { cause: "dns error".to_string() },
        }
    );
}
