use website_checker::probe::{classify, FetchEvent, Outcome};
use website_checker::status::WebsiteStatus;

#[test]
fn probe_result_classifies_and_records() {
    let w = WebsiteStatus::probe_result(
        "https://example.com/not-found".to_string(),
        FetchEvent::StatusError { status: 404 },
        88,
    );
    assert_eq!(w.url, "https://example.com/not-found");
    assert_eq!(w.response_time, 88);
    assert!(w.timestamp >= 0);
    match &w.outcome {
        Outcome::Failure { status, message, .. } => {
            assert_eq!(*status, 404);
            assert_eq!(message, "HTTP error");
        }
        Outcome::Success { .. } => panic!("a status error becomes a failure record"),
    }
    assert_eq!(w.outcome.error_message(), Some("HTTP error".to_string()));
}

#[test]
fn a_successful_outcome_posts_no_error() {
    let w = WebsiteStatus::probe_result(
        "https://example.com".to_string(),
        FetchEvent::Response { status: 200 },
        3,
    );
    assert_eq!(w.outcome.error_message(), None);
}

#[test]
fn success_line_shows_status_time_and_timestamp() {
    let w = WebsiteStatus::at_time(
        "https://example.com".to_string(),
        Outcome::Success { status: 200 },
        123,
        0,
    );
    assert_eq!(
        w.display(),
        "For https://example.com = status: 200, response time: 123 ms, timestamp: 1970-01-01 00:00:00 UTC"
    );
}

#[test]
fn failure_line_shows_the_error_message() {
    let outcome = classify(FetchEvent::TransportError {
        cause: "connection refused".to_string(),
    });
    let w = WebsiteStatus::at_time("http://localhost:1".to_string(), outcome, 5, 0);
    assert_eq!(
        w.display(),
        "For http://localhost:1 = error: Other error: connection refused, response time: 5 ms, timestamp: 1970-01-01 00:00:00 UTC"
    );
}

#[test]
fn timestamp_renders_with_subsecond_part() {
    let w = WebsiteStatus::at_time(
        "https://example.com".to_string(),
        Outcome::Success { status: 599 },
        0,
        947638923004,
    );
    assert_eq!(
        w.display(),
        "For https://example.com = status: 599, response time: 0 ms, timestamp: 2000-01-12 01:02:03.004 UTC"
    );
}

#[test]
fn new_captures_a_non_negative_timestamp() {
    let w = WebsiteStatus::new(
        "https://example.com".to_string(),
        Outcome::Success { status: 100 },
        7,
    );
    assert_eq!(w.url, "https://example.com");
    assert_eq!(w.response_time, 7);
    assert!(w.timestamp >= 0);
    match w.outcome {
        Outcome::Success { status } => assert_eq!(status, 100),
        Outcome::Failure { .. } => panic!("the outcome is kept as given"),
    }
}
