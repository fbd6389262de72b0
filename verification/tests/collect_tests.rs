use website_checker::collect::{count_failures, display_all, error_line, error_lines};
use website_checker::probe::{classify, FetchEvent, Outcome};
use website_checker::status::WebsiteStatus;

#[test]
fn empty_input_yields_no_lines_and_no_failures() {
    let entries: Vec<Option<String>> = Vec::new();
    assert_eq!(error_lines(&entries).len(), 0);
    assert_eq!(count_failures(&entries), 0);
    let results: Vec<WebsiteStatus> = Vec::new();
    assert_eq!(display_all(&results).len(), 0);
}

#[test]
fn one_aggregate_line_per_entry() {
    let entries = vec![
        None,
        Some("HTTP error".to_string()),
        Some("Other error: dns failure".to_string()),
        None,
    ];
    let lines = error_lines(&entries);
    assert_eq!(lines.len(), 4);
    assert_eq!(lines[0], "Errors: none");
    assert_eq!(lines[1], "Errors: HTTP error");
    assert_eq!(lines[2], "Errors: Other error: dns failure");
    assert_eq!(lines[3], "Errors: none");
}

#[test]
fn error_line_renders_presence_and_absence() {
    assert_eq!(error_line(&None), "Errors: none");
    assert_eq!(
        error_line(&Some("HTTP error".to_string())),
        "Errors: HTTP error"
    );
}

#[test]
fn fifty_mixed_probes_all_report_and_failures_are_counted() {
    let mut entries: Vec<Option<String>> = Vec::new();
    let mut expected_failures = 0;
    for i in 0..50 {
        if i % 3 == 0 {
            entries.push(Some(format!("Other error: site {} unreachable", i)));
            expected_failures += 1;
        } else if i % 7 == 0 {
            entries.push(Some("HTTP error".to_string()));
            expected_failures += 1;
        } else {
            entries.push(None);
        }
    }
    assert_eq!(entries.len(), 50);
    assert_eq!(error_lines(&entries).len(), 50);
    assert_eq!(count_failures(&entries), expected_failures);
}

#[test]
fn one_display_line_per_result() {
    let mut results: Vec<WebsiteStatus> = Vec::new();
    results.push(WebsiteStatus::at_time(
        "https://example.com".to_string(),
        Outcome::Success { status: 200 },
        40,
        0,
    ));
    results.push(WebsiteStatus::at_time(
        "https://example.com/not-found".to_string(),
        classify(FetchEvent::StatusError { status: 404 }),
        41,
        0,
    ));
    results.push(WebsiteStatus::at_time(
        "http://localhost:1".to_string(),
        classify(FetchEvent::TransportError {
            cause: "connection refused".to_string(),
        }),
        2,
        0,
    ));
    let lines = display_all(&results);
    assert_eq!(lines.len(), 3);
    assert!(lines[0].starts_with("For https://example.com = status: 200, response time: 40 ms"));
    assert!(lines[1].starts_with("For https://example.com/not-found = error: HTTP error"));
    assert!(lines[2].starts_with("For http://localhost:1 = error: Other error: connection refused"));
}
