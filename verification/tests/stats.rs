use lychee::error::ErrorKind;
use lychee::stats::ResponseStats;
use lychee::status::Status;
use lychee::types::{Input, Response};
use lychee::uri::Uri;

fn response(s: &str, status: Status) -> Response {
    let uri = Uri::parse(s).expect("expected a valid URI");
    Response::new(uri, status, Input::Stdin, 0)
}

#[test]
fn stats_start_empty_and_successful() {
    let stats = ResponseStats::new();
    assert_eq!(stats.total, 0);
    assert!(stats.is_success());
}

#[test]
fn stats_count_successes_and_exclusions() {
    let mut stats = ResponseStats::new();
    stats.add(response("https://example.org/a", Status::Success(200)));
    stats.add(response("https://example.org/b", Status::Excluded));
    assert_eq!(stats.total, 2);
    assert_eq!(stats.successful, 1);
    assert_eq!(stats.excluded.len(), 1);
    assert!(stats.is_success());
}

#[test]
fn stats_any_failure_spoils_the_run() {
    let mut stats = ResponseStats::new();
    stats.add(response("https://example.org/a", Status::Success(200)));
    stats.add(response("https://example.org/b", Status::Error(String::new(), Some(404))));
    assert_eq!(stats.failed.len(), 1);
    assert!(!stats.is_success());
}

#[test]
fn stats_buckets_by_status() {
    let mut stats = ResponseStats::new();
    stats.add(response("https://example.org/a", Status::Error(String::new(), Some(404))));
    stats.add(response("https://example.org/b", Status::Error("dns".to_string(), None)));
    stats.add(response("https://example.org/c", Status::Timeout(None)));
    stats.add(response("https://example.org/d", Status::Redirected(301)));
    stats.add(response("https://example.org/e", Status::Excluded));
    assert_eq!(stats.failed.len(), 1);
    assert_eq!(stats.error.len(), 1);
    assert_eq!(stats.timeout.len(), 1);
    assert_eq!(stats.redirected.len(), 1);
    assert_eq!(stats.excluded.len(), 1);
    assert_eq!(stats.total, 5);
}

#[test]
fn stats_deduplicate_uris_within_a_bucket() {
    let mut stats = ResponseStats::new();
    stats.add(response("https://example.org/a", Status::Timeout(None)));
    stats.add(response("https://example.org/a", Status::Timeout(Some(504))));
    assert_eq!(stats.total, 2);
    assert_eq!(stats.timeout.len(), 1);
}

#[test]
fn error_messages_render_their_fields() {
    let e = ErrorKind::UrlParse(
        "not a uri".to_string(),
        "relative URL without a base".to_string(),
        Some("ill-formed address".to_string()),
    );
    assert_eq!(
        e.message(),
        "Cannot parse not a uri as website url (relative URL without a base) \
         or mail address (ill-formed address)"
    );
    let e = ErrorKind::Network("connection reset".to_string());
    assert_eq!(e.message(), "connection reset");
    match e.to_status() {
        Status::Error(m, None) => assert_eq!(m, "connection reset"),
        _ => panic!("an error folds into a failed status"),
    }
    let e = ErrorKind::InvalidBase("b".to_string(), "c".to_string());
    assert_eq!(e.message(), "Error with base dir `b` : c");
    let e = ErrorKind::Io(Some("/tmp/x".to_string()), "denied".to_string());
    assert_eq!(e.message(), "Failed to read file: `/tmp/x`, reason: denied");
}

#[test]
fn response_display_lines() {
    let r = response("https://example.org", Status::Success(200));
    assert_eq!(r.to_display_string(), "✔ https://example.org/ [200]");
    let r = response("https://example.org", Status::Error("dns".to_string(), None));
    assert_eq!(r.to_display_string(), "✗ https://example.org/ (dns)");
    let r = response("https://example.org", Status::Error(String::new(), Some(404)));
    assert_eq!(r.to_display_string(), "✗ https://example.org/ (404)");
    let r = response("https://example.org", Status::Excluded);
    assert_eq!(r.to_display_string(), "? https://example.org/");
    let r = response("https://example.org", Status::Timeout(Some(504)));
    assert_eq!(r.to_display_string(), "⧖ https://example.org/ [504]");
}

#[test]
fn stats_summary_lines() {
    let mut stats = ResponseStats::new();
    stats.add(response("https://example.org/a", Status::Success(200)));
    stats.add(response("https://example.org/b", Status::Error(String::new(), Some(404))));
    stats.add(response("https://example.org/c", Status::Error("dns".to_string(), None)));
    stats.add(response("https://example.org/d", Status::Excluded));
    assert_eq!(
        stats.summary_string(),
        "📝 Summary\n-------------------\n🔍 Total: 4\n✅ Successful: 1\n⏳ Timeout: 0\n\
         🔀 Redirected: 0\n👻 Excluded: 1\n🚫 Errors: 2\n"
    );
}
