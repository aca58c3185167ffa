use lychee::client::{
    CheckAction, Client, ClientBuilder, MailOutcome, ProbeOutcome, ProviderOutcome,
};
use lychee::pattern::PatternSet;
use lychee::quirks::Method;
use lychee::status::Status;
use lychee::types::{Input, Request};
use lychee::uri::Uri;

fn request(s: &str) -> Request {
    Request::from_str(s).expect("expected a valid URI")
}

fn default_client() -> Client {
    ClientBuilder::default().build().expect("expected the default client to build")
}

#[test]
fn builder_defaults() {
    let client = default_client();
    assert_eq!(client.method, Method::Get);
    assert_eq!(client.max_redirects, 5);
    assert_eq!(client.user_agent, "lychee/0.4.0");
    assert!(client.accepted.is_none());
    assert!(client.github_token.is_none());
    assert!(!client.allow_insecure);
    assert!(client.timeout_ms.is_none());
    let names: Vec<&str> = client.default_headers.iter().map(|h| h.name.as_str()).collect();
    assert_eq!(names, vec!["User-Agent", "Transfer-Encoding"]);
    assert_eq!(client.default_headers[0].value, "lychee/0.4.0");
    assert_eq!(client.default_headers[1].value, "chunked");
}

#[test]
fn builder_merges_custom_headers() {
    let mut b = ClientBuilder::default();
    b.custom_headers.push(lychee::quirks::Header {
        name: "Accept".to_string(),
        value: "text/html".to_string(),
    });
    b.custom_headers.push(lychee::quirks::Header {
        name: "user-agent".to_string(),
        value: "curl/7".to_string(),
    });
    b.user_agent = Some("tester/1.0".to_string());
    let client = b.build().unwrap();
    let names: Vec<&str> = client.default_headers.iter().map(|h| h.name.as_str()).collect();
    assert_eq!(names, vec!["Accept", "User-Agent", "Transfer-Encoding"]);
    assert_eq!(client.default_headers[1].value, "tester/1.0");
}

#[test]
fn builder_rejects_invalid_headers() {
    let mut b = ClientBuilder::default();
    b.user_agent = Some("bad\nagent".to_string());
    assert!(matches!(b.build(), Err(lychee::error::ErrorKind::InvalidHeader(_))));

    let mut b = ClientBuilder::default();
    b.custom_headers.push(lychee::quirks::Header {
        name: "no spaces allowed".to_string(),
        value: "x".to_string(),
    });
    assert!(matches!(b.build(), Err(lychee::error::ErrorKind::InvalidHeader(_))));
}

#[test]
fn builder_empty_token_disables_provider() {
    let mut b = ClientBuilder::default();
    b.github_token = Some(String::new());
    assert!(b.build().unwrap().github_token.is_none());
    let mut b = ClientBuilder::default();
    b.github_token = Some("SECRET-REDACTED".to_string());
    assert!(b.build().unwrap().github_token.is_some());
}

#[test]
fn builder_exclude_all_private_enables_all_three() {
    let mut b = ClientBuilder::default();
    b.exclude_all_private = true;
    let client = b.build().unwrap();
    assert!(client.filter.exclude_private_ips);
    assert!(client.filter.exclude_link_local_ips);
    assert!(client.filter.exclude_loopback_ips);
}

#[test]
fn excluded_uri_is_answered_without_probing() {
    let mut b = ClientBuilder::default();
    b.excludes = Some(PatternSet::new(vec!["example\\.org".to_string()]).unwrap());
    let client = b.build().unwrap();
    let (_, action) = client.start_check(request("https://example.org/about"));
    match action {
        CheckAction::Finish(resp) => {
            assert!(resp.status().is_excluded());
            assert_eq!(resp.uri.as_str(), "https://example.org/about");
            assert!(matches!(resp.source, Input::Literal(_)));
        },
        _ => panic!("an excluded URI must be answered without any probe"),
    }
}

#[test]
fn mail_uri_goes_to_the_mail_prober() {
    let client = default_client();
    let (task, action) = client.start_check(request("mailto:steve@apple.com"));
    match action {
        CheckAction::ProbeMail(addr) => assert_eq!(addr, "steve@apple.com"),
        _ => panic!("a mailto URI must go to the mail prober"),
    }
    match client.on_mail_result(&task, MailOutcome::Invalid) {
        CheckAction::Finish(resp) => {
            assert!(resp.status().is_failure());
            assert_eq!(
                resp.status().to_display_string(),
                "Failed: Unreachable mail address: mailto:steve@apple.com"
            );
        },
        _ => panic!("a mail outcome finishes the check"),
    }
    for outcome in [MailOutcome::Reachable, MailOutcome::Risky, MailOutcome::Unknown] {
        match client.on_mail_result(&task, outcome) {
            CheckAction::Finish(resp) => {
                assert!(matches!(resp.status(), Status::Success(200)));
            },
            _ => panic!("a mail outcome finishes the check"),
        }
    }
}

#[test]
fn successful_probe_finishes_at_once() {
    let client = default_client();
    let (mut task, action) = client.start_check(request("https://example.org"));
    assert!(matches!(action, CheckAction::Probe(_)));
    match client.on_probe_result(&mut task, ProbeOutcome::Response(200)) {
        CheckAction::Finish(resp) => {
            assert!(resp.status().is_success());
            assert_eq!(resp.uri.as_str(), "https://example.org/");
        },
        _ => panic!("a successful probe finishes the check"),
    }
    assert_eq!(task.waited, 0);
}

#[test]
fn failed_probes_back_off_one_two_four() {
    let client = default_client();
    let (mut task, action) = client.start_check(request("http://127.0.0.1/invalid"));
    assert!(matches!(action, CheckAction::Probe(_)));

    let outcome = || ProbeOutcome::Failed("connection refused".to_string(), None);
    let mut waits = Vec::new();
    for _ in 0..3 {
        match client.on_probe_result(&mut task, outcome()) {
            CheckAction::WaitAndProbe(wait, _) => waits.push(wait),
            _ => panic!("a failed probe is retried three times"),
        }
    }
    assert_eq!(waits, vec![1, 2, 4]);
    assert_eq!(task.waited, 7);

    match client.on_probe_result(&mut task, outcome()) {
        CheckAction::Finish(resp) => {
            assert!(resp.status().is_failure());
            assert_eq!(resp.uri.as_str(), "http://127.0.0.1/invalid");
        },
        _ => panic!("exhausted retries finish the check"),
    }
    assert_eq!(task.waited, 7);
}

#[test]
fn persistent_404_keeps_its_code() {
    let client = default_client();
    let (mut task, _) = client.start_check(request("https://example.org/missing"));
    for _ in 0..3 {
        assert!(matches!(
            client.on_probe_result(&mut task, ProbeOutcome::Response(404)),
            CheckAction::WaitAndProbe(_, _)
        ));
    }
    match client.on_probe_result(&mut task, ProbeOutcome::Response(404)) {
        CheckAction::Finish(resp) => {
            assert!(matches!(resp.status(), Status::Error(_, Some(404))));
        },
        _ => panic!("exhausted retries finish the check"),
    }
}

#[test]
fn accepted_codes_count_as_success() {
    let mut b = ClientBuilder::default();
    b.accepted = Some(vec![404]);
    let client = b.build().unwrap();
    let (mut task, _) = client.start_check(request("https://example.org/missing"));
    match client.on_probe_result(&mut task, ProbeOutcome::Response(404)) {
        CheckAction::Finish(resp) => assert!(matches!(resp.status(), Status::Success(404))),
        _ => panic!("an accepted code finishes the check"),
    }
}

#[test]
fn timeout_is_reported_after_retries() {
    let client = default_client();
    let (mut task, _) = client.start_check(request("https://example.org"));
    for _ in 0..3 {
        assert!(matches!(
            client.on_probe_result(&mut task, ProbeOutcome::TimedOut(None)),
            CheckAction::WaitAndProbe(_, _)
        ));
    }
    match client.on_probe_result(&mut task, ProbeOutcome::TimedOut(None)) {
        CheckAction::Finish(resp) => {
            assert!(resp.status().is_timeout());
            assert_eq!(resp.status().to_display_string(), "Timeout");
        },
        _ => panic!("exhausted retries finish the check"),
    }
}

#[test]
fn github_fallback_without_token_fails() {
    let client = default_client();
    let (mut task, _) = client.start_check(request("https://github.com/lycheeverse/not-lychee"));
    for _ in 0..3 {
        client.on_probe_result(&mut task, ProbeOutcome::Response(404));
    }
    match client.on_probe_result(&mut task, ProbeOutcome::Response(404)) {
        CheckAction::Finish(resp) => {
            assert!(resp.status().is_failure());
            assert_eq!(
                resp.status().to_display_string(),
                "Failed: Provider token not specified. To check provider links reliably, \
                 configure a token."
            );
        },
        _ => panic!("a provider URL without a token fails at once"),
    }
}

#[test]
fn github_fallback_with_token_asks_the_provider() {
    let mut b = ClientBuilder::default();
    b.github_token = Some("SECRET-REDACTED".to_string());
    let client = b.build().unwrap();
    let (mut task, _) = client.start_check(request("https://github.com/lycheeverse/lychee"));
    for _ in 0..3 {
        client.on_probe_result(&mut task, ProbeOutcome::Response(403));
    }
    match client.on_probe_result(&mut task, ProbeOutcome::Response(403)) {
        CheckAction::ProviderLookup(owner, repo) => {
            assert_eq!(owner, "lycheeverse");
            assert_eq!(repo, "lychee");
        },
        _ => panic!("a provider URL with a token goes to the provider API"),
    }
    match client.on_provider_result(&task, ProviderOutcome::Found) {
        CheckAction::Finish(resp) => assert!(resp.status().is_success()),
        _ => panic!("a provider outcome finishes the check"),
    }
    match client.on_provider_result(&task, ProviderOutcome::Failed("rate limited".to_string())) {
        CheckAction::Finish(resp) => {
            assert_eq!(resp.status().to_display_string(), "Failed: rate limited");
        },
        _ => panic!("a provider outcome finishes the check"),
    }
}

#[test]
fn successful_late_probe_skips_the_provider() {
    let mut b = ClientBuilder::default();
    b.github_token = Some("SECRET-REDACTED".to_string());
    let client = b.build().unwrap();
    let (mut task, _) = client.start_check(request("https://github.com/lycheeverse/lychee"));
    client.on_probe_result(&mut task, ProbeOutcome::Response(500));
    match client.on_probe_result(&mut task, ProbeOutcome::Response(200)) {
        CheckAction::Finish(resp) => assert!(resp.status().is_success()),
        _ => panic!("a late success still finishes the check directly"),
    }
}

#[test]
fn youtube_quirk_probes_the_canonical_watch_form() {
    let client = default_client();
    let (_, action) = client.start_check(request(
        "https://www.youtube.com/watch?v=NlKuICiT470&list=PLbWDhxwM_45mPVToqaIZNbZeIzFchsKKQ&index=7",
    ));
    match action {
        CheckAction::Probe(plan) => {
            assert_eq!(plan.url, "https://www.youtube.com/watch?v=NlKuICiT470");
            assert_eq!(plan.host, "www.youtube.com");
            assert!(plan.headers.is_empty());
        },
        _ => panic!("a web URI is probed"),
    }
}

#[test]
fn youtube_quirk_leaves_other_paths_alone() {
    let client = default_client();
    let (_, action) = client.start_check(request("https://www.youtube.com/feed/library"));
    match action {
        CheckAction::Probe(plan) => {
            assert_eq!(plan.url, "https://www.youtube.com/feed/library");
        },
        _ => panic!("a web URI is probed"),
    }
}

#[test]
fn crates_quirk_asks_for_html() {
    let client = default_client();
    let (_, action) = client.start_check(request("https://crates.io/crates/lychee"));
    match action {
        CheckAction::Probe(plan) => {
            assert_eq!(plan.url, "https://crates.io/crates/lychee");
            assert_eq!(plan.headers.len(), 1);
            assert_eq!(plan.headers[0].name, "Accept");
            assert_eq!(plan.headers[0].value, "text/html");
        },
        _ => panic!("a web URI is probed"),
    }
}

#[test]
fn response_carries_the_request_identity() {
    let client = default_client();
    let uri = Uri::parse("https://example.org").unwrap();
    let req = Request::new(uri, Input::Stdin, 2);
    let (mut task, _) = client.start_check(req);
    match client.on_probe_result(&mut task, ProbeOutcome::Response(200)) {
        CheckAction::Finish(resp) => {
            assert_eq!(resp.uri.as_str(), "https://example.org/");
            assert!(matches!(resp.source, Input::Stdin));
            assert_eq!(resp.recursion_level, 2);
        },
        _ => panic!("a successful probe finishes the check"),
    }
}

#[test]
fn method_names_parse_case_insensitively() {
    assert_eq!(Method::parse_name("get"), Some(Method::Get));
    assert_eq!(Method::parse_name("GET"), Some(Method::Get));
    assert_eq!(Method::parse_name("Head"), Some(Method::Head));
    assert_eq!(Method::parse_name("put"), None);
    assert_eq!(Method::parse_name(""), None);
}

#[test]
fn builder_carries_transport_options() {
    let mut b = ClientBuilder::default();
    b.allow_insecure = true;
    b.timeout_ms = Some(10);
    b.method = Some(Method::Head);
    b.max_redirects = Some(2);
    let client = b.build().unwrap();
    assert!(client.allow_insecure);
    assert_eq!(client.timeout_ms, Some(10));
    assert_eq!(client.method, Method::Head);
    assert_eq!(client.max_redirects, 2);
}

#[test]
fn youtube_quirk_keeps_the_explicit_port() {
    let client = default_client();
    let (_, action) = client.start_check(request(
        "https://www.youtube.com:8443/watch?v=NlKuICiT470&index=7&vq=hd",
    ));
    match action {
        CheckAction::Probe(plan) => {
            assert_eq!(plan.url, "https://www.youtube.com:8443/watch?v=NlKuICiT470");
            assert_eq!(plan.port, Some(8443));
        },
        _ => panic!("a web URI is probed"),
    }
}
