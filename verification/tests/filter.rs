use lychee::filter::Filter;
use lychee::pattern::PatternSet;
use lychee::uri::Uri;

fn uri(s: &str) -> Uri {
    Uri::parse(s).expect("expected a valid URI")
}

fn open_filter() -> Filter {
    Filter {
        includes: None,
        excludes: None,
        exclude_private_ips: false,
        exclude_link_local_ips: false,
        exclude_loopback_ips: false,
        exclude_mail: false,
        scheme: None,
    }
}

#[test]
fn filter_open_excludes_nothing() {
    let f = open_filter();
    assert!(!f.is_excluded(&uri("https://example.org")));
    assert!(!f.is_excluded(&uri("http://127.0.0.1")));
    assert!(!f.is_excluded(&uri("mailto:steve@apple.com")));
}

#[test]
fn filter_scheme_rule_is_case_insensitive() {
    let mut f = open_filter();
    f.scheme = Some("https".to_string());
    assert!(f.is_excluded(&uri("http://example.org")));
    assert!(!f.is_excluded(&uri("https://example.org")));
    f.scheme = Some("HTTPS".to_string());
    assert!(!f.is_excluded(&uri("https://example.org")));
}

#[test]
fn filter_mail_rule() {
    let mut f = open_filter();
    f.exclude_mail = true;
    assert!(f.is_excluded(&uri("mailto:steve@apple.com")));
    assert!(f.is_excluded(&uri("steve@apple.com")));
    assert!(!f.is_excluded(&uri("https://example.org")));
}

#[test]
fn filter_exclude_patterns() {
    let mut f = open_filter();
    f.excludes = Some(PatternSet::new(vec!["github\\.com".to_string()]).unwrap());
    assert!(f.is_excluded(&uri("https://github.com/lycheeverse/lychee")));
    assert!(!f.is_excluded(&uri("https://example.org")));
}

#[test]
fn filter_include_patterns_keep_only_matches() {
    let mut f = open_filter();
    f.includes = Some(PatternSet::new(vec!["example\\.org".to_string()]).unwrap());
    assert!(!f.is_excluded(&uri("https://example.org/about")));
    assert!(f.is_excluded(&uri("https://github.com/lycheeverse/lychee")));
}

#[test]
fn filter_bad_pattern_is_rejected() {
    assert!(PatternSet::new(vec!["(unclosed".to_string()]).is_err());
}

#[test]
fn filter_ip_classes_v4() {
    let mut f = open_filter();
    f.exclude_private_ips = true;
    f.exclude_link_local_ips = true;
    f.exclude_loopback_ips = true;
    assert!(f.is_excluded(&uri("http://10.0.0.1")));
    assert!(f.is_excluded(&uri("http://172.16.0.3")));
    assert!(f.is_excluded(&uri("http://192.168.1.1")));
    assert!(f.is_excluded(&uri("http://169.254.10.10")));
    assert!(f.is_excluded(&uri("http://127.0.0.1/invalid")));
    assert!(!f.is_excluded(&uri("http://172.32.0.1")));
    assert!(!f.is_excluded(&uri("http://8.8.8.8")));
    assert!(!f.is_excluded(&uri("http://example.org")));
}

#[test]
fn filter_ip_classes_v6() {
    let mut f = open_filter();
    f.exclude_private_ips = true;
    f.exclude_link_local_ips = true;
    f.exclude_loopback_ips = true;
    assert!(f.is_excluded(&uri("http://[fc00::1]")));
    assert!(f.is_excluded(&uri("http://[fd00::1]")));
    assert!(f.is_excluded(&uri("http://[fe80::1]")));
    assert!(f.is_excluded(&uri("http://[::1]")));
    assert!(!f.is_excluded(&uri("http://[2020::10]")));
}

#[test]
fn filter_toggles_are_independent() {
    let mut f = open_filter();
    f.exclude_loopback_ips = true;
    assert!(f.is_excluded(&uri("http://127.0.0.1")));
    assert!(!f.is_excluded(&uri("http://192.168.1.1")));
}

#[test]
fn filter_decision_is_deterministic() {
    let mut f = open_filter();
    f.exclude_mail = true;
    f.scheme = Some("https".to_string());
    let u = uri("https://example.org");
    let first = f.is_excluded(&u);
    let second = f.is_excluded(&u);
    assert_eq!(first, second);
    let m = uri("mailto:steve@apple.com");
    assert_eq!(f.is_excluded(&m), f.is_excluded(&m));
}
