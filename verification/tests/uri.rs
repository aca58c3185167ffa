use lychee::uri::{HostIp, Uri};

fn website(s: &str) -> Uri {
    Uri::parse(s).expect("expected a valid URI")
}

#[test]
fn test_uri_host_ip_v4() {
    let uri = website("http://127.0.0.1");
    let ip = uri.host_ip().expect("Expected a valid IPv4");
    assert_eq!(ip, HostIp::V4(127, 0, 0, 1));
}

#[test]
fn test_uri_host_ip_v6() {
    let uri = website("https://[2020::0010]");
    let ip = uri.host_ip().expect("Expected a valid IPv6");
    assert_eq!(ip, HostIp::V6(0x2020, 0, 0, 0, 0, 0, 0, 0x10));
}

#[test]
fn test_uri_host_ip_no_ip() {
    let uri = website("https://some.cryptic/url");
    let ip = uri.host_ip();
    assert!(ip.is_none());
}

#[test]
fn uri_normalizes_and_keeps_scheme() {
    let uri = website("https://GitHub.com/lycheeverse/lychee");
    assert_eq!(uri.as_str(), "https://github.com/lycheeverse/lychee");
    assert_eq!(uri.scheme(), "https");
    assert!(!uri.is_mail());
}

#[test]
fn uri_mailto_is_mail() {
    let uri = website("mailto:steve@apple.com");
    assert!(uri.is_mail());
    assert_eq!(uri.scheme(), "mailto");
    assert!(uri.host_ip().is_none());
}

#[test]
fn uri_bare_address_is_mail() {
    let uri = website("steve@apple.com");
    assert!(uri.is_mail());
    assert_eq!(uri.as_str(), "steve@apple.com");
    assert_eq!(uri.scheme(), "mailto");
}

#[test]
fn uri_garbage_is_an_error() {
    let r = Uri::parse("not a uri at all");
    assert!(r.is_err());
    let r = Uri::parse("mailto:not-an-address");
    assert!(r.is_err());
}

#[test]
fn extract_github_canonical() {
    let uri = website("https://github.com/lycheeverse/lychee");
    let (owner, repo) = uri.extract_github().expect("expected a repository");
    assert_eq!(owner, "lycheeverse");
    assert_eq!(repo, "lychee");
}

#[test]
fn extract_github_rejects_other_shapes() {
    assert!(website("https://github.com/lycheeverse").extract_github().is_none());
    assert!(website("https://github.com/lycheeverse/lychee/issues").extract_github().is_none());
    assert!(website("https://github.com/lycheeverse/").extract_github().is_none());
    assert!(website("https://gitlab.com/owner/repo").extract_github().is_none());
    assert!(website("https://github.com/").extract_github().is_none());
    assert!(website("mailto:steve@apple.com").extract_github().is_none());
}
