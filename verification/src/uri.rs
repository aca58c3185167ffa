//! The URI model: a typed URI is either a web URI or a mail address.
//!
//! Parsing is delegated to the `url` crate behind trusted wrappers; everything
//! the checker's logic reads (scheme, host, IP literal, path, query) is kept
//! as plain values, so the filter and the provider recognition are verified
//! against them.

use vstd::prelude::*;

use crate::error::ErrorKind;
use crate::strutil::{find_char_from, find_from, str_eq};

verus! {

/// A host given as an IP literal.
#[derive(Debug, Clone, Copy, PartialEq, Eq, Structural)]
pub enum HostIp {
    /// An IPv4 address, one field per octet.
    V4(u8, u8, u8, u8),
    /// An IPv6 address, one field per 16-bit group.
    V6(u16, u16, u16, u16, u16, u16, u16, u16),
}

/// Whether `url::Url::parse` accepts `s`.
pub uninterp spec fn url_ok(s: Seq<char>) -> bool;

/// The normalized text of the URL parsed from `s`.
pub uninterp spec fn url_text(s: Seq<char>) -> Seq<char>;

/// The (lower-cased) scheme of the URL parsed from `s`.
pub uninterp spec fn url_scheme(s: Seq<char>) -> Seq<char>;

/// The host of the URL parsed from `s`, if it has one.
pub uninterp spec fn url_host(s: Seq<char>) -> Option<Seq<char>>;

/// The explicit port of the URL parsed from `s`, if it has one.
pub uninterp spec fn url_port(s: Seq<char>) -> Option<u16>;

/// The path of the URL parsed from `s` (for a `mailto:` URL, the address).
pub uninterp spec fn url_path(s: Seq<char>) -> Seq<char>;

/// The query of the URL parsed from `s`, without the leading `?`, if any.
pub uninterp spec fn url_query(s: Seq<char>) -> Option<Seq<char>>;

/// The host of the URL parsed from `s` as an IP literal, when it is one.
pub uninterp spec fn url_host_ip(s: Seq<char>) -> Option<HostIp>;

/// Whether `fast_chemail::parse_email` accepts `s` as a mail address.
pub uninterp spec fn email_valid(s: Seq<char>) -> bool;

#[verifier::external_type_specification]
#[verifier::external_body]
pub struct ExUrl(url::Url);

/// A parsed URL together with the text it was parsed from, which the
/// accessor contracts below speak of.
pub struct ParsedUrl {
    url: url::Url,
    src: String,
}

/// Relies on `url::Url::parse`: returns the parsed URL on exactly the inputs
/// the parser accepts, and the parse error rendered as text otherwise.
#[verifier::external_body]
fn url_parse(s: &str) -> (r: Result<ParsedUrl, String>)
    ensures
        r is Ok <==> url_ok(s@),
        r matches Ok(p) ==> p.src@ == s@,
{
    match url::Url::parse(s) {
        Ok(url) => Ok(ParsedUrl { url, src: s.to_owned() }),
        Err(e) => Err(format!("{}", e)),
    }
}

impl ParsedUrl {
    /// Relies on `url::Url::as_str`: the serialization of the parsed URL.
    #[verifier::external_body]
    fn text(&self) -> (r: String)
        ensures
            r@ == url_text(self.src@),
    {
        self.url.as_str().to_owned()
    }

    /// Relies on `url::Url::scheme`: the scheme, lower-cased and ASCII.
    #[verifier::external_body]
    fn scheme(&self) -> (r: String)
        ensures
            r@ == url_scheme(self.src@),
    {
        self.url.scheme().to_owned()
    }

    /// Relies on `url::Url::host_str`: the host, present exactly when the
    /// URL has an authority.
    #[verifier::external_body]
    fn host(&self) -> (r: Option<String>)
        ensures
            opt_str_view(r) == url_host(self.src@),
    {
        self.url.host_str().map(|h| h.to_owned())
    }

    /// Relies on `url::Url::port`: the explicit port, if the URL has one.
    #[verifier::external_body]
    fn port(&self) -> (r: Option<u16>)
        ensures
            r == url_port(self.src@),
    {
        self.url.port()
    }

    /// Relies on `url::Url::path`: the path of the URL (for a `mailto:` URL,
    /// the address part).
    #[verifier::external_body]
    fn path(&self) -> (r: String)
        ensures
            r@ == url_path(self.src@),
    {
        self.url.path().to_owned()
    }

    /// Relies on `url::Url::query`: the query string, without the `?`.
    #[verifier::external_body]
    fn query(&self) -> (r: Option<String>)
        ensures
            opt_str_view(r) == url_query(self.src@),
    {
        self.url.query().map(|q| q.to_owned())
    }

    /// Relies on `url::Url::host`: the host as an IP literal when it is one
    /// (`Host::Ipv4` or `Host::Ipv6`), `None` for domains and hostless URLs.
    #[verifier::external_body]
    fn host_ip(&self) -> (r: Option<HostIp>)
        ensures
            r == url_host_ip(self.src@),
    {
        match self.url.host() {
            Some(url::Host::Ipv4(a)) => {
                let o = a.octets();
                Some(HostIp::V4(o[0], o[1], o[2], o[3]))
            },
            Some(url::Host::Ipv6(a)) => {
                let g = a.segments();
                Some(HostIp::V6(g[0], g[1], g[2], g[3], g[4], g[5], g[6], g[7]))
            },
            _ => None,
        }
    }
}

/// Relies on `fast_chemail::parse_email`: accepts exactly the syntactically
/// valid mail addresses; the error is rendered as text.
#[verifier::external_body]
fn email_parse(s: &str) -> (r: Result<(), String>)
    ensures
        r is Ok <==> email_valid(s@),
{
    match fast_chemail::parse_email(s) {
        Ok(()) => Ok(()),
        Err(e) => Err(format!("{}", e)),
    }
}

/// The view of an optional string.
pub open spec fn opt_str_view(o: Option<String>) -> Option<Seq<char>> {
    match o {
        Some(s) => Some(s@),
        None => None,
    }
}

/// A web URI: an absolute URL. The parts the checker reads are stored as
/// plain values, normalized by the parser.
#[derive(Debug, Clone)]
pub struct WebUri {
    /// The normalized serialization of the URL.
    pub text: String,
    /// The scheme, lower-cased.
    pub scheme: String,
    /// The host.
    pub host: String,
    /// The explicit port, if any.
    pub port: Option<u16>,
    /// The path (empty or starting with `/`).
    pub path: String,
    /// The raw query string, without the leading `?`, if any.
    pub query: Option<String>,
    /// The host as an IP literal, when it is one.
    pub ip: Option<HostIp>,
}

/// A mail URI: a syntactically valid address.
#[derive(Debug, Clone)]
pub struct MailUri {
    /// The form the URI was given in (`mailto:...`, or the bare address).
    pub text: String,
    /// The address proper.
    pub addr: String,
}

impl WebUri {
    /// An equal web URI, field by field.
    pub fn duplicate(&self) -> (r: WebUri)
        ensures
            r == *self,
    {
        WebUri {
            text: self.text.clone(),
            scheme: self.scheme.clone(),
            host: self.host.clone(),
            port: self.port,
            path: self.path.clone(),
            query: match self.query.as_ref() {
                Some(q) => Some(q.clone()),
                None => None,
            },
            ip: self.ip,
        }
    }
}

impl MailUri {
    /// An equal mail URI, field by field.
    pub fn duplicate(&self) -> (r: MailUri)
        ensures
            r == *self,
    {
        MailUri { text: self.text.clone(), addr: self.addr.clone() }
    }
}

/// A typed URI: either a web URI or a mail address.
#[derive(Debug, Clone)]
pub enum Uri {
    /// An absolute URL with a host.
    Web(WebUri),
    /// A mail address.
    Mail(MailUri),
}

impl Uri {
    /// Every URI holds its invariants: a web URI has a host, and a mail URI
    /// is a syntactically valid address.
    pub open spec fn wf(&self) -> bool {
        match self {
            Uri::Web(w) => w.host@.len() > 0,
            Uri::Mail(m) => email_valid(m.addr@),
        }
    }

    /// The normalized string form of the URI.
    pub fn as_str(&self) -> (r: &str)
        ensures
            r@ == self.text_view(),
    {
        match self {
            Uri::Web(w) => w.text.as_str(),
            Uri::Mail(m) => m.text.as_str(),
        }
    }

    /// The normalized string form, as a ghost sequence.
    pub open spec fn text_view(&self) -> Seq<char> {
        match self {
            Uri::Web(w) => w.text@,
            Uri::Mail(m) => m.text@,
        }
    }

    /// The scheme of the URI: a mail address's scheme is `mailto`.
    pub fn scheme(&self) -> (r: &str)
        ensures
            r@ == self.scheme_view(),
    {
        match self {
            Uri::Web(w) => w.scheme.as_str(),
            Uri::Mail(_) => "mailto",
        }
    }

    /// The scheme, as a ghost sequence.
    pub open spec fn scheme_view(&self) -> Seq<char> {
        match self {
            Uri::Web(w) => w.scheme@,
            Uri::Mail(_) => "mailto"@,
        }
    }

    /// Whether this is a mail URI.
    pub fn is_mail(&self) -> (r: bool)
        ensures
            r == (self is Mail),
    {
        match self {
            Uri::Web(_) => false,
            Uri::Mail(_) => true,
        }
    }

    /// The host as an IP literal, when the URI is a web URI whose host is
    /// one; mail URIs have no host.
    pub fn host_ip(&self) -> (r: Option<HostIp>)
        ensures
            r == self.host_ip_view(),
    {
        match self {
            Uri::Web(w) => w.ip,
            Uri::Mail(_) => None,
        }
    }

    /// The host IP, as a ghost value.
    pub open spec fn host_ip_view(&self) -> Option<HostIp> {
        match self {
            Uri::Web(w) => w.ip,
            Uri::Mail(_) => None,
        }
    }

    /// An equal URI, field by field.
    pub fn duplicate(&self) -> (r: Uri)
        ensures
            r == *self,
    {
        match self {
            Uri::Web(w) => Uri::Web(w.duplicate()),
            Uri::Mail(m) => Uri::Mail(m.duplicate()),
        }
    }

    /// The repository recognized in this URI, as a ghost value.
    pub open spec fn github_repo_view(&self) -> Option<(Seq<char>, Seq<char>)> {
        match self {
            Uri::Web(w) => github_repo(w.host@, w.path@),
            Uri::Mail(_) => None,
        }
    }

    /// The `(owner, repo)` pair when this URI points at a repository on the
    /// known source-hosting provider in its canonical two-segment form.
    pub fn extract_github(&self) -> (r: Option<(String, String)>)
        ensures
            opt_pair_view(r) == self.github_repo_view(),
    {
        let w = match self {
            Uri::Web(w) => w,
            Uri::Mail(_) => { return None; },
        };
        if !str_eq(w.host.as_str(), "github.com") {
            return None;
        }
        let path = w.path.as_str();
        let n = path.unicode_len();
        if n == 0 || path.get_char(0) != '/' {
            return None;
        }
        let j = find_char_from(path, '/', 1);
        if !(1 < j && j < n) {
            return None;
        }
        let k = find_char_from(path, '/', j + 1);
        if k != n || j + 1 == n {
            return None;
        }
        let owner = path.substring_char(1, j).to_owned();
        let repo = path.substring_char(j + 1, n).to_owned();
        Some((owner, repo))
    }
}

/// The `(owner, repo)` pair of a canonical repository URL on the known
/// source-hosting provider: the host is `github.com` and the path consists of
/// exactly two nonempty segments.
pub open spec fn github_repo(host: Seq<char>, path: Seq<char>) -> Option<(Seq<char>, Seq<char>)> {
    if host == "github.com"@ && path.len() >= 1 && path[0] == '/' {
        let j = find_from(path, '/', 1);
        if 1 < j && j + 1 < path.len() && find_from(path, '/', j + 1) == path.len() {
            Some((path.subrange(1, j), path.subrange(j + 1, path.len() as int)))
        } else {
            None
        }
    } else {
        None
    }
}

/// The views of an optional pair of strings.
pub open spec fn opt_pair_view(o: Option<(String, String)>) -> Option<(Seq<char>, Seq<char>)> {
    match o {
        Some((a, b)) => Some((a@, b@)),
        None => None,
    }
}

/// Whether a string can be interpreted as a URI at all:
/// the URL parser's verdict decides first, then the mail parser's.
/// A URL whose scheme is `mailto` must carry a valid address; any other URL
/// must have a host.
pub open spec fn parseable(s: Seq<char>) -> bool {
    if url_ok(s) {
        if url_scheme(s) == "mailto"@ {
            email_valid(url_path(s))
        } else {
            url_host(s) matches Some(h) && h.len() > 0
        }
    } else {
        email_valid(s)
    }
}

/// What the URI parsed from `s` holds, field by field.
pub open spec fn parses_to(s: Seq<char>, u: Uri) -> bool {
    if url_ok(s) {
        if url_scheme(s) == "mailto"@ {
            &&& u matches Uri::Mail(m)
            &&& m.text@ == url_text(s)
            &&& m.addr@ == url_path(s)
        } else {
            &&& u matches Uri::Web(w)
            &&& w.text@ == url_text(s)
            &&& w.scheme@ == url_scheme(s)
            &&& Some(w.host@) == url_host(s)
            &&& w.port == url_port(s)
            &&& w.path@ == url_path(s)
            &&& opt_str_view(w.query) == url_query(s)
            &&& w.ip == url_host_ip(s)
        }
    } else {
        &&& u matches Uri::Mail(m)
        &&& m.text@ == s
        &&& m.addr@ == s
    }
}

impl Uri {
    /// Parse a string into a URI: everything the URL parser accepts is a web
    /// URI (or, for the `mailto` scheme, a mail URI); what it rejects is a
    /// mail URI when it is a valid address, and an error otherwise.
    pub fn parse(s: &str) -> (r: Result<Uri, ErrorKind>)
        ensures
            r is Ok <==> parseable(s@),
            r matches Ok(u) ==> u.wf() && parses_to(s@, u),
            r matches Err(e) ==> (e matches ErrorKind::UrlParse(input, _, _) && input@ == s@),
    {
        match url_parse(s) {
            Ok(p) => {
                let scheme = p.scheme();
                if str_eq(scheme.as_str(), "mailto") {
                    let addr = p.path();
                    match email_parse(addr.as_str()) {
                        Ok(()) => Ok(Uri::Mail(MailUri { text: p.text(), addr })),
                        Err(mail_err) => Err(
                            ErrorKind::UrlParse(s.to_owned(), String::new(), Some(mail_err)),
                        ),
                    }
                } else {
                    match p.host() {
                        Some(host) => {
                            if host.as_str().is_empty() {
                                Err(
                                    ErrorKind::UrlParse(
                                        s.to_owned(),
                                        "URL lacks a host".to_owned(),
                                        None,
                                    ),
                                )
                            } else {
                                Ok(
                                    Uri::Web(
                                        WebUri {
                                            text: p.text(),
                                            scheme,
                                            host,
                                            port: p.port(),
                                            path: p.path(),
                                            query: p.query(),
                                            ip: p.host_ip(),
                                        },
                                    ),
                                )
                            }
                        },
                        None => Err(
                            ErrorKind::UrlParse(s.to_owned(), "URL lacks a host".to_owned(), None),
                        ),
                    }
                }
            },
            Err(url_err) => {
                match email_parse(s) {
                    Ok(()) => Ok(Uri::Mail(MailUri { text: s.to_owned(), addr: s.to_owned() })),
                    Err(mail_err) => Err(
                        ErrorKind::UrlParse(s.to_owned(), url_err, Some(mail_err)),
                    ),
                }
            },
        }
    }
}

} // verus!
