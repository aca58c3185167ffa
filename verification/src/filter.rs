//! The include/exclude filter: a pure predicate over a URI and the filter's
//! configuration. No name resolution is performed; only literal IP hosts are
//! classified.

use vstd::prelude::*;

use crate::ip::{is_link_local, is_loopback, is_private, spec_is_link_local, spec_is_loopback,
    spec_is_private};
use crate::pattern::{regex_set_matches, PatternSet};
use crate::strutil::{eq_ignore_ascii_case, eq_ignore_ascii_case_seq};
use crate::uri::Uri;

verus! {

/// Which URIs are in scope for checking. All fields are immutable after
/// construction.
pub struct Filter {
    /// When present, a URI must match at least one of these patterns.
    pub includes: Option<PatternSet>,
    /// When present, a URI matching any of these patterns is excluded.
    pub excludes: Option<PatternSet>,
    /// Exclude URIs whose host is a private IP literal.
    pub exclude_private_ips: bool,
    /// Exclude URIs whose host is a link-local IP literal.
    pub exclude_link_local_ips: bool,
    /// Exclude URIs whose host is a loopback IP literal.
    pub exclude_loopback_ips: bool,
    /// Exclude mail addresses.
    pub exclude_mail: bool,
    /// When present, only URIs with this scheme (compared without regard to
    /// ASCII case) are checked.
    pub scheme: Option<String>,
}

/// The filter's configuration, as ghost values.
pub struct FilterConfig {
    pub includes: Option<Seq<Seq<char>>>,
    pub excludes: Option<Seq<Seq<char>>>,
    pub exclude_private_ips: bool,
    pub exclude_link_local_ips: bool,
    pub exclude_loopback_ips: bool,
    pub exclude_mail: bool,
    pub scheme: Option<Seq<char>>,
}

impl View for Filter {
    type V = FilterConfig;

    open spec fn view(&self) -> FilterConfig {
        FilterConfig {
            includes: match self.includes {
                Some(p) => Some(p@),
                None => None,
            },
            excludes: match self.excludes {
                Some(p) => Some(p@),
                None => None,
            },
            exclude_private_ips: self.exclude_private_ips,
            exclude_link_local_ips: self.exclude_link_local_ips,
            exclude_loopback_ips: self.exclude_loopback_ips,
            exclude_mail: self.exclude_mail,
            scheme: match self.scheme {
                Some(s) => Some(s@),
                None => None,
            },
        }
    }
}

/// The exclusion predicate: a URI is excluded exactly when one of the
/// following holds, evaluated in order, first match wins.
///
/// 1. A scheme is configured and the URI's scheme differs (ASCII
///    case-insensitively).
/// 2. The URI is a mail address and mail is excluded.
/// 3. The URI matches one of the exclude patterns.
/// 4. The URI's host is an IP literal in a class whose toggle is set.
/// 5. Include patterns are configured and the URI matches none of them.
pub open spec fn spec_is_excluded(f: FilterConfig, u: Uri) -> bool {
    if f.scheme matches Some(s) && !eq_ignore_ascii_case_seq(s, u.scheme_view()) {
        true
    } else if u is Mail && f.exclude_mail {
        true
    } else if f.excludes matches Some(pats) && regex_set_matches(pats, u.text_view()) {
        true
    } else if u.host_ip_view() matches Some(ip) && ((f.exclude_private_ips && spec_is_private(ip))
        || (f.exclude_link_local_ips && spec_is_link_local(ip)) || (f.exclude_loopback_ips
        && spec_is_loopback(ip))) {
        true
    } else if f.includes matches Some(pats) && !regex_set_matches(pats, u.text_view()) {
        true
    } else {
        false
    }
}

impl Filter {
    /// Decide whether `uri` is excluded from checking. The decision is a pure
    /// function of the URI and the filter's configuration.
    pub fn is_excluded(&self, uri: &Uri) -> (r: bool)
        ensures
            r == spec_is_excluded(self@, *uri),
    {
        if let Some(scheme) = self.scheme.as_ref() {
            if !eq_ignore_ascii_case(scheme.as_str(), uri.scheme()) {
                return true;
            }
        }
        if uri.is_mail() && self.exclude_mail {
            return true;
        }
        if let Some(excludes) = self.excludes.as_ref() {
            if excludes.is_match(uri.as_str()) {
                return true;
            }
        }
        if let Some(ip) = uri.host_ip() {
            if self.exclude_private_ips && is_private(&ip) {
                return true;
            }
            if self.exclude_link_local_ips && is_link_local(&ip) {
                return true;
            }
            if self.exclude_loopback_ips && is_loopback(&ip) {
                return true;
            }
        }
        if let Some(includes) = self.includes.as_ref() {
            if !includes.is_match(uri.as_str()) {
                return true;
            }
        }
        false
    }
}

/// The filter decision depends only on the URI and the filter's
/// configuration: two filters with equal configurations decide equally on
/// equal URIs.
pub proof fn lemma_filter_deterministic(f: &Filter, g: &Filter, u: &Uri, v: &Uri)
    requires
        f@ == g@,
        u == v,
    ensures
        spec_is_excluded(f@, *u) == spec_is_excluded(g@, *v),
{
}

} // verus!
