//! Per-host request rewrites ("quirks"), applied after request construction
//! and before dispatch. The registry is a table of `(host, kind)` entries,
//! tried in declaration order; at most one entry applies per request, and no
//! entry changes the request's authority.

use vstd::prelude::*;

use crate::strutil::{dec_of, eq_ignore_ascii_case, eq_ignore_ascii_case_seq, find_char_from,
    find_from, lemma_find_from_bounds, str_eq, u16_to_dec};
use crate::uri::WebUri;

verus! {

/// The HTTP method a probe uses.
#[derive(Debug, Clone, Copy, PartialEq, Eq, Structural)]
pub enum Method {
    /// `GET`.
    Get,
    /// `HEAD`.
    Head,
}

impl Method {
    /// Read a method from its name, without regard to ASCII case; only `get`
    /// and `head` are known.
    pub fn parse_name(s: &str) -> (r: Option<Method>)
        ensures
            eq_ignore_ascii_case_seq(s@, "get"@) ==> r == Some(Method::Get),
            eq_ignore_ascii_case_seq(s@, "head"@) ==> r == Some(Method::Head),
            !eq_ignore_ascii_case_seq(s@, "get"@) && !eq_ignore_ascii_case_seq(s@, "head"@)
                ==> r is None,
    {
        proof {
            reveal_strlit("get");
            reveal_strlit("head");
        }
        if eq_ignore_ascii_case(s, "get") {
            Some(Method::Get)
        } else if eq_ignore_ascii_case(s, "head") {
            Some(Method::Head)
        } else {
            None
        }
    }
}

/// A request header: a name and a value.
#[derive(Debug, Clone)]
pub struct Header {
    /// The header name.
    pub name: String,
    /// The header value.
    pub value: String,
}

/// One request about to be dispatched: the URL the transport asks for, the
/// authority it came with, and headers added on top of the client's defaults.
#[derive(Debug, Clone)]
pub struct RequestPlan {
    /// The method to use.
    pub method: Method,
    /// The URL the transport requests.
    pub url: String,
    /// The host of the URL, kept beside it so that contracts can state that a
    /// rewrite leaves the authority alone.
    pub host: String,
    /// The explicit port of the URL, if any.
    pub port: Option<u16>,
    /// Headers this request carries on top of the client's defaults.
    pub headers: Vec<Header>,
}

/// The kinds of request mutations the registry knows.
#[derive(Debug, Clone, Copy, PartialEq, Eq, Structural)]
pub enum QuirkKind {
    /// Probe the canonical `watch?v=` form of a video page: playlist
    /// parameters trip the host's anti-bot path.
    CanonicalVideo,
    /// Ask for `text/html`: the host's default answer to an API-style client
    /// is a 404.
    HtmlAccept,
}

/// One registry entry: the host it matches and what it does.
#[derive(Debug, Clone)]
pub struct Quirk {
    /// The host the entry applies to.
    pub host: String,
    /// The mutation to apply.
    pub kind: QuirkKind,
}

/// The quirks registry.
#[derive(Debug, Clone)]
pub struct Quirks {
    /// The entries, tried in order; the first whose host matches applies.
    pub entries: Vec<Quirk>,
}

/// The query with everything but its `v` parameters dropped, scanning the
/// `&`-separated components from position `i` on.
pub open spec fn keep_v_params(q: Seq<char>, i: int) -> Seq<char>
    decreases q.len() - i,
        via keep_v_params_decreases
{
    if i < 0 || i >= q.len() {
        Seq::empty()
    } else {
        let j = find_from(q, '&', i);
        let comp = q.subrange(i, j);
        let rest = if j < q.len() {
            keep_v_params(q, j + 1)
        } else {
            Seq::<char>::empty()
        };
        if comp.len() >= 2 && comp[0] == 'v' && comp[1] == '=' {
            if rest.len() == 0 {
                comp
            } else {
                comp + "&"@ + rest
            }
        } else {
            rest
        }
    }
}

#[via_fn]
proof fn keep_v_params_decreases(q: Seq<char>, i: int) {
    if 0 <= i && i < q.len() {
        lemma_find_from_bounds(q, '&', i);
    }
}

/// `find_from` lands on `p` when nothing in `[i, p)` is `c` and `p` is the
/// end or holds `c`.
proof fn lemma_find_from_exact(s: Seq<char>, c: char, i: int, p: int)
    requires
        0 <= i <= p <= s.len(),
        forall|k: int| i <= k < p ==> s[k] != c,
        p < s.len() ==> s[p] == c,
    ensures
        find_from(s, c, i) == p,
    decreases p - i,
{
    if i < p {
        lemma_find_from_exact(s, c, i + 1, p);
    }
}

/// From position `i`, `s` reads as `v=` components separated by single `&`s.
spec fn is_v_join_from(s: Seq<char>, i: int) -> bool
    decreases s.len() - i,
        via is_v_join_from_decreases
{
    if i < 0 || i >= s.len() {
        false
    } else {
        let j = find_from(s, '&', i);
        let comp = s.subrange(i, j);
        &&& comp.len() >= 2
        &&& comp[0] == 'v'
        &&& comp[1] == '='
        &&& (j < s.len() ==> is_v_join_from(s, j + 1))
    }
}

#[via_fn]
proof fn is_v_join_from_decreases(s: Seq<char>, i: int) {
    if 0 <= i && i < s.len() {
        lemma_find_from_bounds(s, '&', i);
    }
}

/// Reading `s` as a `v=` join from `off` is the same as reading its suffix
/// from the start.
proof fn lemma_v_join_shift(s: Seq<char>, off: int)
    requires
        0 <= off < s.len(),
    ensures
        is_v_join_from(s, off) <==> is_v_join_from(s.subrange(off, s.len() as int), 0),
    decreases s.len() - off,
{
    let a = s.subrange(off, s.len() as int);
    let j = find_from(s, '&', off);
    lemma_find_from_bounds(s, '&', off);
    assert(forall|k: int| 0 <= k < j - off ==> a[k] != '&') by {
        assert(forall|k: int| 0 <= k < j - off ==> a[k] == s[off + k]);
    }
    if j < s.len() {
        assert(a[j - off] == s[j]);
    }
    lemma_find_from_exact(a, '&', 0, j - off);
    assert(s.subrange(off, j) =~= a.subrange(0, j - off));
    if j < s.len() {
        if j + 1 < s.len() {
            lemma_v_join_shift(s, j + 1);
            assert(a.subrange(j - off + 1, a.len() as int) =~= s.subrange(j + 1, s.len() as int));
            lemma_v_join_shift(a, j - off + 1);
            assert(is_v_join_from(s, j + 1) <==> is_v_join_from(a, j - off + 1));
        } else {
            assert(!is_v_join_from(s, j + 1));
            assert(!is_v_join_from(a, j - off + 1));
        }
    }
}

/// What `keep_v_params` returns is empty or itself a `v=` join.
proof fn lemma_keep_v_shape(q: Seq<char>, i: int)
    requires
        0 <= i <= q.len(),
    ensures
        keep_v_params(q, i).len() == 0 || is_v_join_from(keep_v_params(q, i), 0),
    decreases q.len() - i,
{
    if i < q.len() {
        let j = find_from(q, '&', i);
        lemma_find_from_bounds(q, '&', i);
        let comp = q.subrange(i, j);
        let rest = if j < q.len() {
            keep_v_params(q, j + 1)
        } else {
            Seq::<char>::empty()
        };
        if j < q.len() {
            lemma_keep_v_shape(q, j + 1);
        }
        if comp.len() >= 2 && comp[0] == 'v' && comp[1] == '=' {
            reveal_strlit("&");
            let out = keep_v_params(q, i);
            if rest.len() == 0 {
                assert(out == comp);
                lemma_find_from_exact(out, '&', 0, out.len() as int);
                assert(out.subrange(0, out.len() as int) =~= out);
            } else {
                assert(out == comp + "&"@ + rest);
                assert("&"@.len() == 1);
                assert(out[comp.len() as int] == '&');
                assert(forall|k: int| 0 <= k < comp.len() ==> out[k] == comp[k]);
                lemma_find_from_exact(out, '&', 0, comp.len() as int);
                assert(out.subrange(0, comp.len() as int) =~= comp);
                assert(out.subrange(comp.len() as int + 1, out.len() as int) =~= rest);
                lemma_v_join_shift(out, comp.len() as int + 1);
            }
        }
    }
}

/// On a `v=` join, `keep_v_params` keeps everything.
proof fn lemma_keep_v_of_join(s: Seq<char>, i: int)
    requires
        0 <= i < s.len(),
        is_v_join_from(s, i),
    ensures
        keep_v_params(s, i) == s.subrange(i, s.len() as int),
    decreases s.len() - i,
{
    let j = find_from(s, '&', i);
    lemma_find_from_bounds(s, '&', i);
    reveal_strlit("&");
    if j < s.len() {
        assert(j + 1 < s.len()) by {
            if j + 1 >= s.len() {
                assert(!is_v_join_from(s, j + 1));
            }
        }
        lemma_keep_v_of_join(s, j + 1);
        let comp = s.subrange(i, j);
        let rest = keep_v_params(s, j + 1);
        assert(rest == s.subrange(j + 1, s.len() as int));
        assert(rest.len() > 0);
        assert(comp + "&"@ + rest =~= s.subrange(i, s.len() as int)) by {
            assert(s[j] == '&');
        }
    } else {
        assert(keep_v_params(s, i) =~= s.subrange(i, s.len() as int));
    }
}

/// Keeping only the `v` parameters is idempotent: done twice, the second pass
/// changes nothing. This is the mathematical content of the requirement that
/// the canonical-watch rewrite be idempotent.
pub proof fn lemma_keep_v_params_idempotent(q: Seq<char>)
    ensures
        keep_v_params(keep_v_params(q, 0), 0) == keep_v_params(q, 0),
{
    let out = keep_v_params(q, 0);
    if q.len() == 0 || out.len() == 0 {
        assert(keep_v_params(out, 0) =~= out);
    } else {
        lemma_keep_v_shape(q, 0);
        lemma_keep_v_of_join(out, 0);
        assert(out.subrange(0, out.len() as int) =~= out);
    }
}

/// The `:port` part of an authority.
pub open spec fn port_part(port: Option<u16>) -> Seq<char> {
    match port {
        Some(p) => ":"@ + dec_of(p as nat),
        None => Seq::empty(),
    }
}

/// The `?query` part of a URL.
pub open spec fn query_part(q: Seq<char>) -> Seq<char> {
    if q.len() == 0 {
        Seq::empty()
    } else {
        "?"@ + q
    }
}

/// The raw query of a web URI, or the empty sequence when it has none.
pub open spec fn raw_query(w: WebUri) -> Seq<char> {
    match w.query {
        Some(q) => q@,
        None => Seq::empty(),
    }
}

/// The canonical watch URL probed in place of `w`: same scheme and authority,
/// the `/watch` path, and only the `v` parameters of the query.
pub open spec fn canonical_watch_url(w: WebUri) -> Seq<char> {
    w.scheme@ + "://"@ + w.host@ + port_part(w.port) + "/watch"@ + query_part(
        keep_v_params(raw_query(w), 0),
    )
}

/// The kind of the first entry in `entries` matching `host`, if any.
pub open spec fn first_match(entries: Seq<Quirk>, host: Seq<char>) -> Option<QuirkKind>
    decreases entries.len(),
{
    if entries.len() == 0 {
        None
    } else if entries[0].host@ == host {
        Some(entries[0].kind)
    } else {
        first_match(entries.drop_first(), host)
    }
}

/// The URL the plan for `w` must request, given the quirk that applies.
pub open spec fn plan_url(kind: Option<QuirkKind>, w: WebUri) -> Seq<char> {
    if kind == Some(QuirkKind::CanonicalVideo) && w.path@ == "/watch"@ {
        canonical_watch_url(w)
    } else {
        w.text@
    }
}

/// The extra headers the plan for `w` must carry, given the quirk that
/// applies: `Accept: text/html` for the package-registry quirk, none else.
pub open spec fn plan_headers(kind: Option<QuirkKind>, headers: Seq<Header>) -> bool {
    if kind == Some(QuirkKind::HtmlAccept) {
        headers.len() == 1 && headers[0].name@ == "Accept"@ && headers[0].value@ == "text/html"@
    } else {
        headers.len() == 0
    }
}

/// What the plan for `w` under `entries` holds: the method asked for, the
/// URI's own authority, the rewritten URL and the extra headers of the first
/// matching entry.
pub open spec fn plan_for(
    entries: Seq<Quirk>,
    method: Method,
    w: WebUri,
    plan: RequestPlan,
) -> bool {
    &&& plan.method == method
    &&& plan.host@ == w.host@
    &&& plan.port == w.port
    &&& plan.url@ == plan_url(first_match(entries, w.host@), w)
    &&& plan_headers(first_match(entries, w.host@), plan.headers@)
}

/// The built-in registry: the canonical-watch rewrite for the video host
/// (with and without the `www` label), then the HTML accept header for the
/// package registry.
pub open spec fn is_default_registry(entries: Seq<Quirk>) -> bool {
    &&& entries.len() == 3
    &&& entries[0].host@ == "www.youtube.com"@
    &&& entries[0].kind == QuirkKind::CanonicalVideo
    &&& entries[1].host@ == "youtube.com"@
    &&& entries[1].kind == QuirkKind::CanonicalVideo
    &&& entries[2].host@ == "crates.io"@
    &&& entries[2].kind == QuirkKind::HtmlAccept
}

/// Keep only the `v` parameters of a raw query string, scanning from `i`.
fn keep_v_query(q: &str, i: usize) -> (r: String)
    requires
        i <= q@.len(),
    ensures
        r@ == keep_v_params(q@, i as int),
    decreases q@.len() - i,
{
    let n = q.unicode_len();
    if i >= n {
        return String::new();
    }
    let j = find_char_from(q, '&', i);
    let is_v = j - i >= 2 && q.get_char(i) == 'v' && q.get_char(i + 1) == '=';
    let rest = if j < n {
        keep_v_query(q, j + 1)
    } else {
        String::new()
    };
    if is_v {
        let comp = q.substring_char(i, j).to_owned();
        if rest.as_str().is_empty() {
            proof {
                assert(comp@ =~= keep_v_params(q@, i as int));
            }
            comp
        } else {
            let mut out = comp;
            out.append("&");
            out.append(rest.as_str());
            proof {
                assert(out@ =~= keep_v_params(q@, i as int));
            }
            out
        }
    } else {
        rest
    }
}

/// Build the canonical watch URL for `w`.
fn build_watch_url(w: &WebUri) -> (r: String)
    ensures
        r@ == canonical_watch_url(*w),
{
    let mut out = w.scheme.clone();
    out.append("://");
    out.append(w.host.as_str());
    match w.port {
        Some(p) => {
            out.append(":");
            let d = u16_to_dec(p);
            out.append(d.as_str());
        },
        None => {},
    }
    out.append("/watch");
    let q = match w.query.as_ref() {
        Some(q) => keep_v_query(q.as_str(), 0),
        None => String::new(),
    };
    if !q.as_str().is_empty() {
        out.append("?");
        out.append(q.as_str());
    }
    proof {
        assert(out@ =~= canonical_watch_url(*w));
    }
    out
}

impl Quirks {
    /// The kind of the first entry matching `host`, if any.
    fn lookup(&self, host: &str) -> (r: Option<QuirkKind>)
        ensures
            r == first_match(self.entries@, host@),
    {
        let mut i: usize = 0;
        proof {
            assert(self.entries@.skip(0) =~= self.entries@);
        }
        while i < self.entries.len()
            invariant
                i <= self.entries@.len(),
                first_match(self.entries@, host@) == first_match(
                    self.entries@.skip(i as int),
                    host@,
                ),
            decreases self.entries@.len() - i,
        {
            if str_eq(self.entries[i].host.as_str(), host) {
                proof {
                    assert(self.entries@.skip(i as int)[0] == self.entries@[i as int]);
                }
                return Some(self.entries[i].kind);
            }
            proof {
                assert(self.entries@.skip(i as int).drop_first() =~= self.entries@.skip(
                    i as int + 1,
                ));
                assert(self.entries@.skip(i as int)[0] == self.entries@[i as int]);
            }
            i += 1;
        }
        proof {
            assert(self.entries@.skip(i as int).len() == 0);
        }
        None
    }

    /// Build the request plan for `w`: the first matching quirk is applied;
    /// the authority (host and port) is the URI's own, whatever applies.
    pub fn apply(&self, method: Method, w: &WebUri) -> (plan: RequestPlan)
        ensures
            plan_for(self.entries@, method, *w, plan),
    {
        let kind = self.lookup(w.host.as_str());
        let url: String = match kind {
            Some(QuirkKind::CanonicalVideo) => {
                if str_eq(w.path.as_str(), "/watch") {
                    build_watch_url(w)
                } else {
                    w.text.clone()
                }
            },
            _ => w.text.clone(),
        };
        let mut headers: Vec<Header> = Vec::new();
        if let Some(QuirkKind::HtmlAccept) = kind {
            headers.push(
                Header { name: "Accept".to_owned(), value: "text/html".to_owned() },
            );
        }
        RequestPlan { method, url, host: w.host.clone(), port: w.port, headers }
    }
}

impl Default for Quirks {
    /// The built-in registry: the canonical-watch rewrite for the video
    /// host, and the HTML accept header for the package registry.
    fn default() -> (r: Quirks)
        ensures
            is_default_registry(r.entries@),
    {
        let mut entries: Vec<Quirk> = Vec::new();
        entries.push(Quirk { host: "www.youtube.com".to_owned(), kind: QuirkKind::CanonicalVideo });
        entries.push(Quirk { host: "youtube.com".to_owned(), kind: QuirkKind::CanonicalVideo });
        entries.push(Quirk { host: "crates.io".to_owned(), kind: QuirkKind::HtmlAccept });
        Quirks { entries }
    }
}

} // verus!
