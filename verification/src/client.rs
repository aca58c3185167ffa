//! The checking engine: a configurable client that filters URIs, routes each
//! to the right probe, applies quirks, and drives the bounded retry policy
//! with exponential backoff.
//!
//! Network transport, name resolution and sleeping cannot be performed here;
//! the client is therefore an explicit state machine. [`Client::start_check`]
//! turns a request into a [`CheckTask`] and a first [`CheckAction`]; the
//! embedding application performs the action (a probe, a deliverability
//! check, a provider lookup, a sleep) and feeds the outcome back through
//! `on_probe_result`, `on_mail_result` or `on_provider_result` until the
//! action is `Finish`. Every decision along the way is verified.

use vstd::prelude::*;
use vstd::pervasive::unreached;

use crate::error::{spec_message, ErrorKind};
use crate::filter::{spec_is_excluded, Filter, FilterConfig};
use crate::pattern::PatternSet;
use crate::quirks::{plan_for, Header, Method, Quirks, RequestPlan};
use crate::status::{accepted_contains, classified, code_is_success, deep_view_accepted, Status};
use crate::strutil::{eq_ignore_ascii_case, eq_ignore_ascii_case_seq, str_eq};
use crate::types::{Input, Request, Response};
use crate::uri::Uri;

verus! {

/// How often a failed probe is retried before the provider fallback.
pub const RETRIES: u8 = 3;

/// How many redirects are followed when nothing else is configured.
pub const DEFAULT_MAX_REDIRECTS: usize = 5;

/// Whether `http::HeaderName::from_bytes` accepts `s` as a header name.
pub uninterp spec fn header_name_ok(s: Seq<char>) -> bool;

/// Whether `http::HeaderValue::from_str` accepts `s` as a header value.
pub uninterp spec fn header_value_ok(s: Seq<char>) -> bool;

/// Relies on `http::header::HeaderName::from_bytes`: accepts exactly the
/// valid header names; the error is rendered as text.
#[verifier::external_body]
fn header_name_check(s: &str) -> (r: Result<(), String>)
    ensures
        r is Ok <==> header_name_ok(s@),
{
    match http::header::HeaderName::from_bytes(s.as_bytes()) {
        Ok(_) => Ok(()),
        Err(e) => Err(format!("{}", e)),
    }
}

/// Relies on `http::HeaderValue::from_str`: accepts exactly the valid header
/// values; the error is rendered as text.
#[verifier::external_body]
fn header_value_check(s: &str) -> (r: Result<(), String>)
    ensures
        r is Ok <==> header_value_ok(s@),
{
    match http::HeaderValue::from_str(s) {
        Ok(_) => Ok(()),
        Err(e) => Err(format!("{}", e)),
    }
}

/// A header name the builder rewrites: the configured user agent overrides a
/// caller-supplied one, and the transfer encoding is fixed.
pub open spec fn reserved_header(name: Seq<char>) -> bool {
    eq_ignore_ascii_case_seq(name, "user-agent"@) || eq_ignore_ascii_case_seq(
        name,
        "transfer-encoding"@,
    )
}

/// The user agent the builder settles on.
pub open spec fn ua_view(user_agent: Option<String>) -> Seq<char> {
    match user_agent {
        Some(u) => u@,
        None => "lychee/0.4.0"@,
    }
}

/// A link checker: immutable after construction and safe to share. It holds
/// no transport; the embedding application supplies one and drives the state
/// machine below.
pub struct Client {
    /// Which URIs are in scope.
    pub filter: Filter,
    /// Per-host request rewrites.
    pub quirks: Quirks,
    /// The default request method.
    pub method: Method,
    /// Status codes accepted as success regardless of their class.
    pub accepted: Option<Vec<u16>>,
    /// The user agent sent with every request.
    pub user_agent: String,
    /// Whether invalid TLS certificates are accepted.
    pub allow_insecure: bool,
    /// How many redirects the transport may follow.
    pub max_redirects: usize,
    /// The per-request deadline, in milliseconds, if any.
    pub timeout_ms: Option<u64>,
    /// The headers sent with every request.
    pub default_headers: Vec<Header>,
    /// The provider-API token, when one was configured and non-empty.
    pub github_token: Option<String>,
}

/// The configuration a client is built from. Every option is optional; the
/// builder fills in the defaults and validates once.
pub struct ClientBuilder {
    /// A provider-API token; enables the provider fallback when non-empty.
    pub github_token: Option<String>,
    /// Check only URIs matching one of these patterns.
    pub includes: Option<PatternSet>,
    /// Exclude URIs matching one of these patterns.
    pub excludes: Option<PatternSet>,
    /// Shorthand enabling the three IP-class excludes below.
    pub exclude_all_private: bool,
    /// Exclude private IP addresses.
    pub exclude_private_ips: bool,
    /// Exclude link-local IP addresses.
    pub exclude_link_local_ips: bool,
    /// Exclude loopback IP addresses.
    pub exclude_loopback_ips: bool,
    /// Exclude mail addresses.
    pub exclude_mail: bool,
    /// Maximum number of redirects to follow.
    pub max_redirects: Option<usize>,
    /// The user agent to send.
    pub user_agent: Option<String>,
    /// Accept invalid TLS certificates.
    pub allow_insecure: bool,
    /// Check only URIs with this scheme.
    pub scheme: Option<String>,
    /// Headers to send with every request.
    pub custom_headers: Vec<Header>,
    /// The request method.
    pub method: Option<Method>,
    /// Status codes accepted as success regardless of their class.
    pub accepted: Option<Vec<u16>>,
    /// The per-request deadline, in milliseconds.
    pub timeout_ms: Option<u64>,
}

impl Default for ClientBuilder {
    /// A builder with nothing configured.
    fn default() -> (r: ClientBuilder)
        ensures
            r.github_token is None,
            r.includes is None,
            r.excludes is None,
            !r.exclude_all_private,
            !r.exclude_private_ips,
            !r.exclude_link_local_ips,
            !r.exclude_loopback_ips,
            !r.exclude_mail,
            r.max_redirects is None,
            r.user_agent is None,
            !r.allow_insecure,
            r.scheme is None,
            r.custom_headers@.len() == 0,
            r.method is None,
            r.accepted is None,
            r.timeout_ms is None,
    {
        ClientBuilder {
            github_token: None,
            includes: None,
            excludes: None,
            exclude_all_private: false,
            exclude_private_ips: false,
            exclude_link_local_ips: false,
            exclude_loopback_ips: false,
            exclude_mail: false,
            max_redirects: None,
            user_agent: None,
            allow_insecure: false,
            scheme: None,
            custom_headers: Vec::new(),
            method: None,
            accepted: None,
            timeout_ms: None,
        }
    }
}

/// Whether the configuration passes the builder's validation: the settled
/// user agent and every custom header must be acceptable to the transport.
pub open spec fn build_ok(b: ClientBuilder) -> bool {
    &&& header_value_ok(ua_view(b.user_agent))
    &&& forall|i: int|
        0 <= i < b.custom_headers@.len() ==> header_name_ok(#[trigger] b.custom_headers@[i].name@)
            && header_value_ok(b.custom_headers@[i].value@)
}

/// The filter a configuration asks for: `exclude_all_private` switches on the
/// three IP-class excludes.
pub open spec fn built_filter(b: ClientBuilder, f: FilterConfig) -> bool {
    &&& f.includes == match b.includes {
        Some(p) => Some(p@),
        None => None::<Seq<Seq<char>>>,
    }
    &&& f.excludes == match b.excludes {
        Some(p) => Some(p@),
        None => None::<Seq<Seq<char>>>,
    }
    &&& f.exclude_private_ips == (b.exclude_all_private || b.exclude_private_ips)
    &&& f.exclude_link_local_ips == (b.exclude_all_private || b.exclude_link_local_ips)
    &&& f.exclude_loopback_ips == (b.exclude_all_private || b.exclude_loopback_ips)
    &&& f.exclude_mail == b.exclude_mail
    &&& f.scheme == match b.scheme {
        Some(s) => Some(s@),
        None => None::<Seq<char>>,
    }
}

/// The default headers a configuration asks for: the caller's headers except
/// the reserved names, then the user agent, then the fixed transfer encoding.
pub open spec fn built_headers(b: ClientBuilder, headers: Seq<Header>) -> bool {
    let kept = b.custom_headers@.filter(|h: Header| !reserved_header(h.name@));
    &&& headers.len() == kept.len() + 2
    &&& headers.subrange(0, kept.len() as int) == kept
    &&& headers[kept.len() as int].name@ == "User-Agent"@
    &&& headers[kept.len() as int].value@ == ua_view(b.user_agent)
    &&& headers[kept.len() as int + 1].name@ == "Transfer-Encoding"@
    &&& headers[kept.len() as int + 1].value@ == "chunked"@
}

/// What the built client holds, option by option.
pub open spec fn built(b: ClientBuilder, c: Client) -> bool {
    &&& built_filter(b, c.filter@)
    &&& crate::quirks::is_default_registry(c.quirks.entries@)
    &&& c.method == match b.method {
        Some(m) => m,
        None => Method::Get,
    }
    &&& c.accepted == b.accepted
    &&& c.user_agent@ == ua_view(b.user_agent)
    &&& c.allow_insecure == b.allow_insecure
    &&& c.max_redirects == match b.max_redirects {
        Some(m) => m,
        None => DEFAULT_MAX_REDIRECTS,
    }
    &&& c.timeout_ms == b.timeout_ms
    &&& built_headers(b, c.default_headers@)
    &&& c.github_token == match b.github_token {
        Some(t) => if t@.len() > 0 {
            Some(t)
        } else {
            None::<String>
        },
        None => None::<String>,
    }
}

impl ClientBuilder {
    /// Instantiate the client: fill in defaults, validate the headers, and
    /// freeze the configuration. Fails exactly when the settled user agent or
    /// a custom header is invalid.
    pub fn build(self) -> (r: Result<Client, ErrorKind>)
        ensures
            r is Ok <==> build_ok(self),
            r matches Ok(c) ==> built(self, c),
            r matches Err(e) ==> e is InvalidHeader,
    {
        let ua = match self.user_agent.as_ref() {
            Some(u) => u.clone(),
            None => "lychee/0.4.0".to_owned(),
        };
        if let Err(m) = header_value_check(ua.as_str()) {
            return Err(ErrorKind::InvalidHeader(m));
        }
        let mut i: usize = 0;
        while i < self.custom_headers.len()
            invariant
                i <= self.custom_headers@.len(),
                forall|j: int|
                    0 <= j < i ==> header_name_ok(#[trigger] self.custom_headers@[j].name@)
                        && header_value_ok(self.custom_headers@[j].value@),
            decreases self.custom_headers@.len() - i,
        {
            if let Err(m) = header_name_check(self.custom_headers[i].name.as_str()) {
                return Err(ErrorKind::InvalidHeader(m));
            }
            if let Err(m) = header_value_check(self.custom_headers[i].value.as_str()) {
                return Err(ErrorKind::InvalidHeader(m));
            }
            proof {
                assert(header_name_ok(self.custom_headers@[i as int].name@));
                assert(header_value_ok(self.custom_headers@[i as int].value@));
            }
            i += 1;
        }

        let ghost kept_spec = self.custom_headers@.filter(|h: Header| !reserved_header(h.name@));
        let mut headers: Vec<Header> = Vec::new();
        let mut k: usize = 0;
        proof {
            reveal_with_fuel(Seq::filter, 1);
            assert(self.custom_headers@.subrange(0, 0).filter(
                |h: Header| !reserved_header(h.name@),
            ) =~= Seq::<Header>::empty());
        }
        while k < self.custom_headers.len()
            invariant
                k <= self.custom_headers@.len(),
                headers@ == self.custom_headers@.subrange(0, k as int).filter(
                    |h: Header| !reserved_header(h.name@),
                ),
            decreases self.custom_headers@.len() - k,
        {
            let h = &self.custom_headers[k];
            let reserved = eq_ignore_ascii_case(h.name.as_str(), "user-agent")
                || eq_ignore_ascii_case(h.name.as_str(), "transfer-encoding");
            if !reserved {
                headers.push(Header { name: h.name.clone(), value: h.value.clone() });
            }
            proof {
                reveal_with_fuel(Seq::filter, 2);
                let pred = |hh: Header| !reserved_header(hh.name@);
                let pre = self.custom_headers@.subrange(0, k as int);
                let post = self.custom_headers@.subrange(0, k as int + 1);
                assert(post.drop_last() =~= pre);
                assert(post.last() == self.custom_headers@[k as int]);
                assert(post.filter(pred) == if pred(post.last()) {
                    pre.filter(pred).push(post.last())
                } else {
                    pre.filter(pred)
                });
            }
            k += 1;
        }
        proof {
            assert(self.custom_headers@.subrange(0, self.custom_headers@.len() as int)
                =~= self.custom_headers@);
            assert(headers@ == kept_spec);
        }
        headers.push(Header { name: "User-Agent".to_owned(), value: ua.clone() });
        headers.push(Header { name: "Transfer-Encoding".to_owned(), value: "chunked".to_owned() });
        proof {
            assert(headers@.subrange(0, kept_spec.len() as int) =~= kept_spec);
        }

        let github_token = match self.github_token {
            Some(t) => {
                if t.as_str().is_empty() {
                    None
                } else {
                    Some(t)
                }
            },
            None => None,
        };

        let filter = Filter {
            includes: self.includes,
            excludes: self.excludes,
            exclude_private_ips: self.exclude_all_private || self.exclude_private_ips,
            exclude_link_local_ips: self.exclude_all_private || self.exclude_link_local_ips,
            exclude_loopback_ips: self.exclude_all_private || self.exclude_loopback_ips,
            exclude_mail: self.exclude_mail,
            scheme: self.scheme,
        };

        Ok(
            Client {
                filter,
                quirks: Quirks::default(),
                method: match self.method {
                    Some(m) => m,
                    None => Method::Get,
                },
                accepted: self.accepted,
                user_agent: ua,
                allow_insecure: self.allow_insecure,
                max_redirects: match self.max_redirects {
                    Some(m) => m,
                    None => DEFAULT_MAX_REDIRECTS,
                },
                timeout_ms: self.timeout_ms,
                default_headers: headers,
                github_token,
            },
        )
    }
}

/// What one HTTP probe yielded, as the transport reports it.
#[derive(Debug, Clone)]
pub enum ProbeOutcome {
    /// A response arrived with this status code.
    Response(u16),
    /// The request exceeded its deadline; the code is present if a response
    /// had started.
    TimedOut(Option<u16>),
    /// Any other transport failure, rendered as text, with the code if a
    /// response had started.
    Failed(String, Option<u16>),
}

/// What a mail deliverability check yielded.
#[derive(Debug, Clone, Copy, PartialEq, Eq, Structural)]
pub enum MailOutcome {
    /// The address is reachable.
    Reachable,
    /// Delivery is risky but possible.
    Risky,
    /// The address is invalid.
    Invalid,
    /// Nothing could be determined.
    Unknown,
}

/// What a provider-API repository lookup yielded.
#[derive(Debug, Clone)]
pub enum ProviderOutcome {
    /// The repository exists.
    Found,
    /// The lookup failed, rendered as text.
    Failed(String),
}

/// One check in flight: the request being answered and the retry state.
#[derive(Debug, Clone)]
pub struct CheckTask {
    /// The URI being checked.
    pub uri: Uri,
    /// Where the URI came from.
    pub source: Input,
    /// Carried over from the request.
    pub recursion_level: usize,
    /// How many retries have been scheduled so far.
    pub attempts: u8,
    /// The wait, in seconds, before the next retry.
    pub wait: u64,
    /// The total wait scheduled so far, in seconds.
    pub waited: u64,
}

/// What the embedding application must do next.
#[derive(Debug, Clone)]
pub enum CheckAction {
    /// The check is finished with this response.
    Finish(Response),
    /// Validate deliverability of this mail address, then report the outcome
    /// through `on_mail_result`.
    ProbeMail(String),
    /// Issue one HTTP probe as planned, then report the outcome through
    /// `on_probe_result`.
    Probe(RequestPlan),
    /// Sleep this many seconds, issue one HTTP probe as planned, then report
    /// the outcome through `on_probe_result`.
    WaitAndProbe(u64, RequestPlan),
    /// Ask the provider API whether this `(owner, repo)` repository exists,
    /// then report the outcome through `on_provider_result`.
    ProviderLookup(String, String),
}

/// Two to the `n`th.
pub open spec fn pow2(n: nat) -> nat
    decreases n,
{
    if n == 0 {
        1
    } else {
        2 * pow2((n - 1) as nat)
    }
}

impl CheckTask {
    /// The retry state the task goes through: after `attempts` scheduled
    /// retries the next wait has doubled as many times, and the waits so far
    /// sum to one less.
    pub open spec fn wf(&self) -> bool {
        &&& self.attempts <= RETRIES
        &&& self.wait as nat == pow2(self.attempts as nat)
        &&& self.waited as nat == pow2(self.attempts as nat) - 1
    }
}

/// The mail address carried by a URI routed to the mail prober: the address
/// of a mail URI, or the path of a `mailto:` URL.
pub open spec fn mail_address(u: Uri) -> Seq<char> {
    match u {
        Uri::Mail(m) => m.addr@,
        Uri::Web(w) => w.path@,
    }
}

/// How a probe's outcome is classified: a response code goes through the
/// status classifier; a deadline becomes `Timeout`; everything else keeps its
/// message and code as an `Error`.
pub open spec fn spec_classify_outcome(
    accepted: Option<Seq<u16>>,
    o: ProbeOutcome,
    s: Status,
) -> bool {
    match o {
        ProbeOutcome::Response(c) => classified(c, accepted, s),
        ProbeOutcome::TimedOut(c) => s == Status::Timeout(c),
        ProbeOutcome::Failed(m, c) => s == Status::Error(m, c),
    }
}

/// Whether a probe's outcome counts as success under `accepted`.
pub open spec fn outcome_success(accepted: Option<Seq<u16>>, o: ProbeOutcome) -> bool {
    o matches ProbeOutcome::Response(c) && (accepted_contains(accepted, c) || code_is_success(c))
}

/// A successful probe always stems from a response whose code is in the
/// success class or in the accept-set, and the status carries that code.
pub proof fn lemma_probe_success(accepted: Option<Seq<u16>>, o: ProbeOutcome, s: Status)
    requires
        spec_classify_outcome(accepted, o, s),
        s is Success,
    ensures
        outcome_success(accepted, o),
        o matches ProbeOutcome::Response(c) && s == Status::Success(c),
{
}

/// A task that has exhausted its retries has scheduled exactly seven seconds
/// of backoff: one, two, then four.
pub proof fn lemma_backoff_total(t: CheckTask)
    requires
        t.wf(),
        t.attempts == RETRIES,
    ensures
        t.waited == 7,
{
    assert(pow2(3) == 8) by {
        assert(pow2(0) == 1);
        assert(pow2(1) == 2);
        assert(pow2(2) == 4);
    }
}

impl Client {
    /// Classify what one HTTP probe yielded.
    pub fn classify_probe(&self, outcome: ProbeOutcome) -> (r: Status)
        ensures
            spec_classify_outcome(deep_view_accepted(self.accepted), outcome, r),
    {
        match outcome {
            ProbeOutcome::Response(c) => Status::new(c, &self.accepted),
            ProbeOutcome::TimedOut(c) => Status::Timeout(c),
            ProbeOutcome::Failed(m, c) => Status::Error(m, c),
        }
    }

    /// Begin checking a request. The filter decides first: an excluded URI is
    /// answered at once, with no probe asked of the application. Otherwise
    /// the URI goes to the mail prober when its scheme is `mailto`, and to
    /// the web prober under the retry policy when not.
    pub fn start_check(&self, request: Request) -> (r: (CheckTask, CheckAction))
        ensures
            r.0.uri == request.uri && r.0.source == request.source && r.0.recursion_level
                == request.recursion_level,
            r.0.attempts == 0 && r.0.wait == 1 && r.0.waited == 0,
            r.0.wf(),
            spec_is_excluded(self.filter@, request.uri) ==> (r.1 matches CheckAction::Finish(resp)
                && resp.uri == request.uri && resp.status is Excluded && resp.source
                == request.source),
            !spec_is_excluded(self.filter@, request.uri) && request.uri.scheme_view() == "mailto"@
                ==> (r.1 matches CheckAction::ProbeMail(a) && a@ == mail_address(request.uri)),
            !spec_is_excluded(self.filter@, request.uri) && request.uri.scheme_view() != "mailto"@
                ==> (request.uri matches Uri::Web(w) && (r.1 matches CheckAction::Probe(plan)
                && plan_for(self.quirks.entries@, self.method, w, plan))),
    {
        let task = CheckTask {
            uri: request.uri,
            source: request.source,
            recursion_level: request.recursion_level,
            attempts: 0,
            wait: 1,
            waited: 0,
        };
        if self.filter.is_excluded(&task.uri) {
            let resp = Response::new(
                task.uri.duplicate(),
                Status::Excluded,
                task.source.duplicate(),
                task.recursion_level,
            );
            return (task, CheckAction::Finish(resp));
        }
        let action = match &task.uri {
            Uri::Mail(m) => CheckAction::ProbeMail(m.addr.clone()),
            Uri::Web(w) => {
                if str_eq(w.scheme.as_str(), "mailto") {
                    CheckAction::ProbeMail(w.path.clone())
                } else {
                    CheckAction::Probe(self.quirks.apply(self.method, w))
                }
            },
        };
        (task, action)
    }

    /// Take the outcome of one HTTP probe and decide what happens next:
    /// success finishes the check; otherwise up to three retries are
    /// scheduled, waiting one, two, then four seconds; when the retries are
    /// exhausted, a URI recognized as a provider repository goes to the
    /// provider API — or fails at once when no token is configured — and
    /// everything else finishes with the probe's classification.
    pub fn on_probe_result(&self, task: &mut CheckTask, outcome: ProbeOutcome) -> (r: CheckAction)
        requires
            old(task).wf(),
            old(task).uri is Web,
        ensures
            final(task).wf(),
            final(task).uri == old(task).uri && final(task).source == old(task).source,
            final(task).recursion_level == old(task).recursion_level,
            outcome_success(deep_view_accepted(self.accepted), outcome) ==> (r
                matches CheckAction::Finish(resp) && resp.uri == old(task).uri && resp.source
                == old(task).source && spec_classify_outcome(
                deep_view_accepted(self.accepted),
                outcome,
                resp.status,
            ) && *final(task) == *old(task)),
            !outcome_success(deep_view_accepted(self.accepted), outcome) && old(task).attempts
                < RETRIES ==> (r matches CheckAction::WaitAndProbe(w, plan) && w == old(task).wait
                && (old(task).uri matches Uri::Web(web) && plan_for(
                self.quirks.entries@,
                self.method,
                web,
                plan,
            )) && final(task).attempts == old(task).attempts + 1 && final(task).waited == old(
                task,
            ).waited + w),
            !outcome_success(deep_view_accepted(self.accepted), outcome) && old(task).attempts
                >= RETRIES ==> *final(task) == *old(task) && (match old(task).uri.github_repo_view() {
                Some((owner, repo)) => {
                    if self.github_token is Some {
                        r matches CheckAction::ProviderLookup(o, rp) && o@ == owner && rp@ == repo
                    } else {
                        r matches CheckAction::Finish(resp) && resp.uri == old(task).uri
                            && resp.source == old(task).source && (resp.status
                            matches Status::Error(m, c) && m@ == spec_message(
                            ErrorKind::MissingProviderToken,
                        ) && c is None)
                    }
                },
                None => {
                    r matches CheckAction::Finish(resp) && resp.uri == old(task).uri && resp.source
                        == old(task).source && spec_classify_outcome(
                        deep_view_accepted(self.accepted),
                        outcome,
                        resp.status,
                    )
                },
            }),
    {
        let status = self.classify_probe(outcome);
        if status.is_success() {
            let resp = Response::new(
                task.uri.duplicate(),
                status,
                task.source.duplicate(),
                task.recursion_level,
            );
            return CheckAction::Finish(resp);
        }
        if task.attempts < RETRIES {
            let w = task.wait;
            proof {
                assert(pow2((old(task).attempts + 1) as nat) == 2 * pow2(
                    old(task).attempts as nat,
                ));
                assert(pow2(0) == 1);
                assert(pow2(1) == 2);
                assert(pow2(2) == 4);
                assert(pow2(3) == 8);
            }
            task.attempts = task.attempts + 1;
            task.wait = w * 2;
            task.waited = task.waited + w;
            let plan = match &task.uri {
                Uri::Web(web) => self.quirks.apply(self.method, web),
                Uri::Mail(_) => unreached(),
            };
            return CheckAction::WaitAndProbe(w, plan);
        }
        match task.uri.extract_github() {
            Some((owner, repo)) => {
                if self.github_token.is_some() {
                    CheckAction::ProviderLookup(owner, repo)
                } else {
                    let resp = Response::new(
                        task.uri.duplicate(),
                        ErrorKind::MissingProviderToken.to_status(),
                        task.source.duplicate(),
                        task.recursion_level,
                    );
                    CheckAction::Finish(resp)
                }
            },
            None => {
                let resp = Response::new(
                    task.uri.duplicate(),
                    status,
                    task.source.duplicate(),
                    task.recursion_level,
                );
                CheckAction::Finish(resp)
            },
        }
    }

    /// Take the outcome of a mail deliverability check: an invalid address is
    /// an unreachable-address error; every other reachability — including
    /// `Unknown` and `Risky`, common for privacy-protected servers — counts
    /// as success.
    pub fn on_mail_result(&self, task: &CheckTask, outcome: MailOutcome) -> (r: CheckAction)
        ensures
            r matches CheckAction::Finish(resp) && resp.uri == task.uri && resp.source
                == task.source && (if outcome == MailOutcome::Invalid {
                resp.status matches Status::Error(m, c) && m@ == spec_message(
                    ErrorKind::UnreachableEmailAddress(task.uri),
                ) && c is None
            } else {
                resp.status == Status::Success(200)
            }),
    {
        let status = if let MailOutcome::Invalid = outcome {
            ErrorKind::UnreachableEmailAddress(task.uri.duplicate()).to_status()
        } else {
            Status::Success(200)
        };
        CheckAction::Finish(
            Response::new(
                task.uri.duplicate(),
                status,
                task.source.duplicate(),
                task.recursion_level,
            ),
        )
    }

    /// Take the outcome of a provider-API lookup: an existing repository is a
    /// success; anything else keeps the lookup's failure text.
    pub fn on_provider_result(&self, task: &CheckTask, outcome: ProviderOutcome) -> (r: CheckAction)
        ensures
            r matches CheckAction::Finish(resp) && resp.uri == task.uri && resp.source
                == task.source && (match outcome {
                ProviderOutcome::Found => resp.status == Status::Success(200),
                ProviderOutcome::Failed(m) => resp.status matches Status::Error(mm, c) && mm@
                    == spec_message(ErrorKind::Provider(m)) && c is None,
            }),
    {
        let status = match outcome {
            ProviderOutcome::Found => Status::Success(200),
            ProviderOutcome::Failed(m) => ErrorKind::Provider(m).to_status(),
        };
        CheckAction::Finish(
            Response::new(
                task.uri.duplicate(),
                status,
                task.source.duplicate(),
                task.recursion_level,
            ),
        )
    }
}

} // verus!
