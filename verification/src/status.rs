//! The status taxonomy: every probe outcome is classified into exactly one
//! `Status`, and the classifier's rules are stated as contracts.

use vstd::prelude::*;

use crate::strutil::{dec_of, u16_to_dec};

verus! {

/// Response status of a request.
///
/// Every probe path yields exactly one `Status`; partial states are never
/// exposed. HTTP status codes are carried as their numeric value.
#[derive(Debug, Clone)]
pub enum Status {
    /// Request was successful.
    Success(u16),
    /// Request failed, with a reason and the HTTP status code if one arrived.
    Error(String, Option<u16>),
    /// Request timed out; the code is present if a response had started.
    Timeout(Option<u16>),
    /// Request was redirected to a different resource and the redirect could
    /// not be followed further.
    Redirected(u16),
    /// Resource was excluded from checking by the filter.
    Excluded,
}

/// An HTTP status code in the success class.
pub open spec fn code_is_success(code: u16) -> bool {
    200 <= code < 300
}

/// An HTTP status code in the redirection class.
pub open spec fn code_is_redirection(code: u16) -> bool {
    300 <= code < 400
}

/// Whether the configured accept-set forces `code` to count as success.
pub open spec fn accepted_contains(accepted: Option<Seq<u16>>, code: u16) -> bool {
    match accepted {
        Some(codes) => codes.contains(code),
        None => false,
    }
}

/// What the classifier must return for an HTTP response with status `code`
/// under the accept-set `accepted`.
pub open spec fn classified(code: u16, accepted: Option<Seq<u16>>, r: Status) -> bool {
    if accepted_contains(accepted, code) || code_is_success(code) {
        r == Status::Success(code)
    } else if code_is_redirection(code) {
        r == Status::Redirected(code)
    } else {
        r matches Status::Error(msg, c) && msg@ == Seq::<char>::empty() && c == Some(code)
    }
}

impl Status {
    /// Classify an HTTP response code: codes in the accept-set and 2xx codes
    /// are `Success`, 3xx codes are `Redirected`, everything else is an `Error`
    /// carrying the code.
    pub fn new(code: u16, accepted: &Option<Vec<u16>>) -> (r: Status)
        ensures
            classified(code, deep_view_accepted(*accepted), r),
    {
        if accepted_set_contains(accepted, code) {
            Status::Success(code)
        } else if 200 <= code && code < 300 {
            Status::Success(code)
        } else if 300 <= code && code < 400 {
            Status::Redirected(code)
        } else {
            Status::Error(String::new(), Some(code))
        }
    }

    /// Success means `Success` and nothing else.
    pub fn is_success(&self) -> (r: bool)
        ensures
            r == (self is Success),
    {
        match self {
            Status::Success(_) => true,
            _ => false,
        }
    }

    /// Failure means `Error` and nothing else; `Excluded` in particular is
    /// neither success nor failure.
    pub fn is_failure(&self) -> (r: bool)
        ensures
            r == (self is Error),
    {
        match self {
            Status::Error(_, _) => true,
            _ => false,
        }
    }

    /// Whether the filter kept this URI from being probed.
    pub fn is_excluded(&self) -> (r: bool)
        ensures
            r == (self is Excluded),
    {
        match self {
            Status::Excluded => true,
            _ => false,
        }
    }

    /// Whether the probe ran out of time.
    pub fn is_timeout(&self) -> (r: bool)
        ensures
            r == (self is Timeout),
    {
        match self {
            Status::Timeout(_) => true,
            _ => false,
        }
    }

    /// A one-character marker for report output.
    pub fn icon(&self) -> (r: &'static str)
        ensures
            self is Success ==> r@ == "✔"@,
            self is Redirected ==> r@ == "⇄️"@,
            self is Excluded ==> r@ == "?"@,
            self is Error ==> r@ == "✗"@,
            self is Timeout ==> r@ == "⧖"@,
    {
        match self {
            Status::Success(_) => "✔",
            Status::Redirected(_) => "⇄️",
            Status::Excluded => "?",
            Status::Error(_, _) => "✗",
            Status::Timeout(_) => "⧖",
        }
    }
}

/// How each status serializes, for downstream report writers.
pub open spec fn spec_status_text(s: Status) -> Seq<char> {
    match s {
        Status::Success(c) => "OK ("@ + dec_of(c as nat) + ")"@,
        Status::Redirected(c) => "Redirect ("@ + dec_of(c as nat) + ")"@,
        Status::Excluded => "Excluded"@,
        Status::Error(err, code) => match code {
            Some(c) => "Failed: "@ + err@ + " ("@ + dec_of(c as nat) + ")"@,
            None => "Failed: "@ + err@,
        },
        Status::Timeout(code) => match code {
            Some(c) => "Timeout ("@ + dec_of(c as nat) + ")"@,
            None => "Timeout"@,
        },
    }
}

impl Status {
    /// Serialize the status: `OK (200)`, `Redirect (301)`, `Excluded`,
    /// `Failed: <reason>`, `Failed: <reason> (404)`, `Timeout`,
    /// `Timeout (504)`.
    pub fn to_display_string(&self) -> (r: String)
        ensures
            r@ == spec_status_text(*self),
    {
        match self {
            Status::Success(c) => {
                let mut out = "OK (".to_owned();
                let d = u16_to_dec(*c);
                out.append(d.as_str());
                out.append(")");
                proof {
                    assert(out@ =~= spec_status_text(*self));
                }
                out
            },
            Status::Redirected(c) => {
                let mut out = "Redirect (".to_owned();
                let d = u16_to_dec(*c);
                out.append(d.as_str());
                out.append(")");
                proof {
                    assert(out@ =~= spec_status_text(*self));
                }
                out
            },
            Status::Excluded => "Excluded".to_owned(),
            Status::Error(err, code) => {
                let mut out = "Failed: ".to_owned();
                out.append(err.as_str());
                match code {
                    Some(c) => {
                        out.append(" (");
                        let d = u16_to_dec(*c);
                        out.append(d.as_str());
                        out.append(")");
                    },
                    None => {},
                }
                proof {
                    assert(out@ =~= spec_status_text(*self));
                }
                out
            },
            Status::Timeout(code) => {
                match code {
                    Some(c) => {
                        let mut out = "Timeout (".to_owned();
                        let d = u16_to_dec(*c);
                        out.append(d.as_str());
                        out.append(")");
                        proof {
                            assert(out@ =~= spec_status_text(*self));
                        }
                        out
                    },
                    None => "Timeout".to_owned(),
                }
            },
        }
    }
}

/// The first character of each variant's serialization.
pub open spec fn variant_mark(s: Status) -> char {
    match s {
        Status::Success(_) => 'O',
        Status::Redirected(_) => 'R',
        Status::Excluded => 'E',
        Status::Error(_, _) => 'F',
        Status::Timeout(_) => 'T',
    }
}

/// The decimal rendering is never empty.
proof fn lemma_dec_of_len(n: nat)
    ensures
        dec_of(n).len() >= 1,
    decreases n,
{
    if n >= 10 {
        lemma_dec_of_len(n / 10);
    }
}

/// A status's serialization starts with its variant's mark.
proof fn lemma_status_text_mark(s: Status)
    ensures
        spec_status_text(s).len() >= 1,
        spec_status_text(s)[0] == variant_mark(s),
{
    reveal_strlit("OK (");
    reveal_strlit("Redirect (");
    reveal_strlit("Excluded");
    reveal_strlit("Failed: ");
    reveal_strlit("Timeout (");
    reveal_strlit("Timeout");
    reveal_strlit(")");
    reveal_strlit(" (");
}

/// The serialization is total — every status has exactly one rendering — and
/// identifies the variant: equal renderings always come from statuses of the
/// same variant.
pub proof fn lemma_status_text_identifies_variant(a: Status, b: Status)
    requires
        spec_status_text(a) == spec_status_text(b),
    ensures
        variant_mark(a) == variant_mark(b),
        a is Success <==> b is Success,
        a is Redirected <==> b is Redirected,
        a is Excluded <==> b is Excluded,
        a is Error <==> b is Error,
        a is Timeout <==> b is Timeout,
{
    lemma_status_text_mark(a);
    lemma_status_text_mark(b);
}

/// On the success variant the serialization is injective outright: equal
/// renderings carry equal codes.
pub proof fn lemma_status_text_success_injective(a: Status, b: Status)
    requires
        spec_status_text(a) == spec_status_text(b),
        a is Success,
        b is Success,
    ensures
        a == b,
{
    let ca = a->Success_0;
    let cb = b->Success_0;
    reveal_strlit("OK (");
    reveal_strlit(")");
    lemma_dec_of_len(ca as nat);
    lemma_dec_of_len(cb as nat);
    let ta = spec_status_text(a);
    assert(dec_of(ca as nat) =~= ta.subrange(4, ta.len() - 1)) by {
        assert(ta == "OK ("@ + dec_of(ca as nat) + ")"@);
    }
    assert(dec_of(cb as nat) =~= ta.subrange(4, ta.len() - 1)) by {
        assert(ta == "OK ("@ + dec_of(cb as nat) + ")"@);
    }
    lemma_dec_of_injective(ca as nat, cb as nat);
}

/// Outside the `Error` variant — whose rendering mixes a caller-supplied
/// reason into the same text — the serialization is injective outright: equal
/// renderings are equal statuses.
pub proof fn lemma_status_text_injective(a: Status, b: Status)
    requires
        spec_status_text(a) == spec_status_text(b),
        !(a is Error),
    ensures
        a == b,
{
    lemma_status_text_identifies_variant(a, b);
    let ta = spec_status_text(a);
    if a is Success {
        lemma_status_text_success_injective(a, b);
    } else if a is Redirected {
        let ca = a->Redirected_0;
        let cb = b->Redirected_0;
        reveal_strlit("Redirect (");
        reveal_strlit(")");
        lemma_dec_of_len(ca as nat);
        lemma_dec_of_len(cb as nat);
        assert(dec_of(ca as nat) =~= ta.subrange(10, ta.len() - 1)) by {
            assert(ta == "Redirect ("@ + dec_of(ca as nat) + ")"@);
        }
        assert(dec_of(cb as nat) =~= ta.subrange(10, ta.len() - 1)) by {
            assert(ta == "Redirect ("@ + dec_of(cb as nat) + ")"@);
        }
        lemma_dec_of_injective(ca as nat, cb as nat);
    } else if a is Timeout {
        reveal_strlit("Timeout");
        reveal_strlit("Timeout (");
        reveal_strlit(")");
        match (a, b) {
            (Status::Timeout(Some(ca)), Status::Timeout(Some(cb))) => {
                lemma_dec_of_len(ca as nat);
                lemma_dec_of_len(cb as nat);
                assert(dec_of(ca as nat) =~= ta.subrange(9, ta.len() - 1)) by {
                    assert(ta == "Timeout ("@ + dec_of(ca as nat) + ")"@);
                }
                assert(dec_of(cb as nat) =~= ta.subrange(9, ta.len() - 1)) by {
                    assert(ta == "Timeout ("@ + dec_of(cb as nat) + ")"@);
                }
                lemma_dec_of_injective(ca as nat, cb as nat);
            },
            (Status::Timeout(Some(ca)), Status::Timeout(None)) => {
                lemma_dec_of_len(ca as nat);
                assert(ta.len() >= 11);
                assert(spec_status_text(b).len() == 7);
            },
            (Status::Timeout(None), Status::Timeout(Some(cb))) => {
                lemma_dec_of_len(cb as nat);
                assert(ta.len() == 7);
                assert(spec_status_text(b).len() >= 11);
            },
            _ => {},
        }
    }
}

/// Distinct numbers have distinct decimal renderings.
proof fn lemma_dec_of_injective(m: nat, n: nat)
    requires
        dec_of(m) == dec_of(n),
    ensures
        m == n,
    decreases m,
{
    lemma_dec_of_len(m);
    lemma_dec_of_len(n);
    if m < 10 && n < 10 {
        assert(dec_of(m) == seq![crate::strutil::digit_char(m as int)]);
        assert(dec_of(n) == seq![crate::strutil::digit_char(n as int)]);
        assert(dec_of(m)[0] == crate::strutil::digit_char(m as int));
        assert(dec_of(n)[0] == crate::strutil::digit_char(n as int));
        crate::strutil::lemma_digit_char_injective(m as int, n as int);
    } else if m < 10 {
        lemma_dec_of_len(n / 10);
        assert(dec_of(n).len() >= 2);
        assert(dec_of(m).len() == 1);
    } else if n < 10 {
        lemma_dec_of_len(m / 10);
        assert(dec_of(m).len() >= 2);
        assert(dec_of(n).len() == 1);
    } else {
        assert(dec_of(m).last() == crate::strutil::digit_char((m % 10) as int));
        assert(dec_of(n).last() == crate::strutil::digit_char((n % 10) as int));
        crate::strutil::lemma_digit_char_injective((m % 10) as int, (n % 10) as int);
        assert(m % 10 == n % 10);
        assert(dec_of(m).drop_last() =~= dec_of(m / 10));
        assert(dec_of(n).drop_last() =~= dec_of(n / 10));
        lemma_dec_of_injective(m / 10, n / 10);
        assert(m == 10 * (m / 10) + m % 10) by {
            vstd::arithmetic::div_mod::lemma_fundamental_div_mod(m as int, 10);
        }
        assert(n == 10 * (n / 10) + n % 10) by {
            vstd::arithmetic::div_mod::lemma_fundamental_div_mod(n as int, 10);
        }
    }
}

/// A successful status stems only from a code in the success class or in the
/// configured accept-set, and carries that code.
pub proof fn lemma_success_implies_accepted(code: u16, accepted: Option<Seq<u16>>, r: Status)
    requires
        classified(code, accepted, r),
        r is Success,
    ensures
        r == Status::Success(code),
        accepted_contains(accepted, code) || code_is_success(code),
{
}

/// The accept-set as a ghost sequence of codes.
pub open spec fn deep_view_accepted(accepted: Option<Vec<u16>>) -> Option<Seq<u16>> {
    match accepted {
        Some(codes) => Some(codes@),
        None => None,
    }
}

/// Membership test backing the classifier's accept-set rule.
fn accepted_set_contains(accepted: &Option<Vec<u16>>, code: u16) -> (r: bool)
    ensures
        r == accepted_contains(deep_view_accepted(*accepted), code),
{
    match accepted.as_ref() {
        Some(codes) => {
            let mut i: usize = 0;
            while i < codes.len()
                invariant
                    i <= codes.len(),
                    deep_view_accepted(*accepted) == Some(codes@),
                    forall|j: int| 0 <= j < i ==> codes@[j] != code,
                decreases codes.len() - i,
            {
                if codes[i] == code {
                    assert(codes@.contains(code)) by {
                        assert(codes@[i as int] == code);
                    }
                    return true;
                }
                i += 1;
            }
            assert(!codes@.contains(code));
            false
        },
        None => false,
    }
}

} // verus!
