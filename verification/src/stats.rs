//! Aggregation of responses into summary counts. URIs in each failure bucket
//! are deduplicated by their normalized string form.

use vstd::prelude::*;

use crate::status::Status;
use crate::strutil::{dec_of, str_eq, usize_to_dec};
use crate::types::Response;
use crate::uri::Uri;

verus! {

/// Whether `uris` holds a URI with the normalized form `text`.
pub open spec fn contains_text(uris: Seq<Uri>, text: Seq<char>) -> bool {
    exists|i: int| 0 <= i < uris.len() && uris[i].text_view() == text
}

/// `uris` with `u` added, unless one with the same normalized form is
/// already there.
pub open spec fn uris_insert(uris: Seq<Uri>, u: Uri) -> Seq<Uri> {
    if contains_text(uris, u.text_view()) {
        uris
    } else {
        uris.push(u)
    }
}

/// Whether `uris` holds a URI with the same normalized form as `u`.
fn contains_uri(uris: &Vec<Uri>, u: &Uri) -> (r: bool)
    ensures
        r == contains_text(uris@, u.text_view()),
{
    let mut i: usize = 0;
    while i < uris.len()
        invariant
            i <= uris@.len(),
            forall|j: int| 0 <= j < i ==> uris@[j].text_view() != u.text_view(),
        decreases uris@.len() - i,
    {
        if str_eq(uris[i].as_str(), u.as_str()) {
            proof {
                assert(uris@[i as int].text_view() == u.text_view());
            }
            return true;
        }
        i += 1;
    }
    false
}

/// Add `u` to `uris` unless one with the same normalized form is there.
fn insert_uri(uris: &mut Vec<Uri>, u: Uri)
    ensures
        final(uris)@ == uris_insert(old(uris)@, u),
{
    if !contains_uri(uris, &u) {
        uris.push(u);
    }
}

/// What the summary reports, count by count.
pub open spec fn spec_summary(s: ResponseStats) -> Seq<char> {
    "📝 Summary\n-------------------\n🔍 Total: "@ + dec_of(s.total as nat)
        + "\n✅ Successful: "@ + dec_of(s.successful as nat) + "\n⏳ Timeout: "@ + dec_of(
        s.timeout@.len(),
    ) + "\n🔀 Redirected: "@ + dec_of(s.redirected@.len()) + "\n👻 Excluded: "@ + dec_of(
        s.excluded@.len(),
    ) + "\n🚫 Errors: "@ + dec_of(s.error@.len() + s.failed@.len()) + "\n"@
}

/// Summary counts over a stream of responses.
pub struct ResponseStats {
    /// How many responses were added.
    pub total: usize,
    /// How many were successful.
    pub successful: usize,
    /// The URIs that failed with an HTTP code.
    pub failed: Vec<Uri>,
    /// The URIs whose probes timed out.
    pub timeout: Vec<Uri>,
    /// The URIs that ended on an unfollowed redirect.
    pub redirected: Vec<Uri>,
    /// The URIs the filter excluded.
    pub excluded: Vec<Uri>,
    /// The URIs that failed without an HTTP code.
    pub error: Vec<Uri>,
}

impl ResponseStats {
    /// Each response lands in exactly one bucket, so the buckets never
    /// outgrow the total.
    pub open spec fn wf(&self) -> bool {
        self.successful + self.failed@.len() + self.timeout@.len() + self.redirected@.len()
            + self.excluded@.len() + self.error@.len() <= self.total
    }

    /// Empty statistics.
    pub fn new() -> (r: ResponseStats)
        ensures
            r.total == 0,
            r.successful == 0,
            r.failed@.len() == 0,
            r.timeout@.len() == 0,
            r.redirected@.len() == 0,
            r.excluded@.len() == 0,
            r.error@.len() == 0,
            r.wf(),
    {
        ResponseStats {
            total: 0,
            successful: 0,
            failed: Vec::new(),
            timeout: Vec::new(),
            redirected: Vec::new(),
            excluded: Vec::new(),
            error: Vec::new(),
        }
    }

    /// Count one response: a success bumps the success count, everything else
    /// files the URI in the bucket of its status, deduplicated by its
    /// normalized form.
    pub fn add(&mut self, response: Response)
        requires
            old(self).total < usize::MAX,
            old(self).wf(),
        ensures
            final(self).wf(),
            final(self).total == old(self).total + 1,
            match response.status {
                Status::Success(_) => final(self).successful == old(self).successful + 1 && final(self).failed == old(self).failed && final(self).timeout == old(self).timeout && final(self).redirected == old(self).redirected && final(self).excluded == old(self).excluded
                    && final(self).error == old(self).error,
                Status::Error(_, code) => final(self).successful == old(self).successful && (
                match code {
                    Some(_) => final(self).failed@ == uris_insert(old(self).failed@, response.uri)
                        && final(self).error == old(self).error,
                    None => final(self).error@ == uris_insert(old(self).error@, response.uri)
                        && final(self).failed == old(self).failed,
                }) && final(self).timeout == old(self).timeout && final(self).redirected == old(
                    self,
                ).redirected && final(self).excluded == old(self).excluded,
                Status::Timeout(_) => final(self).successful == old(self).successful && final(self).timeout@ == uris_insert(old(self).timeout@, response.uri) && final(self).failed
                    == old(self).failed && final(self).redirected == old(self).redirected && final(self).excluded == old(self).excluded && final(self).error == old(self).error,
                Status::Redirected(_) => final(self).successful == old(self).successful && final(self).redirected@ == uris_insert(old(self).redirected@, response.uri) && final(self).failed == old(self).failed && final(self).timeout == old(self).timeout && final(self).excluded == old(self).excluded && final(self).error == old(self).error,
                Status::Excluded => final(self).successful == old(self).successful && final(self).excluded@ == uris_insert(old(self).excluded@, response.uri) && final(self).failed
                    == old(self).failed && final(self).timeout == old(self).timeout && final(self).redirected == old(self).redirected && final(self).error == old(self).error,
            },
    {
        self.total = self.total + 1;
        let uri = response.uri;
        match response.status {
            Status::Success(_) => {
                self.successful = self.successful + 1;
            },
            Status::Error(_, code) => {
                match code {
                    Some(_) => insert_uri(&mut self.failed, uri),
                    None => insert_uri(&mut self.error, uri),
                }
            },
            Status::Timeout(_) => insert_uri(&mut self.timeout, uri),
            Status::Redirected(_) => insert_uri(&mut self.redirected, uri),
            Status::Excluded => insert_uri(&mut self.excluded, uri),
        }
    }

    /// The human-readable summary, one count per line. Failures with and
    /// without an HTTP code are reported together as errors.
    pub fn summary_string(&self) -> (r: String)
        requires
            self.wf(),
        ensures
            r@ == spec_summary(*self),
    {
        let mut out = "📝 Summary\n-------------------\n🔍 Total: ".to_owned();
        let d = usize_to_dec(self.total);
        out.append(d.as_str());
        out.append("\n✅ Successful: ");
        let d = usize_to_dec(self.successful);
        out.append(d.as_str());
        out.append("\n⏳ Timeout: ");
        let d = usize_to_dec(self.timeout.len());
        out.append(d.as_str());
        out.append("\n🔀 Redirected: ");
        let d = usize_to_dec(self.redirected.len());
        out.append(d.as_str());
        out.append("\n👻 Excluded: ");
        let d = usize_to_dec(self.excluded.len());
        out.append(d.as_str());
        out.append("\n🚫 Errors: ");
        let d = usize_to_dec(self.error.len() + self.failed.len());
        out.append(d.as_str());
        out.append("\n");
        proof {
            assert(out@ =~= spec_summary(*self));
        }
        out
    }

    /// A run is a success when everything that was counted either succeeded
    /// or was excluded (distinct excluded URIs each count once).
    pub fn is_success(&self) -> (r: bool)
        requires
            self.wf(),
        ensures
            r == (self.total == self.successful + self.excluded@.len()),
    {
        self.total == self.successful + self.excluded.len()
    }
}

} // verus!
