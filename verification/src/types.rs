//! Requests and responses: a request pairs a URI with the source it was
//! extracted from; a response adds the final status.

use vstd::prelude::*;

use crate::error::ErrorKind;
use crate::status::Status;
use crate::strutil::{dec_of, u16_to_dec};
use crate::uri::{parseable, parses_to, Uri};

verus! {

/// Where a URI came from, carried through so each response can be traced
/// back to its source.
#[derive(Debug, Clone)]
pub enum Input {
    /// A remote document.
    RemoteUrl(String),
    /// A file on disk.
    FsPath(String),
    /// Standard input.
    Stdin,
    /// A raw string given directly.
    Literal(String),
}

impl Input {
    /// An equal input, field by field.
    pub fn duplicate(&self) -> (r: Input)
        ensures
            r == *self,
    {
        match self {
            Input::RemoteUrl(s) => Input::RemoteUrl(s.clone()),
            Input::FsPath(s) => Input::FsPath(s.clone()),
            Input::Stdin => Input::Stdin,
            Input::Literal(s) => Input::Literal(s.clone()),
        }
    }
}

/// One URI to check, with its origin.
#[derive(Debug, Clone)]
pub struct Request {
    /// The URI to check.
    pub uri: Uri,
    /// Where the URI came from.
    pub source: Input,
    /// How many recursion steps away from the original input the URI was
    /// found.
    pub recursion_level: usize,
}

impl Request {
    /// Pair a URI with its source.
    pub fn new(uri: Uri, source: Input, recursion_level: usize) -> (r: Request)
        ensures
            r.uri == uri,
            r.source == source,
            r.recursion_level == recursion_level,
    {
        Request { uri, source, recursion_level }
    }

    /// Interpret a raw string as a request: the URI is parsed from it and the
    /// source is the string itself.
    pub fn from_str(s: &str) -> (r: Result<Request, ErrorKind>)
        ensures
            r is Ok <==> parseable(s@),
            r matches Ok(req) ==> parses_to(s@, req.uri) && req.uri.wf() && (
            req.source matches Input::Literal(l) && l@ == s@) && req.recursion_level == 0,
            r matches Err(e) ==> (e matches ErrorKind::UrlParse(input, _, _) && input@ == s@),
    {
        match Uri::parse(s) {
            Ok(uri) => Ok(Request { uri, source: Input::Literal(s.to_owned()), recursion_level: 0 }),
            Err(e) => Err(e),
        }
    }
}

/// The outcome of checking one URI.
#[derive(Debug, Clone)]
pub struct Response {
    /// The URI that was checked.
    pub uri: Uri,
    /// How the check ended.
    pub status: Status,
    /// Where the URI came from.
    pub source: Input,
    /// Carried over from the request.
    pub recursion_level: usize,
}

impl Response {
    /// Pair the checked URI with its status and origin.
    pub fn new(uri: Uri, status: Status, source: Input, recursion_level: usize) -> (r: Response)
        ensures
            r.uri == uri,
            r.status == status,
            r.source == source,
            r.recursion_level == recursion_level,
    {
        Response { uri, status, source, recursion_level }
    }

    /// The status of the response.
    pub fn status(&self) -> (r: &Status)
        ensures
            r == self.status,
    {
        &self.status
    }

    /// One report line: the status icon, the URI, and the code or reason.
    pub fn to_display_string(&self) -> (r: String)
        ensures
            r@ == spec_response_line(*self),
    {
        let mut out = self.status.icon().to_owned();
        out.append(" ");
        out.append(self.uri.as_str());
        match &self.status {
            Status::Success(c) => {
                out.append(" [");
                let d = u16_to_dec(*c);
                out.append(d.as_str());
                out.append("]");
            },
            Status::Redirected(c) => {
                out.append(" [");
                let d = u16_to_dec(*c);
                out.append(d.as_str());
                out.append("]");
            },
            Status::Timeout(Some(c)) => {
                out.append(" [");
                let d = u16_to_dec(*c);
                out.append(d.as_str());
                out.append("]");
            },
            Status::Error(e, code) => {
                out.append(" (");
                match code {
                    Some(c) => {
                        let d = u16_to_dec(*c);
                        out.append(d.as_str());
                    },
                    None => {
                        out.append(e.as_str());
                    },
                }
                out.append(")");
            },
            _ => {},
        }
        proof {
            assert(out@ =~= spec_response_line(*self));
        }
        out
    }
}

/// The status icon of a report line.
pub open spec fn spec_icon(s: Status) -> Seq<char> {
    match s {
        Status::Success(_) => "✔"@,
        Status::Redirected(_) => "⇄️"@,
        Status::Excluded => "?"@,
        Status::Error(_, _) => "✗"@,
        Status::Timeout(_) => "⧖"@,
    }
}

/// The code-or-reason tail of a report line: the HTTP code in brackets for
/// successes, redirects and timeouts that saw one; the code, or failing that
/// the reason, in parentheses for errors; nothing else.
pub open spec fn spec_response_metadata(s: Status) -> Seq<char> {
    match s {
        Status::Success(c) => " ["@ + dec_of(c as nat) + "]"@,
        Status::Redirected(c) => " ["@ + dec_of(c as nat) + "]"@,
        Status::Timeout(code) => match code {
            Some(c) => " ["@ + dec_of(c as nat) + "]"@,
            None => Seq::empty(),
        },
        Status::Error(e, code) => match code {
            Some(c) => " ("@ + dec_of(c as nat) + ")"@,
            None => " ("@ + e@ + ")"@,
        },
        Status::Excluded => Seq::empty(),
    }
}

/// One report line for a response.
pub open spec fn spec_response_line(r: Response) -> Seq<char> {
    spec_icon(r.status) + " "@ + r.uri.text_view() + spec_response_metadata(r.status)
}

} // verus!
