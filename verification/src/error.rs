//! The error taxonomy. Per-request errors are folded into `Status::Error`;
//! only configuration errors escape the builder.

use vstd::prelude::*;

use crate::status::Status;
use crate::uri::Uri;

verus! {

/// Kinds of errors surfaced by the checker and its collaborators.
#[derive(Debug)]
pub enum ErrorKind {
    /// An I/O error while reading from a path (present only when reading
    /// files) or from another source.
    Io(Option<String>, String),
    /// A transport-level failure, rendered as text.
    Network(String),
    /// A provider-API failure, rendered as text.
    Provider(String),
    /// The input could not be interpreted as a URL (second field) nor, where
    /// one was tried, as a mail address (third field).
    UrlParse(String, String, Option<String>),
    /// The URI cannot be converted to a file path.
    InvalidFileUri(Uri),
    /// The path cannot be converted to a URI.
    InvalidPath(String),
    /// The mail address is unreachable.
    UnreachableEmailAddress(Uri),
    /// A header value was rejected.
    InvalidHeader(String),
    /// The string is not a valid base URL or base directory.
    InvalidBase(String, String),
    /// A local file could not be found.
    FileNotFound(String),
    /// A UNIX glob pattern is invalid.
    InvalidGlobPattern(String),
    /// The provider API could not be called because no token is configured.
    MissingProviderToken,
}

/// The human-readable rendering of each error kind.
pub open spec fn spec_message(e: ErrorKind) -> Seq<char> {
    match e {
        ErrorKind::Io(p, cause) => match p {
            Some(path) => "Failed to read file: `"@ + path@ + "`, reason: "@ + cause@,
            None => cause@,
        },
        ErrorKind::Network(cause) => cause@,
        ErrorKind::Provider(cause) => cause@,
        ErrorKind::UrlParse(input, url_err, mail_err) => match mail_err {
            Some(me) => "Cannot parse "@ + input@ + " as website url ("@ + url_err@
                + ") or mail address ("@ + me@ + ")"@,
            None => "Cannot parse "@ + input@ + " as website url ("@ + url_err@ + ")"@,
        },
        ErrorKind::InvalidFileUri(u) => "Invalid file URI: "@ + u.text_view(),
        ErrorKind::InvalidPath(p) => "Invalid path: "@ + p@,
        ErrorKind::UnreachableEmailAddress(u) => "Unreachable mail address: "@ + u.text_view(),
        ErrorKind::InvalidHeader(cause) => cause@,
        ErrorKind::InvalidBase(base, cause) => "Error with base dir `"@ + base@ + "` : "@ + cause@,
        ErrorKind::FileNotFound(p) => p@,
        ErrorKind::InvalidGlobPattern(cause) => cause@,
        ErrorKind::MissingProviderToken => {
            "Provider token not specified. To check provider links reliably, configure a token."@
        },
    }
}

impl ErrorKind {
    /// Render the error as text.
    pub fn message(&self) -> (r: String)
        ensures
            r@ == spec_message(*self),
    {
        match self {
            ErrorKind::Io(p, cause) => match p.as_ref() {
                Some(path) => {
                    let mut out = "Failed to read file: `".to_owned();
                    out.append(path.as_str());
                    out.append("`, reason: ");
                    out.append(cause.as_str());
                    proof {
                        assert(out@ =~= spec_message(*self));
                    }
                    out
                },
                None => cause.clone(),
            },
            ErrorKind::Network(cause) => cause.clone(),
            ErrorKind::Provider(cause) => cause.clone(),
            ErrorKind::UrlParse(input, url_err, mail_err) => {
                let mut out = "Cannot parse ".to_owned();
                out.append(input.as_str());
                out.append(" as website url (");
                out.append(url_err.as_str());
                match mail_err.as_ref() {
                    Some(me) => {
                        out.append(") or mail address (");
                        out.append(me.as_str());
                        out.append(")");
                    },
                    None => {
                        out.append(")");
                    },
                }
                proof {
                    assert(out@ =~= spec_message(*self));
                }
                out
            },
            ErrorKind::InvalidFileUri(u) => {
                let mut out = "Invalid file URI: ".to_owned();
                out.append(u.as_str());
                proof {
                    assert(out@ =~= spec_message(*self));
                }
                out
            },
            ErrorKind::InvalidPath(p) => {
                let mut out = "Invalid path: ".to_owned();
                out.append(p.as_str());
                proof {
                    assert(out@ =~= spec_message(*self));
                }
                out
            },
            ErrorKind::UnreachableEmailAddress(u) => {
                let mut out = "Unreachable mail address: ".to_owned();
                out.append(u.as_str());
                proof {
                    assert(out@ =~= spec_message(*self));
                }
                out
            },
            ErrorKind::InvalidHeader(cause) => cause.clone(),
            ErrorKind::InvalidBase(base, cause) => {
                let mut out = "Error with base dir `".to_owned();
                out.append(base.as_str());
                out.append("` : ");
                out.append(cause.as_str());
                proof {
                    assert(out@ =~= spec_message(*self));
                }
                out
            },
            ErrorKind::FileNotFound(p) => p.clone(),
            ErrorKind::InvalidGlobPattern(cause) => cause.clone(),
            ErrorKind::MissingProviderToken => {
                "Provider token not specified. To check provider links reliably, configure a token.".to_owned()
            },
        }
    }

    /// Fold the error into a `Status`: per-request errors never escape a
    /// check; they surface as a failed status carrying the rendered message.
    pub fn to_status(&self) -> (r: Status)
        ensures
            r matches Status::Error(m, c) && m@ == spec_message(*self) && c is None,
    {
        Status::Error(self.message(), None)
    }
}

} // verus!
