//! The error taxonomy of the library, and the verified classification of an
//! HTTP response status into success or a typed error.

use reqwest::Error as ReqwestTransportError;
use vstd::prelude::*;
use vstd::string::StringExecFns;

verus! {

/// Declaration of `reqwest::Error`, the transport error type carried
/// opaquely inside [`Kind::ReqwestError`].
#[verifier::external_type_specification]
#[verifier::external_body]
pub struct ExReqwestError(ReqwestTransportError);

/// An error that can occur in this library.
///
/// Usually errors arise when sending a request to the SolarEdge server or
/// when parsing the response from the server.
#[derive(Debug)]
pub struct Error {
    kind: Kind,
}

/// The different kinds of errors that can occur.
#[derive(Debug)]
#[non_exhaustive]
pub enum Kind {
    /// An error returned from the reqwest crate.
    ReqwestError(reqwest::Error),
    /// HTTP error from sending a request: the canonical reason phrase (or
    /// the numeric status when no canonical phrase exists) and the raw
    /// response body text.
    HttpErrorStatus(String, String),
    /// A bulk site id list was set with fewer than 1 or more than 100 ids.
    InvalidBulkList,
    /// A bulk request was sent without a bulk site id list.
    MissingBulkList,
}

impl Error {
    /// The kind of this error.
    pub closed spec fn kind_spec(&self) -> Kind {
        self.kind
    }

    pub(crate) fn new(kind: Kind) -> (e: Error)
        ensures
            e.kind_spec() == kind,
    {
        Error { kind }
    }

    /// Convenience function for getting the kind of error.
    pub fn kind(&self) -> (k: &Kind)
        ensures
            *k == self.kind_spec(),
    {
        &self.kind
    }

    /// A short fixed description of the error's kind.
    pub fn description(&self) -> (r: &'static str)
        ensures
            self.kind_spec() matches Kind::ReqwestError(_) ==> r@ == "Reqwest error"@,
            self.kind_spec() matches Kind::HttpErrorStatus(_, _) ==> r@ == "HTTP error"@,
            self.kind_spec() is InvalidBulkList ==> r@ == "Invalid bulk list"@,
            self.kind_spec() is MissingBulkList ==> r@ == "Missing bulk list"@,
    {
        match &self.kind {
            Kind::ReqwestError(_) => "Reqwest error",
            Kind::HttpErrorStatus(_, _) => "HTTP error",
            Kind::InvalidBulkList => "Invalid bulk list",
            Kind::MissingBulkList => "Missing bulk list",
        }
    }

    /// A human-readable message for the error, in place of `Display`.
    pub fn message(&self) -> (r: String)
        ensures
            self.kind_spec() matches Kind::ReqwestError(_) ==> (exists|t: Seq<char>|
                r@ == "Reqwest Error: HTTP status-code"@ + t),
            self.kind_spec() matches Kind::HttpErrorStatus(s, t) ==> r@ == "HTTP error: "@ + s@
                + ": "@ + t@,
            self.kind_spec() is InvalidBulkList ==> r@
                == "Bulk list error: the list must hold 1 to 100 site ids"@,
            self.kind_spec() is MissingBulkList ==> r@
                == "Bulk list error: no bulk list was set"@,
    {
        match &self.kind {
            Kind::ReqwestError(e) => {
                let mut m = "Reqwest Error: HTTP status-code".to_owned();
                let t = reqwest_error_text(e);
                m.append(t.as_str());
                proof {
                    assert(m@ == "Reqwest Error: HTTP status-code"@ + t@);
                }
                m
            },
            Kind::HttpErrorStatus(s, t) => {
                let mut m = "HTTP error: ".to_owned();
                m.append(s.as_str());
                m.append(": ");
                m.append(t.as_str());
                m
            },
            Kind::InvalidBulkList => {
                "Bulk list error: the list must hold 1 to 100 site ids".to_owned()
            },
            Kind::MissingBulkList => "Bulk list error: no bulk list was set".to_owned(),
        }
    }
}

/// Relies on the `Display` impl of `reqwest::Error` for the text of a
/// transport error; nothing is assumed about the text.
#[verifier::external_body]
fn reqwest_error_text(e: &reqwest::Error) -> (r: String) {
    format!("{}", e)
}

impl From<reqwest::Error> for Error {
    /// Wraps a transport error of the HTTP stack.
    fn from(e: reqwest::Error) -> (r: Error) {
        Error { kind: Kind::ReqwestError(e) }
    }
}

impl vstd::std_specs::convert::FromSpecImpl<reqwest::Error> for Error {
    open spec fn obeys_from_spec() -> bool {
        true
    }

    closed spec fn from_spec(e: reqwest::Error) -> Error {
        Error { kind: Kind::ReqwestError(e) }
    }
}

/// Classifies a received HTTP response status, as the dispatcher does: a
/// success status lets the body be decoded; any other status becomes
/// [`Kind::HttpErrorStatus`] holding the canonical reason phrase (or the
/// numeric status code when no canonical phrase exists) and the raw
/// response body text (or the empty string when it could not be read).
/// The error body is never decoded as JSON.
pub fn check_http_status(
    is_success: bool,
    canonical_reason: Option<&str>,
    status_code: &str,
    body: Option<String>,
) -> (r: Result<(), Error>)
    ensures
        r is Ok <==> is_success,
        !is_success ==> (r matches Err(e) && e.kind_spec() matches Kind::HttpErrorStatus(
            reason,
            text,
        ) && reason@ == (match canonical_reason {
            Some(c) => c@,
            None => status_code@,
        }) && text@ == (match body {
            Some(b) => b@,
            None => Seq::<char>::empty(),
        })),
{
    if is_success {
        Ok(())
    } else {
        let reason = match canonical_reason {
            Some(c) => c.to_owned(),
            None => status_code.to_owned(),
        };
        let text = match body {
            Some(b) => b,
            None => String::new(),
        };
        Err(Error::new(Kind::HttpErrorStatus(reason, text)))
    }
}

} // verus!
