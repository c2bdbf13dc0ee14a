//! The error of a failed request, with the stage that failed.

use vstd::prelude::*;

verus! {

#[verifier::external_type_specification]
#[verifier::external_body]
pub struct ExHttpError(reqwest::Error);

/// What reqwest::Error::is_decode reports of an error: whether decoding the body failed. It reads
/// only the error's own kind and sources.
pub uninterp spec fn reports_decode(e: reqwest::Error) -> bool;

/// Relies on reqwest::Error::is_decode, which reads only the error itself.
pub assume_specification[ reqwest::Error::is_decode ](e: &reqwest::Error) -> (r: bool)
    ensures
        r == reports_decode(*e),
;

/// What reqwest::Error::is_connect reports of an error: whether connecting failed: a hyper connect error in its chain of sources. It reads
/// only the error's own kind and sources.
pub uninterp spec fn reports_connect(e: reqwest::Error) -> bool;

/// Relies on reqwest::Error::is_connect, which reads only the error itself.
pub assume_specification[ reqwest::Error::is_connect ](e: &reqwest::Error) -> (r: bool)
    ensures
        r == reports_connect(*e),
;

/// What reqwest::Error::is_redirect reports of an error: whether following a redirect failed. It reads
/// only the error's own kind and sources.
pub uninterp spec fn reports_redirect(e: reqwest::Error) -> bool;

/// Relies on reqwest::Error::is_redirect, which reads only the error itself.
pub assume_specification[ reqwest::Error::is_redirect ](e: &reqwest::Error) -> (r: bool)
    ensures
        r == reports_redirect(*e),
;

/// What reqwest::Error::is_request reports of an error: whether sending the request failed. It reads
/// only the error's own kind and sources.
pub uninterp spec fn reports_request(e: reqwest::Error) -> bool;

/// Relies on reqwest::Error::is_request, which reads only the error itself.
pub assume_specification[ reqwest::Error::is_request ](e: &reqwest::Error) -> (r: bool)
    ensures
        r == reports_request(*e),
;

/// What reqwest::Error::is_timeout reports of an error: whether a timeout is in its chain of sources. It reads
/// only the error's own kind and sources.
pub uninterp spec fn reports_timeout(e: reqwest::Error) -> bool;

/// Relies on reqwest::Error::is_timeout, which reads only the error itself.
pub assume_specification[ reqwest::Error::is_timeout ](e: &reqwest::Error) -> (r: bool)
    ensures
        r == reports_timeout(*e),
;

/// What reqwest::Error::is_body reports of an error: whether reading a body failed. It reads
/// only the error's own kind and sources.
pub uninterp spec fn reports_body(e: reqwest::Error) -> bool;

/// Relies on reqwest::Error::is_body, which reads only the error itself.
pub assume_specification[ reqwest::Error::is_body ](e: &reqwest::Error) -> (r: bool)
    ensures
        r == reports_body(*e),
;

/// What reqwest::Error::is_status reports of an error: whether the response had an error status. It reads
/// only the error's own kind and sources.
pub uninterp spec fn reports_status(e: reqwest::Error) -> bool;

/// Relies on reqwest::Error::is_status, which reads only the error itself.
pub assume_specification[ reqwest::Error::is_status ](e: &reqwest::Error) -> (r: bool)
    ensures
        r == reports_status(*e),
;

/// The stage of a request that failed.
#[derive(Clone, Copy, Debug, PartialEq, Eq)]
pub enum ErrorCause {
    /// The body could not be decoded: most often a title with no page.
    Title,
    Connection,
    Redirect,
    Request,
    Response,
}

impl ErrorCause {
    /// The word that names the stage.
    pub open spec fn name(&self) -> Seq<char> {
        match self {
            ErrorCause::Title => "title"@,
            ErrorCause::Connection => "connection"@,
            ErrorCause::Redirect => "redirect"@,
            ErrorCause::Request => "request"@,
            ErrorCause::Response => "response"@,
        }
    }

    /// The word that names the stage.
    pub fn word(&self) -> (r: &'static str)
        ensures
            r@ == self.name(),
    {
        match self {
            ErrorCause::Title => "title",
            ErrorCause::Connection => "connection",
            ErrorCause::Redirect => "redirect",
            ErrorCause::Request => "request",
            ErrorCause::Response => "response",
        }
    }
}

/// What an HTTP error says of itself.
#[derive(Clone, Copy, Debug, PartialEq, Eq)]
pub struct ErrorKinds {
    pub decode: bool,
    pub connect: bool,
    pub redirect: bool,
    pub request: bool,
    pub timeout: bool,
    pub body: bool,
    pub status: bool,
}

/// The stage that an error with kinds `k` is put down to, the first that
/// applies in this order: decoding, connection, redirect, request or
/// timeout, body or status. None applies to an error in building the
/// request.
pub open spec fn cause_of(k: ErrorKinds) -> Option<ErrorCause> {
    if k.decode {
        Some(ErrorCause::Title)
    } else if k.connect {
        Some(ErrorCause::Connection)
    } else if k.redirect {
        Some(ErrorCause::Redirect)
    } else if k.request || k.timeout {
        Some(ErrorCause::Request)
    } else if k.body || k.status {
        Some(ErrorCause::Response)
    } else {
        None
    }
}

/// The stage that an error with kinds `k` is put down to.
pub fn classify(k: ErrorKinds) -> (r: Option<ErrorCause>)
    ensures
        r == cause_of(k),
{
    if k.decode {
        Some(ErrorCause::Title)
    } else if k.connect {
        Some(ErrorCause::Connection)
    } else if k.redirect {
        Some(ErrorCause::Redirect)
    } else if k.request || k.timeout {
        Some(ErrorCause::Request)
    } else if k.body || k.status {
        Some(ErrorCause::Response)
    } else {
        None
    }
}

/// What an error reports of itself.
pub open spec fn kinds_of(e: reqwest::Error) -> ErrorKinds {
    ErrorKinds {
        decode: reports_decode(e),
        connect: reports_connect(e),
        redirect: reports_redirect(e),
        request: reports_request(e),
        timeout: reports_timeout(e),
        body: reports_body(e),
        status: reports_status(e),
    }
}

/// Reads what `err` says of itself.
fn error_kinds(err: &reqwest::Error) -> (r: ErrorKinds)
    ensures
        r == kinds_of(*err),
{
    ErrorKinds {
        decode: err.is_decode(),
        connect: err.is_connect(),
        redirect: err.is_redirect(),
        request: err.is_request(),
        timeout: err.is_timeout(),
        body: err.is_body(),
        status: err.is_status(),
    }
}

/// The stage that `err` is put down to: `classify` of what it says of
/// itself.
fn verify_cause(err: &reqwest::Error) -> (r: Option<ErrorCause>)
    ensures
        r == cause_of(kinds_of(*err)),
{
    classify(error_kinds(err))
}

/// A failed request: the HTTP error, the stage that failed, and the titles
/// that were asked for.
pub struct WikiError {
    err: reqwest::Error,
    cause: Option<ErrorCause>,
    args: Vec<String>,
}

/// The word shown for a stage, where an unknown one counts as the request.
pub open spec fn cause_name(cause: Option<ErrorCause>) -> Seq<char> {
    match cause {
        Some(c) => c.name(),
        None => "request"@,
    }
}

impl WikiError {
    /// The stage that failed, where known.
    pub closed spec fn cause_spec(&self) -> Option<ErrorCause> {
        self.cause
    }

    /// The HTTP error.
    pub closed spec fn err_spec(&self) -> reqwest::Error {
        self.err
    }

    /// The titles that were asked for.
    pub closed spec fn args_spec(&self) -> Seq<String> {
        self.args@
    }

    /// Creates an error for a failed request for `args` at stage `cause`.
    pub fn new(err: reqwest::Error, cause: ErrorCause, args: Vec<String>) -> (r: Self)
        ensures
            r.err_spec() == err,
            r.cause_spec() == Some(cause),
            r.args_spec() == args@,
    {
        WikiError { err, cause: Some(cause), args }
    }

    /// Wraps `err`, putting it down to the stage it names, with no titles.
    pub fn from_http(err: reqwest::Error) -> (r: Self)
        ensures
            r.err_spec() == err,
            r.cause_spec() == cause_of(kinds_of(err)),
            r.args_spec().len() == 0,
    {
        let cause = verify_cause(&err);
        WikiError { err, cause, args: Vec::new() }
    }

    /// The same error, recording `args` as the titles asked for.
    pub fn with_args(self, args: Vec<String>) -> (r: Self)
        ensures
            r.err_spec() == self.err_spec(),
            r.cause_spec() == self.cause_spec(),
            r.args_spec() == args@,
    {
        WikiError { err: self.err, cause: self.cause, args }
    }

    /// The stage that failed, where known.
    pub fn cause(&self) -> (r: Option<ErrorCause>)
        ensures
            r == self.cause_spec(),
    {
        self.cause
    }

    /// The word shown for the stage that failed.
    pub fn cause_word(&self) -> (r: &'static str)
        ensures
            r@ == cause_name(self.cause_spec()),
    {
        match self.cause {
            Some(c) => c.word(),
            None => "request",
        }
    }

    /// The titles that were asked for.
    pub fn args(&self) -> (r: &Vec<String>)
        ensures
            r@ == self.args_spec(),
    {
        &self.args
    }

    /// The HTTP error.
    pub fn http_error(&self) -> (r: &reqwest::Error)
        ensures
            *r == self.err_spec(),
    {
        &self.err
    }
}

} // verus!
