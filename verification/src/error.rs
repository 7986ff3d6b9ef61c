//! The error that request handling reports, and what of it a caller may see.

use vstd::prelude::*;

use crate::extractors::SiteIdentity;
use crate::text::{copy_opt, opt_str_view, opt_view, starts_with};

verus! {

pub const BAD_REQUEST: u16 = 400;

pub const UNAUTHORIZED: u16 = 401;

pub const NOT_FOUND: u16 = 404;

pub const INTERNAL_SERVER_ERROR: u16 = 500;

/// A failed request: the status to answer with, an optional message for the
/// caller, and the real cause, which is for operators only.
#[derive(Debug, Clone, PartialEq, Eq)]
pub struct AppError {
    pub status: u16,
    pub message: Option<String>,
    pub debug: Option<String>,
    pub is_local: bool,
}

/// An error as contracts see it.
pub ghost struct AppErrorView {
    pub status: u16,
    pub message: Option<Seq<char>>,
    pub debug: Option<Seq<char>>,
    pub is_local: bool,
}

impl View for AppError {
    type V = AppErrorView;

    open spec fn view(&self) -> AppErrorView {
        AppErrorView {
            status: self.status,
            message: opt_view(self.message),
            debug: opt_view(self.debug),
            is_local: self.is_local,
        }
    }
}

/// What a caller is told of a failed request.
#[derive(Debug, Clone, PartialEq, Eq)]
pub struct ErrorBody {
    pub code: u16,
    pub status: String,
    pub message: Option<String>,
    pub debug: Option<String>,
}

/// An answer as contracts see it.
pub ghost struct ErrorBodyView {
    pub code: u16,
    pub status: Seq<char>,
    pub message: Option<Seq<char>>,
    pub debug: Option<Seq<char>>,
}

impl View for ErrorBody {
    type V = ErrorBodyView;

    open spec fn view(&self) -> ErrorBodyView {
        ErrorBodyView {
            code: self.code,
            status: self.status@,
            message: opt_view(self.message),
            debug: opt_view(self.debug),
        }
    }
}

/// The standard reason phrase of an HTTP status code, `None` for a code
/// that has none.
pub uninterp spec fn canonical_reason(status: u16) -> Option<Seq<char>>;

/// Calls `StatusCode::canonical_reason` of the http crate, as axum hands it
/// on, for the status code made by `StatusCode::from_u16`. Trusted: the
/// phrase depends on the code alone, and a number that is no status code
/// has none.
#[verifier::external_body]
fn reason_phrase(status: u16) -> (r: Option<&'static str>)
    ensures
        opt_str_view(r) == canonical_reason(status),
{
    axum::http::StatusCode::from_u16(status).ok().and_then(|code| code.canonical_reason())
}

/// The answer for an error, given the reason phrase of its status: the
/// real cause is handed out to local sites only.
pub open spec fn spec_body(e: AppErrorView, reason: Option<Seq<char>>) -> ErrorBodyView {
    ErrorBodyView {
        code: e.status,
        status: match reason {
            Some(phrase) => phrase,
            None => "Unknown"@,
        },
        message: e.message,
        debug: if e.is_local {
            e.debug
        } else {
            None
        },
    }
}

/// An error that carries nothing but its status.
pub open spec fn bare(status: u16) -> AppErrorView {
    AppErrorView { status, message: None, debug: None, is_local: false }
}

/// The domain names a host on the local machine.
pub open spec fn spec_is_local(domain: Seq<char>) -> bool {
    "localhost"@.is_prefix_of(domain) || "127.0.0.1"@.is_prefix_of(domain)
}

/// Decides whether a domain names a host on the local machine.
pub fn is_local(domain: &str) -> (r: bool)
    ensures
        r == spec_is_local(domain@),
{
    starts_with(domain, "localhost") || starts_with(domain, "127.0.0.1")
}

impl AppError {
    /// An error with just a status code.
    pub fn new(status: u16) -> (r: Self)
        ensures
            r@ == bare(status),
    {
        AppError { status, message: None, debug: None, is_local: false }
    }

    /// Sets the message shown to the caller.
    pub fn with_message(self, message: String) -> (r: Self)
        ensures
            r@ == (AppErrorView { message: Some(message@), ..self@ }),
    {
        AppError {
            status: self.status,
            message: Some(message),
            debug: self.debug,
            is_local: self.is_local,
        }
    }

    /// Attaches the real cause.
    pub fn with_debug(self, debug: String) -> (r: Self)
        ensures
            r@ == (AppErrorView { debug: Some(debug@), ..self@ }),
    {
        AppError {
            status: self.status,
            message: self.message,
            debug: Some(debug),
            is_local: self.is_local,
        }
    }

    /// Records whether the request came through a local site, the only
    /// kind that may see the real cause.
    pub fn at_site(self, site: &SiteIdentity) -> (r: Self)
        ensures
            r@ == (AppErrorView { is_local: spec_is_local(site.domain@), ..self@ }),
    {
        let local = is_local(site.domain.as_str());
        AppError { status: self.status, message: self.message, debug: self.debug, is_local: local }
    }

    /// The error for a failure of the database, whose text is kept for
    /// operators.
    pub fn database(detail: String) -> (r: Self)
        ensures
            r@ == (AppErrorView {
                message: Some("A database error occurred"@),
                debug: Some(detail@),
                ..bare(INTERNAL_SERVER_ERROR)
            }),
    {
        Self::new(INTERNAL_SERVER_ERROR).with_message(
            "A database error occurred".to_owned(),
        ).with_debug(detail)
    }

    /// The error for any other failure, whose text is kept for operators.
    pub fn unexpected(detail: String) -> (r: Self)
        ensures
            r@ == (AppErrorView {
                message: Some("An unexpected system error occurred"@),
                debug: Some(detail@),
                ..bare(INTERNAL_SERVER_ERROR)
            }),
    {
        Self::new(INTERNAL_SERVER_ERROR).with_message(
            "An unexpected system error occurred".to_owned(),
        ).with_debug(detail)
    }

    /// What a caller is told of this error, given the reason phrase of its
    /// status.
    pub fn body_with_reason(&self, reason: Option<&str>) -> (r: ErrorBody)
        ensures
            r@ == spec_body(self@, opt_str_view(reason)),
    {
        let status = match reason {
            Some(phrase) => phrase.to_owned(),
            None => "Unknown".to_owned(),
        };
        let debug = if self.is_local {
            copy_opt(&self.debug)
        } else {
            None
        };
        ErrorBody { code: self.status, status, message: copy_opt(&self.message), debug }
    }

    /// What a caller is told of this error.
    pub fn body(&self) -> (r: ErrorBody)
        ensures
            r@ == spec_body(self@, canonical_reason(self.status)),
    {
        self.body_with_reason(reason_phrase(self.status))
    }

    pub fn bad_request() -> (r: Self)
        ensures
            r@ == bare(BAD_REQUEST),
    {
        Self::new(BAD_REQUEST)
    }

    pub fn not_found() -> (r: Self)
        ensures
            r@ == bare(NOT_FOUND),
    {
        Self::new(NOT_FOUND)
    }

    pub fn unauthorized() -> (r: Self)
        ensures
            r@ == bare(UNAUTHORIZED),
    {
        Self::new(UNAUTHORIZED)
    }
}

} // verus!
