//! The error kinds a check can abort with, and the HTTP status each maps to.
//!
//! Only the contribution-fetch path aborts: a persistence failure degrades
//! into data on an otherwise successful response, and a store failure on the
//! read side is an outcome of its own, so neither appears here.

use vstd::prelude::*;

verus! {

/// Why a check aborted: a required configuration value was absent, the remote
/// API could not be reached, it answered with a non-success status, or its
/// body did not match the expected shape. Each variant carries a descriptive
/// message naming the underlying cause.
#[derive(Debug)]
pub enum CheckError {
    ConfigMissing(String),
    NetworkError(String),
    UpstreamError(String),
    ParseError(String),
}

/// Mathematical image of a [`CheckError`].
pub enum CheckErrorView {
    ConfigMissing(Seq<char>),
    NetworkError(Seq<char>),
    UpstreamError(Seq<char>),
    ParseError(Seq<char>),
}

impl View for CheckError {
    type V = CheckErrorView;

    open spec fn view(&self) -> CheckErrorView {
        match self {
            CheckError::ConfigMissing(m) => CheckErrorView::ConfigMissing(m@),
            CheckError::NetworkError(m) => CheckErrorView::NetworkError(m@),
            CheckError::UpstreamError(m) => CheckErrorView::UpstreamError(m@),
            CheckError::ParseError(m) => CheckErrorView::ParseError(m@),
        }
    }
}

/// The HTTP status a check error is reported with: `502` when the upstream API
/// answered with a non-success status, `500` for everything else.
pub open spec fn spec_http_status(e: CheckErrorView) -> int {
    match e {
        CheckErrorView::UpstreamError(_) => 502,
        _ => 500,
    }
}

/// Maps a check error to the HTTP status it is reported with.
pub fn http_status(e: &CheckError) -> (s: u16)
    ensures
        s as int == spec_http_status(e@),
{
    match e {
        CheckError::UpstreamError(_) => 502,
        _ => 500,
    }
}

/// The descriptive message a check error carries.
pub open spec fn spec_error_message(e: CheckErrorView) -> Seq<char> {
    match e {
        CheckErrorView::ConfigMissing(m) => m,
        CheckErrorView::NetworkError(m) => m,
        CheckErrorView::UpstreamError(m) => m,
        CheckErrorView::ParseError(m) => m,
    }
}

impl CheckError {
    /// The descriptive message this error carries.
    pub fn message(&self) -> (r: &String)
        ensures
            r@ == spec_error_message(self@),
    {
        match self {
            CheckError::ConfigMissing(m) => m,
            CheckError::NetworkError(m) => m,
            CheckError::UpstreamError(m) => m,
            CheckError::ParseError(m) => m,
        }
    }
}

} // verus!
