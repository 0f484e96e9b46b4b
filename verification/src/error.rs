//! The error type shared by the whole crate and its JSON-RPC error codes.
use vstd::prelude::*;

use crate::text::cat;

verus! {

/// Everything that can go wrong while answering a request.
#[derive(Debug)]
pub enum GrokSearchError {
    MissingConfig(&'static str),
    InvalidParams(String),
    NotFound(String),
    Timeout(String),
    Provider(String),
    OAuth(String),
    Parse(String),
}

/// The JSON-RPC 2.0 error code of each error kind.
pub open spec fn error_code(e: GrokSearchError) -> int {
    match e {
        GrokSearchError::Parse(_) => -32700,
        GrokSearchError::InvalidParams(_) => -32602,
        GrokSearchError::NotFound(_) => -32004,
        GrokSearchError::Timeout(_) => -32002,
        GrokSearchError::Provider(_) => -32001,
        GrokSearchError::OAuth(_) => -32005,
        GrokSearchError::MissingConfig(_) => -32003,
    }
}

/// The view of an error: its kind and its message.
pub enum ErrorV {
    MissingConfig(Seq<char>),
    InvalidParams(Seq<char>),
    NotFound(Seq<char>),
    Timeout(Seq<char>),
    Provider(Seq<char>),
    OAuth(Seq<char>),
    Parse(Seq<char>),
}

impl View for GrokSearchError {
    type V = ErrorV;

    open spec fn view(&self) -> ErrorV {
        match self {
            GrokSearchError::MissingConfig(s) => ErrorV::MissingConfig(s@),
            GrokSearchError::InvalidParams(s) => ErrorV::InvalidParams(s@),
            GrokSearchError::NotFound(s) => ErrorV::NotFound(s@),
            GrokSearchError::Timeout(s) => ErrorV::Timeout(s@),
            GrokSearchError::Provider(s) => ErrorV::Provider(s@),
            GrokSearchError::OAuth(s) => ErrorV::OAuth(s@),
            GrokSearchError::Parse(s) => ErrorV::Parse(s@),
        }
    }
}

/// The JSON-RPC error code of an error's view.
pub open spec fn kind_code(e: ErrorV) -> int {
    match e {
        ErrorV::Parse(_) => -32700,
        ErrorV::InvalidParams(_) => -32602,
        ErrorV::NotFound(_) => -32004,
        ErrorV::Timeout(_) => -32002,
        ErrorV::Provider(_) => -32001,
        ErrorV::OAuth(_) => -32005,
        ErrorV::MissingConfig(_) => -32003,
    }
}

/// The text an error is shown with: a prefix naming its kind, then its
/// message.
pub open spec fn error_text(e: ErrorV) -> Seq<char> {
    match e {
        ErrorV::MissingConfig(s) => "missing required config: "@ + s,
        ErrorV::InvalidParams(s) => "invalid params: "@ + s,
        ErrorV::NotFound(s) => "not found: "@ + s,
        ErrorV::Timeout(s) => "upstream timeout: "@ + s,
        ErrorV::Provider(s) => "provider error: "@ + s,
        ErrorV::OAuth(s) => "oauth error: "@ + s,
        ErrorV::Parse(s) => "parse error: "@ + s,
    }
}

impl GrokSearchError {
    /// The text the error is shown with.
    pub fn message(&self) -> (m: String)
        ensures
            m@ == error_text(self@),
    {
        let (prefix, body): (&str, &str) = match self {
            GrokSearchError::MissingConfig(s) => ("missing required config: ", *s),
            GrokSearchError::InvalidParams(s) => ("invalid params: ", s.as_str()),
            GrokSearchError::NotFound(s) => ("not found: ", s.as_str()),
            GrokSearchError::Timeout(s) => ("upstream timeout: ", s.as_str()),
            GrokSearchError::Provider(s) => ("provider error: ", s.as_str()),
            GrokSearchError::OAuth(s) => ("oauth error: ", s.as_str()),
            GrokSearchError::Parse(s) => ("parse error: ", s.as_str()),
        };
        cat(prefix, body)
    }

    /// JSON-RPC 2.0 error code mapping: the standard codes for parse errors
    /// and invalid params, server-defined codes for the rest.
    pub fn code(&self) -> (c: i32)
        ensures
            c == error_code(*self),
            c == kind_code(self@),
    {
        match self {
            GrokSearchError::Parse(_) => -32700,
            GrokSearchError::InvalidParams(_) => -32602,
            GrokSearchError::NotFound(_) => -32004,
            GrokSearchError::Timeout(_) => -32002,
            GrokSearchError::Provider(_) => -32001,
            GrokSearchError::OAuth(_) => -32005,
            GrokSearchError::MissingConfig(_) => -32003,
        }
    }
}

/// Every error code lies in the JSON-RPC range reserved for implementations
/// or is one of the two standard codes, and distinct kinds get distinct codes.
pub proof fn law_error_codes_distinct(a: GrokSearchError, b: GrokSearchError)
    ensures
        error_code(a) < 0,
        (error_code(a) == error_code(b)) <==> (a is MissingConfig && b is MissingConfig) || (
        a is InvalidParams && b is InvalidParams) || (a is NotFound && b is NotFound) || (
        a is Timeout && b is Timeout) || (a is Provider && b is Provider) || (a is OAuth
            && b is OAuth) || (a is Parse && b is Parse),
{
}

} // verus!
