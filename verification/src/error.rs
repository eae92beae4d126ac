//! The error kinds a caller can receive: transport failures, non-success
//! HTTP statuses, bodies or events that do not match the expected schema,
//! and JSON-mode content that is not valid JSON.  All are recoverable
//! values; nothing here aborts the process.

use vstd::prelude::*;

verus! {

/// A typed, recoverable error.
#[derive(Debug, PartialEq, Eq)]
pub enum ApiError {
    /// A connection or I/O failure reported by the HTTP layer.
    Transport(String),
    /// A non-success HTTP status, with the status code and the raw body.
    HttpStatus(u16, String),
    /// A body or event payload that does not match the expected schema.
    Deserialization(String),
    /// JSON-mode text content that is not valid JSON.
    ContentParse(String),
}

impl ApiError {
    /// A short name of the error kind, for logs and messages.
    pub fn kind_name(&self) -> (r: &'static str)
        ensures
            self is Transport ==> r@ == "transport error"@,
            self is HttpStatus ==> r@ == "http status error"@,
            self is Deserialization ==> r@ == "deserialization error"@,
            self is ContentParse ==> r@ == "content parse error"@,
    {
        match self {
            ApiError::Transport(_) => "transport error",
            ApiError::HttpStatus(_, _) => "http status error",
            ApiError::Deserialization(_) => "deserialization error",
            ApiError::ContentParse(_) => "content parse error",
        }
    }
}

} // verus!
