//! Output formats and the error type shared by every operation.

use vstd::prelude::*;
use crate::text::{push_str, string_from_chars};

verus! {

/// Controls how CLI commands format their output.
#[derive(Debug, Clone, Copy, PartialEq, Eq, Structural)]
pub enum OutputFormat {
    /// Human-readable text.
    Human,
    /// Compact single-line JSON.
    Json,
    /// Indented, pretty-printed JSON.
    PrettyJson,
}

/// Error type for all fallible operations.
#[derive(Debug, Clone, PartialEq, Eq)]
pub enum Error {
    /// Failed to connect to the Wayland display.
    Connect(String),
    /// A required Wayland protocol is not advertised by the compositor.
    ProtocolNotAvailable(String),
    /// No workspace or window matched the given selector.
    NotFound(String),
    /// The selector matched more than one item.
    AmbiguousMatch(String),
    /// Any other runtime error.
    Other(String),
}

/// An error as plain values: its kind and message characters.
pub enum ErrorView {
    Connect(Seq<char>),
    ProtocolNotAvailable(Seq<char>),
    NotFound(Seq<char>),
    AmbiguousMatch(Seq<char>),
    Other(Seq<char>),
}

impl View for Error {
    type V = ErrorView;

    open spec fn view(&self) -> ErrorView {
        match self {
            Error::Connect(s) => ErrorView::Connect(s@),
            Error::ProtocolNotAvailable(s) => ErrorView::ProtocolNotAvailable(s@),
            Error::NotFound(s) => ErrorView::NotFound(s@),
            Error::AmbiguousMatch(s) => ErrorView::AmbiguousMatch(s@),
            Error::Other(s) => ErrorView::Other(s@),
        }
    }
}

/// A result with its error taken by view.
pub open spec fn result_view<T>(r: Result<T, Error>) -> Result<T, ErrorView> {
    match r {
        Ok(t) => Ok(t),
        Err(e) => Err(e@),
    }
}

/// The user-facing rendering of an error.
pub open spec fn spec_error_message(e: Error) -> Seq<char> {
    match e {
        Error::Connect(s) => "failed to connect to Wayland display: "@ + s@,
        Error::ProtocolNotAvailable(s) => "protocol not available: "@ + s@,
        Error::NotFound(s) => "not found: "@ + s@,
        Error::AmbiguousMatch(s) => "ambiguous match: "@ + s@,
        Error::Other(s) => s@,
    }
}

impl Error {
    /// The user-facing rendering of the error (what `Display` prints).
    pub fn message(&self) -> (r: String)
        ensures
            r@ == spec_error_message(*self),
    {
        let mut v: Vec<char> = Vec::new();
        match self {
            Error::Connect(s) => {
                push_str(&mut v, "failed to connect to Wayland display: ");
                push_str(&mut v, s.as_str());
            },
            Error::ProtocolNotAvailable(s) => {
                push_str(&mut v, "protocol not available: ");
                push_str(&mut v, s.as_str());
            },
            Error::NotFound(s) => {
                push_str(&mut v, "not found: ");
                push_str(&mut v, s.as_str());
            },
            Error::AmbiguousMatch(s) => {
                push_str(&mut v, "ambiguous match: ");
                push_str(&mut v, s.as_str());
            },
            Error::Other(s) => {
                push_str(&mut v, s.as_str());
            },
        }
        assert(v@ =~= spec_error_message(*self));
        string_from_chars(&v)
    }
}

/// Builds an `Error::Other` from a literal message.
pub fn other_error(msg: &str) -> (e: Error)
    ensures
        e matches Error::Other(s) && s@ == msg@,
{
    Error::Other(crate::text::to_owned_string(msg))
}

/// Builds an `Error::ProtocolNotAvailable` from a literal message.
pub fn protocol_error(msg: &str) -> (e: Error)
    ensures
        e matches Error::ProtocolNotAvailable(s) && s@ == msg@,
{
    Error::ProtocolNotAvailable(crate::text::to_owned_string(msg))
}

/// Builds an `Error::NotFound` from a literal message.
pub fn not_found_error(msg: &str) -> (e: Error)
    ensures
        e matches Error::NotFound(s) && s@ == msg@,
{
    Error::NotFound(crate::text::to_owned_string(msg))
}

} // verus!

verus! {

/// What a query command prints: human lines, or the reports to serialize
/// as compact or pretty JSON.
#[derive(Debug, Clone, PartialEq, Eq)]
pub enum Report<T> {
    Lines(Vec<String>),
    Json(Vec<T>),
    PrettyJson(Vec<T>),
}

} // verus!
