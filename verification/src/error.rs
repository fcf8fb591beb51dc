//! The one error taxonomy that every engine reports through.

use vstd::prelude::*;
use crate::types::opt_text;

verus! {

/// Why a search call failed. Every variant is terminal for the call that
/// raised it; nothing is retried.
#[derive(Debug, PartialEq, Eq)]
pub enum Error {
    /// The transport could not complete the round trip.
    Transport(String),
    /// The upstream answered with a status outside 200..=299.
    HttpStatus { status: u16, body: Option<String> },
    /// The upstream served an anti-automation or maintenance page.
    UpstreamChallenge(String),
    /// The caller's base64 input is malformed.
    Decode(String),
    /// The response does not have the expected shape.
    Extraction(String),
    /// A JSON API reported a negative status.
    UpstreamApi { code: i64, message: String },
}

/// The kind of an error, without its payload.
#[derive(Debug, Clone, Copy, PartialEq, Eq, Structural)]
pub enum ErrorKind {
    Transport,
    HttpStatus,
    UpstreamChallenge,
    Decode,
    Extraction,
    UpstreamApi,
}

/// What the contracts say of an error: its kind, for `HttpStatus` the
/// status and the body, for `UpstreamApi` the code and the message. The
/// wording of the other errors is left open.
pub ghost struct ErrorView {
    pub kind: ErrorKind,
    pub status: Option<u16>,
    pub body: Option<Seq<char>>,
    pub api: Option<(i64, Seq<char>)>,
}

/// An error of the kind `kind` that carries no status and no upstream
/// message.
pub open spec fn failure(kind: ErrorKind) -> ErrorView {
    ErrorView { kind, status: None, body: None, api: None }
}

/// The error for a response with the status `status` and the body `body`.
pub open spec fn status_error(status: u16, body: Seq<char>) -> ErrorView {
    ErrorView { kind: ErrorKind::HttpStatus, status: Some(status), body: Some(body), api: None }
}

/// The error for the upstream's own code and message.
pub open spec fn api_error(code: i64, message: Seq<char>) -> ErrorView {
    ErrorView { kind: ErrorKind::UpstreamApi, status: None, body: None, api: Some((code, message)) }
}

impl View for Error {
    type V = ErrorView;

    open spec fn view(&self) -> ErrorView {
        match *self {
            Error::HttpStatus { status, body } => ErrorView {
                kind: ErrorKind::HttpStatus,
                status: Some(status),
                body: opt_text(body),
                api: None,
            },
            Error::UpstreamApi { code, message } => api_error(code, message@),
            Error::Transport(_) => failure(ErrorKind::Transport),
            Error::UpstreamChallenge(_) => failure(ErrorKind::UpstreamChallenge),
            Error::Decode(_) => failure(ErrorKind::Decode),
            Error::Extraction(_) => failure(ErrorKind::Extraction),
        }
    }
}

impl Error {
    /// The kind of this error.
    pub open spec fn spec_kind(&self) -> ErrorKind {
        match *self {
            Error::Transport(_) => ErrorKind::Transport,
            Error::HttpStatus { .. } => ErrorKind::HttpStatus,
            Error::UpstreamChallenge(_) => ErrorKind::UpstreamChallenge,
            Error::Decode(_) => ErrorKind::Decode,
            Error::Extraction(_) => ErrorKind::Extraction,
            Error::UpstreamApi { .. } => ErrorKind::UpstreamApi,
        }
    }

    /// The kind of this error.
    #[verifier::when_used_as_spec(spec_kind)]
    pub fn kind(&self) -> (k: ErrorKind)
        ensures
            k == self.spec_kind(),
    {
        match self {
            Error::Transport(_) => ErrorKind::Transport,
            Error::HttpStatus { .. } => ErrorKind::HttpStatus,
            Error::UpstreamChallenge(_) => ErrorKind::UpstreamChallenge,
            Error::Decode(_) => ErrorKind::Decode,
            Error::Extraction(_) => ErrorKind::Extraction,
            Error::UpstreamApi { .. } => ErrorKind::UpstreamApi,
        }
    }

    /// The HTTP status that an `HttpStatus` error carries.
    pub open spec fn spec_status(&self) -> Option<u16> {
        match *self {
            Error::HttpStatus { status, .. } => Some(status),
            _ => None,
        }
    }

    /// The HTTP status that an `HttpStatus` error carries.
    #[verifier::when_used_as_spec(spec_status)]
    pub fn status(&self) -> (s: Option<u16>)
        ensures
            s == self.spec_status(),
    {
        match self {
            Error::HttpStatus { status, .. } => Some(*status),
            _ => None,
        }
    }

    /// How the error reads: what kind it is, then what it carries.
    pub open spec fn description(&self) -> Seq<char> {
        match *self {
            Error::Transport(m) => "Transport error: "@ + m@,
            Error::HttpStatus { status, .. } => "HTTP status "@ + crate::text::decimal(
                status as nat,
            ),
            Error::UpstreamChallenge(m) => "The upstream blocked the request: "@ + m@,
            Error::Decode(m) => "Base64 decode error: "@ + m@,
            Error::Extraction(m) => "Invalid response: "@ + m@,
            Error::UpstreamApi { code, message } => "Search engine error "@
                + crate::numeric::int_text(code as int) + ": "@ + message@,
        }
    }

    /// How the error reads.
    pub fn describe(&self) -> (r: String)
        ensures
            r@ == self.description(),
    {
        match self {
            Error::Transport(m) => crate::text::concat("Transport error: ", m.as_str()),
            Error::HttpStatus { status, .. } => {
                let mut out = crate::text::chars_of("HTTP status ");
                crate::text::push_all(&mut out, &crate::text::decimal_chars(*status as u128));
                crate::text::string_from_chars(&out)
            },
            Error::UpstreamChallenge(m) => crate::text::concat(
                "The upstream blocked the request: ",
                m.as_str(),
            ),
            Error::Decode(m) => crate::text::concat("Base64 decode error: ", m.as_str()),
            Error::Extraction(m) => crate::text::concat("Invalid response: ", m.as_str()),
            Error::UpstreamApi { code, message } => {
                let mut out = crate::text::chars_of("Search engine error ");
                crate::text::push_str(&mut out, crate::numeric::i64_text(*code).as_str());
                crate::text::push_str(&mut out, ": ");
                crate::text::push_str(&mut out, message.as_str());
                crate::text::string_from_chars(&out)
            },
        }
    }
}

} // verus!
