//! The failures that an invocation or a decoding can end in.

use crate::json::{error_text, json_error_text};
use crate::text::join2;
use vstd::prelude::*;
use vstd::std_specs::convert::FromSpecImpl;

verus! {

#[verifier::external_type_specification]
#[verifier::external_body]
pub struct ExIoError(std::io::Error);

/// The four kinds of failure that callers tell apart.
#[derive(Debug, Clone, Copy, PartialEq, Eq, Structural)]
pub enum ErrorKind {
    /// Starting the process or reading its streams failed.
    IoFailure,
    /// The program produced no output within the deadline.
    Timeout,
    /// The output did not follow the protocol.
    ProtocolViolation,
    /// The program could not be run, or reported a failure itself.
    ExecutionFailure,
}

/// A failure with its message. `JsonParse` and `Protocol` are the two ways in
/// which output violates the protocol: it is no JSON at all, or it is JSON
/// without a required member.
#[derive(Debug, Clone)]
pub enum ScraperError {
    Io(String),
    Timeout(String),
    JsonParse(String),
    Protocol(String),
    Execution(String),
}

/// A `ScraperError` in specifications.
pub enum Failure {
    Io(Seq<char>),
    Timeout(Seq<char>),
    JsonParse(Seq<char>),
    Protocol(Seq<char>),
    Execution(Seq<char>),
}

impl Failure {
    /// The kind of the failure: `JsonParse` and `Protocol` are both
    /// violations of the protocol.
    pub open spec fn kind(self) -> ErrorKind {
        match self {
            Failure::Io(_) => ErrorKind::IoFailure,
            Failure::Timeout(_) => ErrorKind::Timeout,
            Failure::JsonParse(_) => ErrorKind::ProtocolViolation,
            Failure::Protocol(_) => ErrorKind::ProtocolViolation,
            Failure::Execution(_) => ErrorKind::ExecutionFailure,
        }
    }

    /// The message of the failure.
    pub open spec fn message(self) -> Seq<char> {
        match self {
            Failure::Io(m) => m,
            Failure::Timeout(m) => m,
            Failure::JsonParse(m) => m,
            Failure::Protocol(m) => m,
            Failure::Execution(m) => m,
        }
    }

    /// The name of the variant, which `text` puts before the message.
    pub open spec fn label(self) -> Seq<char> {
        match self {
            Failure::Io(_) => "Io"@,
            Failure::Timeout(_) => "Timeout"@,
            Failure::JsonParse(_) => "JsonParse"@,
            Failure::Protocol(_) => "Protocol"@,
            Failure::Execution(_) => "Execution"@,
        }
    }

    /// The failure as one line: label, colon, space, message.
    pub open spec fn text(self) -> Seq<char> {
        self.label() + ": "@ + self.message()
    }
}

impl View for ScraperError {
    type V = Failure;

    open spec fn view(&self) -> Failure {
        match *self {
            ScraperError::Io(m) => Failure::Io(m@),
            ScraperError::Timeout(m) => Failure::Timeout(m@),
            ScraperError::JsonParse(m) => Failure::JsonParse(m@),
            ScraperError::Protocol(m) => Failure::Protocol(m@),
            ScraperError::Execution(m) => Failure::Execution(m@),
        }
    }
}

impl ScraperError {
    /// The kind of the failure.
    pub fn kind(&self) -> (k: ErrorKind)
        ensures
            k == self@.kind(),
    {
        match self {
            ScraperError::Io(_) => ErrorKind::IoFailure,
            ScraperError::Timeout(_) => ErrorKind::Timeout,
            ScraperError::JsonParse(_) => ErrorKind::ProtocolViolation,
            ScraperError::Protocol(_) => ErrorKind::ProtocolViolation,
            ScraperError::Execution(_) => ErrorKind::ExecutionFailure,
        }
    }

    /// The message of the failure, without its label.
    pub fn message(&self) -> (m: &str)
        ensures
            m@ == self@.message(),
    {
        match self {
            ScraperError::Io(m) => m.as_str(),
            ScraperError::Timeout(m) => m.as_str(),
            ScraperError::JsonParse(m) => m.as_str(),
            ScraperError::Protocol(m) => m.as_str(),
            ScraperError::Execution(m) => m.as_str(),
        }
    }

    /// The failure as one line, such as `Timeout: no answer`.
    pub fn to_string(&self) -> (s: String)
        ensures
            s@ == self@.text(),
    {
        let label = match self {
            ScraperError::Io(_) => "Io",
            ScraperError::Timeout(_) => "Timeout",
            ScraperError::JsonParse(_) => "JsonParse",
            ScraperError::Protocol(_) => "Protocol",
            ScraperError::Execution(_) => "Execution",
        };
        let mut s = join2(label, ": ");
        s.append(self.message());
        s
    }
}

/// `to_string` of a `std::io::Error`. The text comes from the operating
/// system, so nothing is claimed of it.
#[verifier::external_body]
fn io_error_text(error: &std::io::Error) -> String {
    error.to_string()
}

impl From<std::io::Error> for ScraperError {
    /// An I/O error becomes `Io` with the error's own text.
    fn from(e: std::io::Error) -> (r: ScraperError)
        ensures
            r is Io,
    {
        ScraperError::Io(io_error_text(&e))
    }
}

/// What `from` returns is said by its own `ensures`: a failure is told by its
/// view, so the conversion is not given as a value.
impl FromSpecImpl<std::io::Error> for ScraperError {
    open spec fn obeys_from_spec() -> bool {
        false
    }

    open spec fn from_spec(e: std::io::Error) -> ScraperError {
        arbitrary()
    }
}

impl From<serde_json::Error> for ScraperError {
    /// A parse error becomes `JsonParse` with the text that the error displays.
    fn from(e: serde_json::Error) -> (r: ScraperError)
        ensures
            r@ == Failure::JsonParse(json_error_text(e)),
    {
        ScraperError::JsonParse(error_text(&e))
    }
}

/// What `from` returns is said by its own `ensures`: a failure is told by its
/// view, so the conversion is not given as a value.
impl FromSpecImpl<serde_json::Error> for ScraperError {
    open spec fn obeys_from_spec() -> bool {
        false
    }

    open spec fn from_spec(e: serde_json::Error) -> ScraperError {
        arbitrary()
    }
}

} // verus!
