//! The protocol between the external program and the monitor: what the two
//! streams of a run mean.
//!
//! The output stream carries one JSON document. A document with `status`
//! equal to `error` and strings `error` and `message` is the program's own
//! report of a failure, whatever else it holds. Any other document with a
//! string `status` and an array `components` is a success and is handed on
//! as it is, together with the counters that it holds. The error stream is
//! looked at only when the output stream is blank: it may carry a structured
//! diagnostic, a JSON object with strings `error_code` and `message`.

use crate::error::{ErrorKind, Failure, ScraperError};
use crate::json::{
    json_error_text, json_members, json_natural, json_parse, member_of, natural_of, parse_json,
    Member, MemberView,
};
use crate::text::{blank, is_blank, join2, opt_text, same_text, trim, trimmed};
use serde_json::Value;
use vstd::prelude::*;
use vstd::string::*;

verus! {

/// A success: the document that the program printed, with its `status` and
/// the counters and times that it holds. A counter is `None` where the
/// document holds no whole number from 0 to `u64::MAX` under its key; a time
/// is `None` where the document holds no string there. The share of usage in
/// percent is a number with a fraction and is read from `document`.
#[derive(Debug)]
pub struct UsageData {
    pub status: String,
    pub tokens_used: Option<u64>,
    pub tokens_limit: Option<u64>,
    pub tokens_remaining: Option<u64>,
    pub reset_time: Option<String>,
    pub last_updated: Option<String>,
    pub document: Value,
}

/// A `UsageData` in specifications.
pub struct UsageView {
    pub status: Seq<char>,
    pub tokens_used: Option<u64>,
    pub tokens_limit: Option<u64>,
    pub tokens_remaining: Option<u64>,
    pub reset_time: Option<Seq<char>>,
    pub last_updated: Option<Seq<char>>,
    pub document: Value,
}

impl View for UsageData {
    type V = UsageView;

    open spec fn view(&self) -> UsageView {
        UsageView {
            status: self.status@,
            tokens_used: self.tokens_used,
            tokens_limit: self.tokens_limit,
            tokens_remaining: self.tokens_remaining,
            reset_time: opt_text(self.reset_time),
            last_updated: opt_text(self.last_updated),
            document: self.document,
        }
    }
}

/// A structured diagnostic from the error stream.
#[derive(Debug)]
pub struct Diagnostic {
    pub error_code: String,
    pub message: String,
    pub details: Option<String>,
    pub timestamp: Option<String>,
}

/// A `Diagnostic` in specifications.
pub struct DiagnosticView {
    pub error_code: Seq<char>,
    pub message: Seq<char>,
    pub details: Option<Seq<char>>,
    pub timestamp: Option<Seq<char>>,
}

impl View for Diagnostic {
    type V = DiagnosticView;

    open spec fn view(&self) -> DiagnosticView {
        DiagnosticView {
            error_code: self.error_code@,
            message: self.message@,
            details: opt_text(self.details),
            timestamp: opt_text(self.timestamp),
        }
    }
}

/// A result whose success is a document, in specifications.
pub open spec fn document_outcome(r: Result<Value, ScraperError>) -> Result<Value, Failure> {
    match r {
        Ok(v) => Ok(v),
        Err(e) => Err(e@),
    }
}

/// A result whose success is a `UsageData`, in specifications.
pub open spec fn usage_outcome(r: Result<UsageData, ScraperError>) -> Result<UsageView, Failure> {
    match r {
        Ok(d) => Ok(d@),
        Err(e) => Err(e@),
    }
}

/// A diagnostic that may be absent, in specifications.
pub open spec fn diagnostic_view(d: Option<Diagnostic>) -> Option<DiagnosticView> {
    match d {
        Some(x) => Some(x@),
        None => None,
    }
}

/// A failure that may be absent, in specifications.
pub open spec fn failure_view(e: Option<ScraperError>) -> Option<Failure> {
    match e {
        Some(x) => Some(x@),
        None => None,
    }
}

/// The string under `key`, where the document is an object that holds a
/// string there.
pub open spec fn text_member(document: Value, key: Seq<char>) -> Option<Seq<char>> {
    if json_members(document).contains_key(key) {
        match json_members(document)[key] {
            MemberView::Text(s) => Some(s),
            _ => None,
        }
    } else {
        None
    }
}

/// The whole number under `key`, where the document is an object that holds
/// a number from 0 to `u64::MAX` without a fraction there.
pub open spec fn natural_member(document: Value, key: Seq<char>) -> Option<u64> {
    if json_members(document).contains_key(key) {
        match json_members(document)[key] {
            MemberView::Number(n) => json_natural(n),
            _ => None,
        }
    } else {
        None
    }
}

/// Whether the document is an object that holds an array under `key`.
pub open spec fn array_member(document: Value, key: Seq<char>) -> bool {
    json_members(document).contains_key(key) && json_members(document)[key] is Array
}

/// Whether `key` is free to hold a string: it is absent, null or a string.
pub open spec fn optional_text(document: Value, key: Seq<char>) -> bool {
    json_members(document).contains_key(key) ==> json_members(document)[key] is Null
        || json_members(document)[key] is Text
}

/// The message for a required member that is absent or of the wrong type.
/// `noun` says what the member should be: a `field` or an `array`.
pub open spec fn missing_member(name: Seq<char>, noun: Seq<char>) -> Seq<char> {
    "missing or invalid '"@ + name + "' "@ + noun
}

/// What a parse of the output stream comes to: the document itself where it
/// is a success, and else the failure that it stands for.
pub open spec fn checked_parse(parsed: Result<Value, serde_json::Error>) -> Result<Value, Failure> {
    match parsed {
        Err(e) => Err(Failure::JsonParse(json_error_text(e))),
        Ok(document) => match document_failure(document) {
            Some(failure) => Err(failure),
            None => Ok(document),
        },
    }
}

/// The program's own report of a failure, where the document is one: its
/// `error` and its `message`.
pub open spec fn failure_report(document: Value) -> Option<(Seq<char>, Seq<char>)> {
    if text_member(document, "status"@) == Some("error"@) && text_member(document, "error"@) is Some
        && text_member(document, "message"@) is Some {
        Some((text_member(document, "error"@)->0, text_member(document, "message"@)->0))
    } else {
        None
    }
}

/// The failure that a report of the program stands for.
pub open spec fn reported(error: Seq<char>, message: Seq<char>) -> Failure {
    Failure::Execution(error + ": "@ + message)
}

/// The success that a document with the status `status` holds.
pub open spec fn usage_in(document: Value, status: Seq<char>) -> UsageView {
    UsageView {
        status,
        tokens_used: natural_member(document, "tokens_used"@),
        tokens_limit: natural_member(document, "tokens_limit"@),
        tokens_remaining: natural_member(document, "tokens_remaining"@),
        reset_time: text_member(document, "reset_time"@),
        last_updated: text_member(document, "last_updated"@),
        document,
    }
}

/// The failure that a document on the output stream stands for, where it is
/// no success. The order decides: first a `status` that is no string, then
/// the program's own report of a failure, then `components` that is no array.
pub open spec fn document_failure(document: Value) -> Option<Failure> {
    if text_member(document, "status"@) is None {
        Some(Failure::Protocol(missing_member("status"@, "field"@)))
    } else {
        match failure_report(document) {
            Some((error, message)) => Some(reported(error, message)),
            None => if array_member(document, "components"@) {
                None
            } else {
                Some(Failure::Protocol(missing_member("components"@, "array"@)))
            },
        }
    }
}

/// What a document on the output stream says.
pub open spec fn document_usage(document: Value) -> Result<UsageView, Failure> {
    match document_failure(document) {
        Some(failure) => Err(failure),
        None => Ok(usage_in(document, text_member(document, "status"@)->0)),
    }
}

/// What a parse of the output stream says.
pub open spec fn parsed_usage(parsed: Result<Value, serde_json::Error>) -> Result<UsageView, Failure> {
    match parsed {
        Err(e) => Err(Failure::JsonParse(json_error_text(e))),
        Ok(document) => document_usage(document),
    }
}

/// The diagnostic that a document holds, where it holds one.
pub open spec fn document_diagnostic(document: Value) -> Option<DiagnosticView> {
    if text_member(document, "error_code"@) is Some && text_member(document, "message"@) is Some
        && optional_text(document, "details"@) && optional_text(document, "timestamp"@) {
        Some(
            DiagnosticView {
                error_code: text_member(document, "error_code"@)->0,
                message: text_member(document, "message"@)->0,
                details: text_member(document, "details"@),
                timestamp: text_member(document, "timestamp"@),
            },
        )
    } else {
        None
    }
}

/// The diagnostic on an error stream, where the stream holds one.
pub open spec fn diagnostic_of(stderr: Seq<char>) -> Option<DiagnosticView> {
    if blank(stderr) {
        None
    } else {
        match json_parse(stderr) {
            Ok(document) => document_diagnostic(document),
            Err(_) => None,
        }
    }
}

/// The failure that an error code stands for, with its message.
pub open spec fn classified(code: Seq<char>, message: Seq<char>) -> Failure {
    if code == "session_required"@ {
        Failure::Execution("session_required: "@ + message)
    } else if code == "session_expired"@ {
        Failure::Execution("session_expired: "@ + message)
    } else if code == "navigation_failed"@ {
        Failure::Timeout("navigation failed: "@ + message)
    } else if code == "manual_login_failed"@ {
        Failure::Execution("manual login failed: "@ + message)
    } else if code == "timeout"@ {
        Failure::Timeout(message)
    } else if code == "fatal"@ {
        Failure::Execution("fatal: "@ + message)
    } else {
        Failure::Protocol("scraper error: "@ + message)
    }
}

/// The failure that the diagnostic on an error stream stands for, where the
/// stream holds one.
pub open spec fn stderr_error(stderr: Seq<char>) -> Option<Failure> {
    match diagnostic_of(stderr) {
        Some(d) => Some(classified(d.error_code, d.message)),
        None => None,
    }
}

/// What a non-blank error stream says when the output stream is blank.
pub open spec fn stderr_failure(stderr: Seq<char>) -> Failure {
    match stderr_error(stderr) {
        Some(failure) => failure,
        None => Failure::Execution("scraper stderr: "@ + trimmed(stderr)),
    }
}

/// What the two streams of a run say. The error stream counts only where the
/// output stream is blank and the error stream is not.
pub open spec fn decoded(stdout: Seq<char>, stderr: Seq<char>) -> Result<UsageView, Failure> {
    if blank(stdout) && !blank(stderr) {
        Err(stderr_failure(stderr))
    } else {
        parsed_usage(json_parse(stdout))
    }
}

fn text_of(document: &Value, key: &str) -> (r: Option<String>)
    ensures
        opt_text(r) == text_member(*document, key@),
{
    match member_of(document, key) {
        Some(Member::Text(s)) => Some(s),
        _ => None,
    }
}

fn natural_at(document: &Value, key: &str) -> (r: Option<u64>)
    ensures
        r == natural_member(*document, key@),
{
    match member_of(document, key) {
        Some(Member::Number(n)) => natural_of(&n),
        _ => None,
    }
}

fn holds_array(document: &Value, key: &str) -> (r: bool)
    ensures
        r == array_member(*document, key@),
{
    match member_of(document, key) {
        Some(Member::Array) => true,
        _ => false,
    }
}

/// The string under `key` where there is one; `Err` where `key` holds
/// something that is neither a string nor null.
fn optional_text_of(document: &Value, key: &str) -> (r: Result<Option<String>, ()>)
    ensures
        r is Ok == optional_text(*document, key@),
        r matches Ok(t) ==> opt_text(t) == text_member(*document, key@),
{
    match member_of(document, key) {
        None => Ok(None),
        Some(Member::Null) => Ok(None),
        Some(Member::Text(s)) => Ok(Some(s)),
        Some(_) => Err(()),
    }
}

fn missing_member_text(name: &str, noun: &str) -> (r: String)
    ensures
        r@ == missing_member(name@, noun@),
{
    let mut s = join2("missing or invalid '", name);
    s.append("' ");
    s.append(noun);
    s
}

/// The `status` of a success, or the failure that the document stands for.
fn status_or_failure(document: &Value) -> (r: Result<String, ScraperError>)
    ensures
        r matches Ok(status) ==> document_failure(*document) is None && text_member(
            *document,
            "status"@,
        ) == Some(status@),
        r matches Err(e) ==> document_failure(*document) == Some(e@),
{
    match text_of(document, "status") {
        None => Err(ScraperError::Protocol(missing_member_text("status", "field"))),
        Some(status) => {
            if same_text(status.as_str(), "error") {
                let error = text_of(document, "error");
                let message = text_of(document, "message");
                match (error, message) {
                    (Some(error), Some(message)) => {
                        let mut text = join2(error.as_str(), ": ");
                        text.append(message.as_str());
                        return Err(ScraperError::Execution(text));
                    },
                    _ => {},
                }
            }
            if holds_array(document, "components") {
                Ok(status)
            } else {
                Err(ScraperError::Protocol(missing_member_text("components", "array")))
            }
        },
    }
}

/// Tells whether a document is a success, and if not, what failure it
/// stands for.
///
/// `Protocol` where `status` is no string; `Execution` with `error`, a colon
/// and `message` where the document is the program's report of a failure;
/// `Protocol` where `components` is no array; and `None` for a success. The
/// messages of `Protocol` name the member.
pub fn check_document(document: &Value) -> (r: Option<ScraperError>)
    ensures
        failure_view(r) == document_failure(*document),
{
    match status_or_failure(document) {
        Ok(_) => None,
        Err(failure) => Some(failure),
    }
}

/// Turns a parse of the output stream into the checked document: a parse
/// error becomes `JsonParse` with the parser's message, a document that is
/// no success becomes the failure that `check_document` gives, and a success
/// is returned unchanged.
pub fn check_parsed(parsed: Result<Value, serde_json::Error>) -> (r: Result<Value, ScraperError>)
    ensures
        document_outcome(r) == checked_parse(parsed),
{
    match parsed {
        Err(e) => Err(ScraperError::from(e)),
        Ok(document) => match check_document(&document) {
            Some(failure) => Err(failure),
            None => Ok(document),
        },
    }
}

/// Reads `raw` as the document of a run and decides as `decode` does for an
/// output stream, but hands on the document alone.
///
/// Returns `JsonParse` with the parser's message if `raw` is no JSON;
/// `Protocol`, naming `status`, if `status` is no string; `Execution` with
/// `error` and `message` if the document is the program's report of a
/// failure; `Protocol`, naming `components`, if `components` is no array;
/// and else the document unchanged.
pub fn parse_scraper_output(raw: &str) -> (r: Result<Value, ScraperError>)
    ensures
        document_outcome(r) == checked_parse(json_parse(raw@)),
{
    check_parsed(parse_json(raw))
}

/// Reads a structured diagnostic from a document: an object with strings
/// `error_code` and `message`, in which `details` and `timestamp`, where
/// present, are strings or null. Other members are ignored.
pub fn document_to_diagnostic(document: &Value) -> (r: Option<Diagnostic>)
    ensures
        diagnostic_view(r) == document_diagnostic(*document),
{
    let code = text_of(document, "error_code");
    let message = text_of(document, "message");
    let details = optional_text_of(document, "details");
    let timestamp = optional_text_of(document, "timestamp");
    match (code, message, details, timestamp) {
        (Some(error_code), Some(message), Ok(details), Ok(timestamp)) => Some(
            Diagnostic { error_code, message, details, timestamp },
        ),
        _ => None,
    }
}

/// Reads a structured diagnostic from an error stream: `None` where the
/// stream is blank, is no JSON, or holds a document that is no diagnostic.
pub fn read_diagnostic(stderr: &str) -> (r: Option<Diagnostic>)
    ensures
        diagnostic_view(r) == diagnostic_of(stderr@),
{
    if is_blank(stderr) {
        return None;
    }
    match parse_json(stderr) {
        Err(_) => None,
        Ok(document) => document_to_diagnostic(&document),
    }
}

/// Maps an error code and its message to a failure, by a fixed table. A code
/// that the table does not hold gives `Protocol`.
pub fn classify(code: &str, message: &str) -> (r: ScraperError)
    ensures
        r@ == classified(code@, message@),
{
    if same_text(code, "session_required") {
        ScraperError::Execution(join2("session_required: ", message))
    } else if same_text(code, "session_expired") {
        ScraperError::Execution(join2("session_expired: ", message))
    } else if same_text(code, "navigation_failed") {
        ScraperError::Timeout(join2("navigation failed: ", message))
    } else if same_text(code, "manual_login_failed") {
        ScraperError::Execution(join2("manual login failed: ", message))
    } else if same_text(code, "timeout") {
        ScraperError::Timeout(String::from_str(message))
    } else if same_text(code, "fatal") {
        ScraperError::Execution(join2("fatal: ", message))
    } else {
        ScraperError::Protocol(join2("scraper error: ", message))
    }
}

/// The failure that a structured diagnostic on `stderr` stands for; `None`
/// where `stderr` is blank or holds no such diagnostic.
pub fn parse_stderr_error(stderr: &str) -> (r: Option<ScraperError>)
    ensures
        failure_view(r) == stderr_error(stderr@),
{
    match read_diagnostic(stderr) {
        Some(d) => Some(classify(d.error_code.as_str(), d.message.as_str())),
        None => None,
    }
}

/// Decodes a document from the output stream: the failure that
/// `check_document` gives where the document is no success, and else the
/// success, which holds the document unchanged and the counters and times
/// read from it.
pub fn document_to_usage(document: Value) -> (r: Result<UsageData, ScraperError>)
    ensures
        usage_outcome(r) == document_usage(document),
{
    match status_or_failure(&document) {
        Err(failure) => Err(failure),
        Ok(status) => {
            let tokens_used = natural_at(&document, "tokens_used");
            let tokens_limit = natural_at(&document, "tokens_limit");
            let tokens_remaining = natural_at(&document, "tokens_remaining");
            let reset_time = text_of(&document, "reset_time");
            let last_updated = text_of(&document, "last_updated");
            Ok(
                UsageData {
                    status,
                    tokens_used,
                    tokens_limit,
                    tokens_remaining,
                    reset_time,
                    last_updated,
                    document,
                },
            )
        },
    }
}

/// Decodes a parse of the output stream: a parse error becomes `JsonParse`
/// with the parser's message, and a document is decoded by
/// `document_to_usage`.
pub fn parsed_to_usage(parsed: Result<Value, serde_json::Error>) -> (r: Result<
    UsageData,
    ScraperError,
>)
    ensures
        usage_outcome(r) == parsed_usage(parsed),
{
    match parsed {
        Err(e) => Err(ScraperError::from(e)),
        Ok(document) => document_to_usage(document),
    }
}

/// Decodes the two streams of a run.
///
/// Where `stdout` is blank and `stderr` is not, the result is the failure that
/// `stderr` stands for: the one its structured diagnostic maps to, or
/// `Execution` with the trimmed text of `stderr` where it holds none.
/// Otherwise `stdout` alone decides, and `stderr` is not looked at:
/// `JsonParse` where it is no JSON, `Protocol` where `status` is no string,
/// `Execution` where the document is the program's report of a failure,
/// `Protocol` where `components` is no array, and else the success.
pub fn decode(stdout: &str, stderr: &str) -> (r: Result<UsageData, ScraperError>)
    ensures
        usage_outcome(r) == decoded(stdout@, stderr@),
{
    if is_blank(stdout) && !is_blank(stderr) {
        match parse_stderr_error(stderr) {
            Some(failure) => Err(failure),
            None => Err(ScraperError::Execution(join2("scraper stderr: ", trim(stderr)))),
        }
    } else {
        parsed_to_usage(parse_json(stdout))
    }
}

/// The message for a missing member holds the member's name, after the
/// opening words.
pub proof fn lemma_message_names_member(name: Seq<char>, noun: Seq<char>)
    ensures
        missing_member(name, noun).subrange(
            "missing or invalid '"@.len() as int,
            ("missing or invalid '"@.len() + name.len()) as int,
        ) == name,
{
    let lead = "missing or invalid '"@;
    assert(missing_member(name, noun).subrange(
        lead.len() as int,
        (lead.len() + name.len()) as int,
    ) =~= name);
}

/// The two readers of an output stream agree: on every parse they fail alike,
/// with the same failure, and where they succeed the document of the one is
/// the document in the success of the other.
pub proof fn lemma_readers_agree(parsed: Result<Value, serde_json::Error>)
    ensures
        checked_parse(parsed) is Err <==> parsed_usage(parsed) is Err,
        checked_parse(parsed) matches Err(f) ==> parsed_usage(parsed) == Err::<UsageView, Failure>(
            f,
        ),
        checked_parse(parsed) matches Ok(d) ==> (parsed_usage(parsed) matches Ok(u) && u.document
            == d),
{
}

/// The program's own report of a failure on the output stream gives
/// `Execution` with its `error` and its `message`, whether or not the
/// document holds `components`, from both readers.
pub proof fn lemma_report_is_execution(parsed: Result<Value, serde_json::Error>, document: Value)
    requires
        parsed matches Ok(d) && d == document,
        failure_report(document) is Some,
    ensures
        checked_parse(parsed) matches Err(f) && f == Failure::Execution(
            text_member(document, "error"@)->0 + ": "@ + text_member(document, "message"@)->0,
        ),
        parsed_usage(parsed) matches Err(f) && f.kind() == ErrorKind::ExecutionFailure,
{
}

/// Where the output stream is not blank, the error stream has no say.
pub proof fn lemma_output_stream_wins(stdout: Seq<char>, first: Seq<char>, second: Seq<char>)
    requires
        !blank(stdout),
    ensures
        decoded(stdout, first) == decoded(stdout, second),
{
}

/// A document on the output stream that has a string `status` and an array
/// `components`, and is no report of a failure, is a success. The success
/// holds that very document, and each counter of the success is the whole
/// number that the document holds under the counter's key: nothing is
/// rounded, cut or set to a default.
pub proof fn lemma_success_is_handed_on(stdout: Seq<char>, stderr: Seq<char>, document: Value)
    requires
        !blank(stdout),
        json_parse(stdout) matches Ok(d) && d == document,
        text_member(document, "status"@) is Some,
        array_member(document, "components"@),
        failure_report(document) is None,
    ensures
        decoded(stdout, stderr) matches Ok(u) && u.document == document && u.status
            == text_member(document, "status"@)->0,
        decoded(stdout, stderr) matches Ok(u) && u.tokens_used == natural_member(
            document,
            "tokens_used"@,
        ) && u.tokens_limit == natural_member(document, "tokens_limit"@) && u.tokens_remaining
            == natural_member(document, "tokens_remaining"@),
{
}

/// A document on the output stream that lacks a required member, and is no
/// report of a failure, gives `Protocol` with the message that names the
/// member: `status` first, else `components`.
pub proof fn lemma_missing_member_is_named(stdout: Seq<char>, stderr: Seq<char>, document: Value)
    requires
        !blank(stdout),
        json_parse(stdout) matches Ok(d) && d == document,
        failure_report(document) is None,
        text_member(document, "status"@) is None || !array_member(document, "components"@),
    ensures
        decoded(stdout, stderr) matches Err(f) && f == Failure::Protocol(
            if text_member(document, "status"@) is None {
                missing_member("status"@, "field"@)
            } else {
                missing_member("components"@, "array"@)
            },
        ),
        decoded(stdout, stderr) matches Err(f) && f.kind() == ErrorKind::ProtocolViolation,
{
}

/// Output that is not blank and is no JSON gives `JsonParse`, which is a
/// violation of the protocol, whatever the error stream holds.
pub proof fn lemma_malformed_output_is_violation(stdout: Seq<char>, stderr: Seq<char>)
    requires
        !blank(stdout),
        json_parse(stdout) is Err,
    ensures
        decoded(stdout, stderr) matches Err(f) && f is JsonParse && f.kind()
            == ErrorKind::ProtocolViolation,
{
}

/// Where the output stream is blank and the error stream holds a structured
/// diagnostic, the result is the failure that the table gives for its code.
pub proof fn lemma_diagnostic_is_mapped(stdout: Seq<char>, stderr: Seq<char>)
    requires
        blank(stdout),
        diagnostic_of(stderr) is Some,
    ensures
        decoded(stdout, stderr) matches Err(f) && f == classified(
            diagnostic_of(stderr)->0.error_code,
            diagnostic_of(stderr)->0.message,
        ),
{
}

/// The table of error codes: each code that it holds, with the failure that
/// the code stands for, and the kind of that failure.
pub proof fn lemma_recognized_codes(message: Seq<char>)
    ensures
        classified("session_required"@, message) == Failure::Execution(
            "session_required: "@ + message,
        ),
        classified("session_expired"@, message) == Failure::Execution(
            "session_expired: "@ + message,
        ),
        classified("navigation_failed"@, message) == Failure::Timeout(
            "navigation failed: "@ + message,
        ),
        classified("manual_login_failed"@, message) == Failure::Execution(
            "manual login failed: "@ + message,
        ),
        classified("timeout"@, message) == Failure::Timeout(message),
        classified("fatal"@, message) == Failure::Execution("fatal: "@ + message),
        classified("session_required"@, message).kind() == ErrorKind::ExecutionFailure,
        classified("session_expired"@, message).kind() == ErrorKind::ExecutionFailure,
        classified("navigation_failed"@, message).kind() == ErrorKind::Timeout,
        classified("manual_login_failed"@, message).kind() == ErrorKind::ExecutionFailure,
        classified("timeout"@, message).kind() == ErrorKind::Timeout,
        classified("fatal"@, message).kind() == ErrorKind::ExecutionFailure,
{
    reveal_strlit("session_required");
    reveal_strlit("session_expired");
    reveal_strlit("navigation_failed");
    reveal_strlit("manual_login_failed");
    reveal_strlit("timeout");
    reveal_strlit("fatal");
    assert("session_required"@.len() == 16);
    assert("session_expired"@.len() == 15);
    assert("navigation_failed"@.len() == 17);
    assert("manual_login_failed"@.len() == 19);
    assert("timeout"@.len() == 7);
    assert("fatal"@.len() == 5);
}

/// A code that the table does not hold gives `Protocol`, a violation of the
/// protocol, with the diagnostic's message.
pub proof fn lemma_unrecognized_code(code: Seq<char>, message: Seq<char>)
    requires
        code != "session_required"@,
        code != "session_expired"@,
        code != "navigation_failed"@,
        code != "manual_login_failed"@,
        code != "timeout"@,
        code != "fatal"@,
    ensures
        classified(code, message) == Failure::Protocol("scraper error: "@ + message),
        classified(code, message).kind() == ErrorKind::ProtocolViolation,
{
}

} // verus!
