//! The failure categories of the agent.
//!
//! Every failure is an [`AppError`]: a kind, a fixed message, and optionally
//! the text of the lower-level error that caused it. Decisions are taken on
//! the kind alone; the cause is kept for the log.

use std::error::Error;
use vstd::prelude::*;
use vstd::string::to_string_from_display_ensures;

verus! {

/// The closed set of failure categories.
#[derive(Clone, Copy, Debug, PartialEq, Eq, Structural)]
pub enum ErrorKind {
    /// Local file or configuration access failed.
    Io,
    /// Text could not be read as TOML, JSON or an IPv4 address.
    Format,
    /// An HTTP request could not complete or came back with a failure status.
    Network,
    /// The remote record is not an `A` record.
    RecordTypeMismatch,
}

pub type AppResult<T> = Result<T, AppError>;

/// A failure: its kind, a message, and the text of its cause if it has one.
#[derive(Debug)]
pub struct AppError {
    kind: ErrorKind,
    message: String,
    inner: Option<String>,
}

/// What an [`AppError`] holds, as plain values.
pub struct AppErrorView {
    pub kind: ErrorKind,
    pub message: Seq<char>,
    pub cause: Option<Seq<char>>,
}

impl AppErrorView {
    /// The line shown for an error: the message, followed by `": "` and the
    /// cause where there is one.
    pub open spec fn text(self) -> Seq<char> {
        match self.cause {
            Some(cause) => self.message + ": "@ + cause,
            None => self.message,
        }
    }
}

/// Whether `cause` holds the text that `err` displays.
pub open spec fn displays_as<E: Error>(err: &E, cause: Option<Seq<char>>) -> bool {
    exists|text: String| #[trigger] to_string_from_display_ensures::<E>(err, text) && cause == Some(text@)
}

impl View for AppError {
    type V = AppErrorView;

    closed spec fn view(&self) -> AppErrorView {
        AppErrorView {
            kind: self.kind,
            message: self.message@,
            cause: match self.inner {
                Some(cause) => Some(cause@),
                None => None,
            },
        }
    }
}

/// `std::io::Error`, what file access fails with. It is carried as it is:
/// nothing is assumed of what it holds.
#[verifier::external_type_specification]
#[verifier::external_body]
pub struct ExIoError(std::io::Error);

/// `toml::ser::Error`, what writing TOML fails with. It is carried as it is:
/// nothing is assumed of what it holds.
#[verifier::external_type_specification]
#[verifier::external_body]
pub struct ExTomlSerError(toml::ser::Error);

/// `toml::de::Error`, what reading TOML fails with. It is carried as it is:
/// nothing is assumed of what it holds.
#[verifier::external_type_specification]
#[verifier::external_body]
pub struct ExTomlDeError(toml::de::Error);

/// `reqwest::Error`, what an HTTP request fails with. It is carried as it is:
/// nothing is assumed of what it holds.
#[verifier::external_type_specification]
#[verifier::external_body]
pub struct ExReqwestError(reqwest::Error);

/// `serde_json::Error`, what reading or writing JSON fails with. It is carried
/// as it is: nothing is assumed of what it holds.
#[verifier::external_type_specification]
#[verifier::external_body]
pub struct ExJsonError(serde_json::Error);

impl AppError {
    /// An error without a cause.
    pub fn new(kind: ErrorKind, message: &str) -> (e: Self)
        ensures
            e@ == (AppErrorView { kind, message: message@, cause: None }),
    {
        AppError { kind, message: message.to_owned(), inner: None }
    }

    /// An error caused by `err`. The cause is kept as the text that `err`
    /// displays.
    pub fn with_error<E: Error + Send + Sync + 'static>(
        kind: ErrorKind,
        message: &str,
        err: E,
    ) -> (e: Self)
        ensures
            e@.kind == kind,
            e@.message == message@,
            displays_as(&err, e@.cause),
    {
        let cause = err.to_string();
        AppError { kind, message: message.to_owned(), inner: Some(cause) }
    }

    /// The category of the failure.
    pub fn kind(&self) -> (kind: ErrorKind)
        ensures
            kind == self@.kind,
    {
        self.kind
    }

    /// The message, without the cause.
    pub fn message(&self) -> (message: &str)
        ensures
            message@ == self@.message,
    {
        self.message.as_str()
    }

    /// The text of the lower-level error behind this one, if any.
    pub fn source(&self) -> (cause: Option<&str>)
        ensures
            match cause {
                Some(text) => self@.cause == Some(text@),
                None => self@.cause is None,
            },
    {
        match &self.inner {
            Some(cause) => Some(cause.as_str()),
            None => None,
        }
    }

    /// The line to show for this error.
    pub fn to_string(&self) -> (line: String)
        ensures
            line@ == self@.text(),
    {
        let mut line = self.message.clone();
        if let Some(cause) = &self.inner {
            line.append(": ");
            line.append(cause.as_str());
        }
        line
    }
}

impl From<std::io::Error> for AppError {
    /// A failed file access is an I/O error.
    fn from(e: std::io::Error) -> (r: Self)
        ensures
            r@.kind == ErrorKind::Io,
            r@.message == "I/O Error"@,
            displays_as(&e, r@.cause),
    {
        Self::with_error(ErrorKind::Io, "I/O Error", e)
    }
}

/// The cause is the text that the error displays, which no spec function
/// gives: what `from` returns is stated on `from` itself.
impl vstd::std_specs::convert::FromSpecImpl<std::io::Error> for AppError {
    open spec fn obeys_from_spec() -> bool {
        false
    }

    open spec fn from_spec(e: std::io::Error) -> Self {
        arbitrary()
    }
}

impl From<toml::ser::Error> for AppError {
    /// A configuration that cannot be written as TOML is a format error.
    fn from(e: toml::ser::Error) -> (r: Self)
        ensures
            r@.kind == ErrorKind::Format,
            r@.message == "Invalid TOML format Error"@,
            displays_as(&e, r@.cause),
    {
        Self::with_error(ErrorKind::Format, "Invalid TOML format Error", e)
    }
}

/// The cause is the text that the error displays, which no spec function
/// gives: what `from` returns is stated on `from` itself.
impl vstd::std_specs::convert::FromSpecImpl<toml::ser::Error> for AppError {
    open spec fn obeys_from_spec() -> bool {
        false
    }

    open spec fn from_spec(e: toml::ser::Error) -> Self {
        arbitrary()
    }
}

impl From<toml::de::Error> for AppError {
    /// Text that cannot be read as TOML is a format error.
    fn from(e: toml::de::Error) -> (r: Self)
        ensures
            r@.kind == ErrorKind::Format,
            r@.message == "Invalid TOML format Error"@,
            displays_as(&e, r@.cause),
    {
        Self::with_error(ErrorKind::Format, "Invalid TOML format Error", e)
    }
}

/// The cause is the text that the error displays, which no spec function
/// gives: what `from` returns is stated on `from` itself.
impl vstd::std_specs::convert::FromSpecImpl<toml::de::Error> for AppError {
    open spec fn obeys_from_spec() -> bool {
        false
    }

    open spec fn from_spec(e: toml::de::Error) -> Self {
        arbitrary()
    }
}

impl From<reqwest::Error> for AppError {
    /// A request that fails, or is answered with a failure status, is a network error.
    fn from(e: reqwest::Error) -> (r: Self)
        ensures
            r@.kind == ErrorKind::Network,
            r@.message == "HTTP request Error"@,
            displays_as(&e, r@.cause),
    {
        Self::with_error(ErrorKind::Network, "HTTP request Error", e)
    }
}

/// The cause is the text that the error displays, which no spec function
/// gives: what `from` returns is stated on `from` itself.
impl vstd::std_specs::convert::FromSpecImpl<reqwest::Error> for AppError {
    open spec fn obeys_from_spec() -> bool {
        false
    }

    open spec fn from_spec(e: reqwest::Error) -> Self {
        arbitrary()
    }
}

impl From<serde_json::Error> for AppError {
    /// Text that cannot be read or written as JSON is a format error.
    fn from(e: serde_json::Error) -> (r: Self)
        ensures
            r@.kind == ErrorKind::Format,
            r@.message == "JSON format Error"@,
            displays_as(&e, r@.cause),
    {
        Self::with_error(ErrorKind::Format, "JSON format Error", e)
    }
}

/// The cause is the text that the error displays, which no spec function
/// gives: what `from` returns is stated on `from` itself.
impl vstd::std_specs::convert::FromSpecImpl<serde_json::Error> for AppError {
    open spec fn obeys_from_spec() -> bool {
        false
    }

    open spec fn from_spec(e: serde_json::Error) -> Self {
        arbitrary()
    }
}

} // verus!
