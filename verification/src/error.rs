//! The library's error type.
use vstd::prelude::*;

verus! {

/// Everything that can go wrong. Errors that come from outside crates carry
/// that crate's message.
#[derive(Debug, Clone)]
pub enum Error {
    Config(String),
    Io(String),
    SerdeJson(String),
    Yaml(String),
    Ignore(String),
    Git(String),
    StripPrefix(String),
    Glob(String),
    ApiError(String),
    Reqwest(String),
    Logging(String),
    VerificationFailed(String),
    ToolFailed(String),
}

pub type Result<T> = core::result::Result<T, Error>;

/// The kinds of error.
#[derive(PartialEq, Eq, Structural, Clone, Copy)]
pub enum ErrorKind {
    Config,
    Io,
    SerdeJson,
    Yaml,
    Ignore,
    Git,
    StripPrefix,
    Glob,
    ApiError,
    Reqwest,
    Logging,
    VerificationFailed,
    ToolFailed,
}

/// The kind of an error and the text it carries.
pub open spec fn error_view(e: Error) -> (ErrorKind, Seq<char>) {
    match e {
        Error::Config(m) => (ErrorKind::Config, m@),
        Error::Io(m) => (ErrorKind::Io, m@),
        Error::SerdeJson(m) => (ErrorKind::SerdeJson, m@),
        Error::Yaml(m) => (ErrorKind::Yaml, m@),
        Error::Ignore(m) => (ErrorKind::Ignore, m@),
        Error::Git(m) => (ErrorKind::Git, m@),
        Error::StripPrefix(m) => (ErrorKind::StripPrefix, m@),
        Error::Glob(m) => (ErrorKind::Glob, m@),
        Error::ApiError(m) => (ErrorKind::ApiError, m@),
        Error::Reqwest(m) => (ErrorKind::Reqwest, m@),
        Error::Logging(m) => (ErrorKind::Logging, m@),
        Error::VerificationFailed(m) => (ErrorKind::VerificationFailed, m@),
        Error::ToolFailed(m) => (ErrorKind::ToolFailed, m@),
    }
}

impl View for Error {
    type V = (ErrorKind, Seq<char>);

    open spec fn view(&self) -> (ErrorKind, Seq<char>) {
        error_view(*self)
    }
}

impl Error {
    /// A copy of the error.
    pub fn copy(&self) -> (r: Error)
        ensures
            r@ == self@,
    {
        match self {
            Error::Config(m) => Error::Config(m.clone()),
            Error::Io(m) => Error::Io(m.clone()),
            Error::SerdeJson(m) => Error::SerdeJson(m.clone()),
            Error::Yaml(m) => Error::Yaml(m.clone()),
            Error::Ignore(m) => Error::Ignore(m.clone()),
            Error::Git(m) => Error::Git(m.clone()),
            Error::StripPrefix(m) => Error::StripPrefix(m.clone()),
            Error::Glob(m) => Error::Glob(m.clone()),
            Error::ApiError(m) => Error::ApiError(m.clone()),
            Error::Reqwest(m) => Error::Reqwest(m.clone()),
            Error::Logging(m) => Error::Logging(m.clone()),
            Error::VerificationFailed(m) => Error::VerificationFailed(m.clone()),
            Error::ToolFailed(m) => Error::ToolFailed(m.clone()),
        }
    }
}

/// The text that the error displays.
pub open spec fn error_message(e: Error) -> Seq<char> {
    match e {
        Error::Config(m) => "Configuration error: "@ + m@,
        Error::Io(m) => "I/O error: "@ + m@,
        Error::SerdeJson(m) => "JSON serialization/deserialization error: "@ + m@,
        Error::Yaml(m) => "YAML parsing error: "@ + m@,
        Error::Ignore(m) => "File filtering error: "@ + m@,
        Error::Git(m) => "Git error: "@ + m@,
        Error::StripPrefix(m) => "Path stripping error: "@ + m@,
        Error::Glob(m) => "Glob pattern error: "@ + m@,
        Error::ApiError(m) => "API error: "@ + m@,
        Error::Reqwest(m) => "Reqwest error: "@ + m@,
        Error::Logging(m) => "Logging error: "@ + m@,
        Error::VerificationFailed(m) => "Block verification failed: "@ + m@,
        Error::ToolFailed(m) => "Tool failed: "@ + m@,
    }
}

impl Error {
    /// The text that the error displays (what `to_string()` gives).
    pub fn message(&self) -> (out: String)
        ensures
            out@ == error_message(*self),
    {
        match self {
            Error::Config(m) => crate::text::cat("Configuration error: ", m.as_str()),
            Error::Io(m) => crate::text::cat("I/O error: ", m.as_str()),
            Error::SerdeJson(m) => crate::text::cat(
                "JSON serialization/deserialization error: ",
                m.as_str(),
            ),
            Error::Yaml(m) => crate::text::cat("YAML parsing error: ", m.as_str()),
            Error::Ignore(m) => crate::text::cat("File filtering error: ", m.as_str()),
            Error::Git(m) => crate::text::cat("Git error: ", m.as_str()),
            Error::StripPrefix(m) => crate::text::cat("Path stripping error: ", m.as_str()),
            Error::Glob(m) => crate::text::cat("Glob pattern error: ", m.as_str()),
            Error::ApiError(m) => crate::text::cat("API error: ", m.as_str()),
            Error::Reqwest(m) => crate::text::cat("Reqwest error: ", m.as_str()),
            Error::Logging(m) => crate::text::cat("Logging error: ", m.as_str()),
            Error::VerificationFailed(m) => crate::text::cat(
                "Block verification failed: ",
                m.as_str(),
            ),
            Error::ToolFailed(m) => crate::text::cat("Tool failed: ", m.as_str()),
        }
    }
}

} // verus!
