//! The gateway's error kinds and their HTTP mapping: upstream and transport
//! failures surface as 502, local serialization, configuration and internal
//! failures as 500.

use vstd::prelude::*;
use vstd::string::StringExecFns;
use crate::resolve::FormatError;

verus! {

/// Everything that can go wrong while serving a request.
#[derive(Debug)]
pub enum AppError {
    /// The upstream answered outside 2xx, or its body did not normalize.
    BibleBrainApi(String),
    /// The outbound connection itself failed.
    HttpClient(String),
    /// A local encode or decode failed.
    Serialization(String),
    /// The environment configuration is invalid.
    Config(String),
    /// Any other internal failure.
    Internal(String),
}

/// The HTTP status an error maps to.
pub open spec fn status_of(e: AppError) -> u16 {
    match e {
        AppError::BibleBrainApi(_) => 502,
        AppError::HttpClient(_) => 502,
        AppError::Serialization(_) => 500,
        AppError::Config(_) => 500,
        AppError::Internal(_) => 500,
    }
}

/// The message an error carries.
pub open spec fn message_of(e: AppError) -> Seq<char> {
    match e {
        AppError::BibleBrainApi(m) => m@,
        AppError::HttpClient(m) => m@,
        AppError::Serialization(m) => m@,
        AppError::Config(m) => m@,
        AppError::Internal(m) => m@,
    }
}

impl AppError {
    /// The HTTP status code for this error.
    pub fn status_code(&self) -> (c: u16)
        ensures
            c == status_of(*self),
    {
        match self {
            AppError::BibleBrainApi(_) => 502,
            AppError::HttpClient(_) => 502,
            AppError::Serialization(_) => 500,
            AppError::Config(_) => 500,
            AppError::Internal(_) => 500,
        }
    }

    /// The message this error carries.
    pub fn message(&self) -> (m: String)
        ensures
            m@ == message_of(*self),
    {
        match self {
            AppError::BibleBrainApi(m) => m.clone(),
            AppError::HttpClient(m) => m.clone(),
            AppError::Serialization(m) => m.clone(),
            AppError::Config(m) => m.clone(),
            AppError::Internal(m) => m.clone(),
        }
    }
}

/// The operation whose payload failed to normalize; each names its own
/// unexpected-format message.
#[derive(Debug, Clone, Copy, PartialEq, Eq, Structural)]
pub enum Endpoint {
    Translations,
    Books,
    Chapter,
    Commentaries,
    CommentaryChapter,
}

/// The message a normalization failure surfaces with; an unexpected shape
/// names the collection the endpoint expected.
pub open spec fn format_error_text(e: FormatError, ep: Endpoint) -> Seq<char> {
    match e {
        FormatError::Decode => "Failed to deserialize response"@,
        FormatError::UnexpectedFormat => match ep {
            Endpoint::Translations => "Unexpected API response format for translations"@,
            Endpoint::Books => "Unexpected API response format for books"@,
            Endpoint::Chapter => "Unexpected API response format for chapter"@,
            Endpoint::Commentaries => "Unexpected API response format for commentaries"@,
            Endpoint::CommentaryChapter => "Unexpected API response format for commentary"@,
        },
    }
}

/// Surfaces a normalization failure as the upstream-API error it is.
pub fn format_error_to_app(e: FormatError, ep: Endpoint) -> (r: AppError)
    ensures
        r matches AppError::BibleBrainApi(m) && m@ == format_error_text(e, ep),
{
    match e {
        FormatError::Decode => AppError::BibleBrainApi(
            "Failed to deserialize response".to_owned(),
        ),
        FormatError::UnexpectedFormat => match ep {
            Endpoint::Translations => AppError::BibleBrainApi(
                "Unexpected API response format for translations".to_owned(),
            ),
            Endpoint::Books => AppError::BibleBrainApi(
                "Unexpected API response format for books".to_owned(),
            ),
            Endpoint::Chapter => AppError::BibleBrainApi(
                "Unexpected API response format for chapter".to_owned(),
            ),
            Endpoint::Commentaries => AppError::BibleBrainApi(
                "Unexpected API response format for commentaries".to_owned(),
            ),
            Endpoint::CommentaryChapter => AppError::BibleBrainApi(
                "Unexpected API response format for commentary".to_owned(),
            ),
        },
    }
}

/// The message a non-2xx upstream answer surfaces with: the operation, the
/// status and the best-effort body text.
pub fn upstream_failure_message(what: &str, status: &str, body: &str) -> (m: String)
    ensures
        m@ == "Failed to fetch "@ + what@ + ": "@ + status@ + " - "@ + body@,
{
    let mut m = "Failed to fetch ".to_owned();
    m.append(what);
    m.append(": ");
    m.append(status);
    m.append(" - ");
    m.append(body);
    m
}

} // verus!
