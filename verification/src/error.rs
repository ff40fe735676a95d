//! The errors that the library reports.

use crate::text::{has_prefix, join};
use vstd::prelude::*;

verus! {

/// `std::io::Error`, carried in an error of this library. Only its description is
/// used.
#[verifier::external_type_specification]
#[verifier::external_body]
pub struct ExIoError(std::io::Error);

/// `serde_json::Error`, carried in an error of this library. Only its description
/// is used.
#[verifier::external_type_specification]
#[verifier::external_body]
pub struct ExSerializationError(serde_json::Error);

/// Everything that can go wrong in this library. Most kinds carry a detail text;
/// two carry the error of the layer below.
#[derive(Debug)]
pub enum TelemetryError {
    /// The library could not be set up, or was driven out of turn.
    InitializationError(String),
    /// A path, a stored record or a credential is unusable.
    ConfigError(String),
    /// An event could not be handed to the analytics collector.
    SendError(String),
    /// An input or output operation failed.
    IoError(std::io::Error),
    /// A document could not be written or read as JSON.
    SerializationError(serde_json::Error),
    /// The analytics client reported a failure.
    PostHogError(String),
    /// The error-reporting client reported a failure.
    SentryError(String),
    /// A path cannot be used for the consent record.
    InvalidPath(String),
    /// The process environment lacks something the library needs.
    EnvironmentError(String),
    /// The operating system denied access.
    PermissionError(String),
}

/// What a fallible operation of this library returns.
pub type TelemetryResult<T> = Result<T, TelemetryError>;

/// An error as a mathematical value: its kind, and its detail as a sequence of
/// characters where the error carries a text.
pub enum TelemetryErrorView {
    InitializationError(Seq<char>),
    ConfigError(Seq<char>),
    SendError(Seq<char>),
    IoError(std::io::Error),
    SerializationError(serde_json::Error),
    PostHogError(Seq<char>),
    SentryError(Seq<char>),
    InvalidPath(Seq<char>),
    EnvironmentError(Seq<char>),
    PermissionError(Seq<char>),
}

impl View for TelemetryError {
    type V = TelemetryErrorView;

    open spec fn view(&self) -> TelemetryErrorView {
        match *self {
            TelemetryError::InitializationError(detail) => TelemetryErrorView::InitializationError(
                detail@,
            ),
            TelemetryError::ConfigError(detail) => TelemetryErrorView::ConfigError(detail@),
            TelemetryError::SendError(detail) => TelemetryErrorView::SendError(detail@),
            TelemetryError::IoError(source) => TelemetryErrorView::IoError(source),
            TelemetryError::SerializationError(source) => TelemetryErrorView::SerializationError(
                source,
            ),
            TelemetryError::PostHogError(detail) => TelemetryErrorView::PostHogError(detail@),
            TelemetryError::SentryError(detail) => TelemetryErrorView::SentryError(detail@),
            TelemetryError::InvalidPath(detail) => TelemetryErrorView::InvalidPath(detail@),
            TelemetryError::EnvironmentError(detail) => TelemetryErrorView::EnvironmentError(
                detail@,
            ),
            TelemetryError::PermissionError(detail) => TelemetryErrorView::PermissionError(detail@),
        }
    }
}

impl TelemetryErrorView {
    /// The words that open the message of an error of this kind.
    pub open spec fn heading(self) -> Seq<char> {
        match self {
            TelemetryErrorView::InitializationError(_) => "Failed to initialize telemetry: "@,
            TelemetryErrorView::ConfigError(_) => "Configuration error: "@,
            TelemetryErrorView::SendError(_) => "Failed to send telemetry data: "@,
            TelemetryErrorView::IoError(_) => "I/O error: "@,
            TelemetryErrorView::SerializationError(_) => "Serialization error: "@,
            TelemetryErrorView::PostHogError(_) => "PostHog client error: "@,
            TelemetryErrorView::SentryError(_) => "Sentry client error: "@,
            TelemetryErrorView::InvalidPath(_) => "Invalid configuration path: "@,
            TelemetryErrorView::EnvironmentError(_) => "Environment error: "@,
            TelemetryErrorView::PermissionError(_) => "Permission denied: "@,
        }
    }

    /// The detail text, for the kinds that carry one.
    pub open spec fn detail(self) -> Option<Seq<char>> {
        match self {
            TelemetryErrorView::InitializationError(detail) => Some(detail),
            TelemetryErrorView::ConfigError(detail) => Some(detail),
            TelemetryErrorView::SendError(detail) => Some(detail),
            TelemetryErrorView::IoError(_) => None,
            TelemetryErrorView::SerializationError(_) => None,
            TelemetryErrorView::PostHogError(detail) => Some(detail),
            TelemetryErrorView::SentryError(detail) => Some(detail),
            TelemetryErrorView::InvalidPath(detail) => Some(detail),
            TelemetryErrorView::EnvironmentError(detail) => Some(detail),
            TelemetryErrorView::PermissionError(detail) => Some(detail),
        }
    }
}

impl TelemetryError {
    /// The message of the error: the heading of its kind, then its detail. For the
    /// two kinds that carry the error of the layer below, what follows the heading is
    /// that error's own description.
    pub fn message(&self) -> (text: String)
        ensures
            has_prefix(text@, self@.heading()),
            self@.detail() matches Some(detail) ==> text@ == self@.heading() + detail,
            *self matches TelemetryError::IoError(source) ==> exists|description: String|
                #[trigger] vstd::string::to_string_from_display_ensures::<std::io::Error>(
                    &source,
                    description,
                ) && text@ == self@.heading() + description@,
            *self matches TelemetryError::SerializationError(source) ==> exists|description: String|
                #[trigger] vstd::string::to_string_from_display_ensures::<serde_json::Error>(
                    &source,
                    description,
                ) && text@ == self@.heading() + description@,
    {
        let text = match self {
            TelemetryError::InitializationError(detail) => join(
                "Failed to initialize telemetry: ",
                detail.as_str(),
            ),
            TelemetryError::ConfigError(detail) => join("Configuration error: ", detail.as_str()),
            TelemetryError::SendError(detail) => join(
                "Failed to send telemetry data: ",
                detail.as_str(),
            ),
            TelemetryError::IoError(source) => {
                let description = source.to_string();
                join("I/O error: ", description.as_str())
            },
            TelemetryError::SerializationError(source) => {
                let description = source.to_string();
                join("Serialization error: ", description.as_str())
            },
            TelemetryError::PostHogError(detail) => join("PostHog client error: ", detail.as_str()),
            TelemetryError::SentryError(detail) => join("Sentry client error: ", detail.as_str()),
            TelemetryError::InvalidPath(detail) => join(
                "Invalid configuration path: ",
                detail.as_str(),
            ),
            TelemetryError::EnvironmentError(detail) => join(
                "Environment error: ",
                detail.as_str(),
            ),
            TelemetryError::PermissionError(detail) => join("Permission denied: ", detail.as_str()),
        };
        proof {
            let heading = self@.heading();
            assert(text@.subrange(0, heading.len() as int) =~= heading);
        }
        text
    }
}

impl From<std::io::Error> for TelemetryError {
    fn from(source: std::io::Error) -> (error: TelemetryError) {
        TelemetryError::IoError(source)
    }
}

impl vstd::std_specs::convert::FromSpecImpl<std::io::Error> for TelemetryError {
    open spec fn obeys_from_spec() -> bool {
        true
    }

    open spec fn from_spec(source: std::io::Error) -> TelemetryError {
        TelemetryError::IoError(source)
    }
}

impl From<serde_json::Error> for TelemetryError {
    fn from(source: serde_json::Error) -> (error: TelemetryError) {
        TelemetryError::SerializationError(source)
    }
}

impl vstd::std_specs::convert::FromSpecImpl<serde_json::Error> for TelemetryError {
    open spec fn obeys_from_spec() -> bool {
        true
    }

    open spec fn from_spec(source: serde_json::Error) -> TelemetryError {
        TelemetryError::SerializationError(source)
    }
}

} // verus!
