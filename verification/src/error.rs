//! The errors of the crate, each with the text it is reported with and the
//! entry it is logged with.

use crate::json::json_error_text;
use crate::text::{decimal, format_u64, joined};
use vstd::prelude::*;
use vstd::string::StringExecFns;

verus! {

/// The error with which `reqwest` reports a failed exchange.
#[verifier::external_type_specification]
#[verifier::external_body]
pub struct ExNetworkError(reqwest::Error);

/// The error with which the standard library reports a failed read.
#[verifier::external_type_specification]
#[verifier::external_body]
pub struct ExIoError(std::io::Error);

/// `to_string` on a `reqwest::Error`: the text that the error displays.
/// Nothing is claimed of it.
#[verifier::external_body]
pub(crate) fn network_error_text(error: &reqwest::Error) -> (text: String) {
    error.to_string()
}

/// `to_string` on a `std::io::Error`: the text that the error displays.
/// Nothing is claimed of it.
#[verifier::external_body]
pub(crate) fn io_error_text(error: &std::io::Error) -> (text: String) {
    error.to_string()
}

/// How serious a logged event is.
#[derive(Debug, Clone, Copy, PartialEq, Eq, Structural)]
pub enum LogLevel {
    /// Something the caller can put right.
    Warn,
    /// Something that went wrong beyond the caller's input.
    Error,
}

/// What is written to the log for an error.
#[derive(Debug, Clone)]
pub struct LogEntry {
    /// How serious the event is.
    pub level: LogLevel,
    /// What happened.
    pub event: String,
    /// The error's own text.
    pub error: String,
}

/// Why no configuration could be made of what a builder was given.
#[derive(Debug, Clone, Copy, PartialEq, Eq, Structural)]
pub enum ConfigurationError {
    /// No base URL was given.
    MissingBaseUrl,
}

impl ConfigurationError {
    /// The text the error is reported with.
    pub open spec fn text(self) -> Seq<char> {
        match self {
            Self::MissingBaseUrl => "Configuration failed: Missing base URL"@,
        }
    }

    /// The text the error is reported with.
    pub fn message(&self) -> (text: String)
        ensures
            text@ == self.text(),
    {
        match self {
            Self::MissingBaseUrl => String::from_str("Configuration failed: Missing base URL"),
        }
    }
}

/// Why the service refused to authenticate a user.
#[derive(Debug, Clone, Copy, PartialEq, Eq, Structural)]
pub enum BaserowAuthenticationError {
    /// The credentials are wrong.
    InvalidCredentials,
    /// The account is deactivated.
    DeactivatedUser,
    /// The authentication provider is switched off.
    AuthProviderDisabled,
    /// The e-mail address has not been verified yet.
    EmailVerificationRequired,
}

impl BaserowAuthenticationError {
    /// The text the error is reported with.
    pub open spec fn text(self) -> Seq<char> {
        match self {
            Self::InvalidCredentials => "Authentication failed: Invalid credentials provided"@,
            Self::DeactivatedUser => "Authentication failed: User account is deactivated"@,
            Self::AuthProviderDisabled => "Authentication failed: Authentication provider is disabled"@,
            Self::EmailVerificationRequired => "Authentication failed: Email verification is required"@,
        }
    }

    /// What the log says happened.
    pub open spec fn event(self) -> Seq<char> {
        match self {
            Self::InvalidCredentials => "Authentication attempt failed due to invalid credentials"@,
            Self::DeactivatedUser => "Authentication attempt failed due to deactivated user account"@,
            Self::AuthProviderDisabled => "Authentication attempt failed due to disabled auth provider"@,
            Self::EmailVerificationRequired => "Authentication requires email verification"@,
        }
    }

    /// The text the error is reported with.
    pub fn message(&self) -> (text: String)
        ensures
            text@ == self.text(),
    {
        match self {
            Self::InvalidCredentials => String::from_str(
                "Authentication failed: Invalid credentials provided",
            ),
            Self::DeactivatedUser => String::from_str(
                "Authentication failed: User account is deactivated",
            ),
            Self::AuthProviderDisabled => String::from_str(
                "Authentication failed: Authentication provider is disabled",
            ),
            Self::EmailVerificationRequired => String::from_str(
                "Authentication failed: Email verification is required",
            ),
        }
    }

    /// The entry to log for the error: a disabled provider is an error of the
    /// service, everything else a warning.
    pub fn log(&self) -> (entry: LogEntry)
        ensures
            entry.level == (if *self == Self::AuthProviderDisabled {
                LogLevel::Error
            } else {
                LogLevel::Warn
            }),
            entry.event@ == self.event(),
            entry.error@ == self.text(),
    {
        let error = self.message();
        match self {
            Self::InvalidCredentials => LogEntry {
                level: LogLevel::Warn,
                event: String::from_str("Authentication attempt failed due to invalid credentials"),
                error,
            },
            Self::DeactivatedUser => LogEntry {
                level: LogLevel::Warn,
                event: String::from_str(
                    "Authentication attempt failed due to deactivated user account",
                ),
                error,
            },
            Self::AuthProviderDisabled => LogEntry {
                level: LogLevel::Error,
                event: String::from_str(
                    "Authentication attempt failed due to disabled auth provider",
                ),
                error,
            },
            Self::EmailVerificationRequired => LogEntry {
                level: LogLevel::Warn,
                event: String::from_str("Authentication requires email verification"),
                error,
            },
        }
    }
}

/// Why a login did not produce a token.
#[derive(Debug)]
pub enum TokenAuthError {
    /// The configuration lacks the named credential.
    MissingCredentials(&'static str),
    /// The service refused the login; the text is the body of its response.
    AuthenticationFailed(String),
    /// The exchange itself failed.
    NetworkError(reqwest::Error),
}

impl TokenAuthError {
    /// The text the error is reported with, up to what an underlying error
    /// adds to it.
    pub open spec fn text_prefix(self) -> Seq<char> {
        match self {
            Self::MissingCredentials(field) => "Authentication failed: Missing required "@ + field@
                + " credentials"@,
            Self::AuthenticationFailed(body) => "Token authentication failed: "@ + body@,
            Self::NetworkError(_) => "Network error during authentication: "@,
        }
    }

    /// The text the error is reported with. For a network error it ends with
    /// that error's own text.
    pub fn message(&self) -> (text: String)
        ensures
            self.text_prefix().is_prefix_of(text@),
            !(self is NetworkError) ==> text@ == self.text_prefix(),
    {
        match self {
            Self::MissingCredentials(field) => {
                let mut text = joined("Authentication failed: Missing required ", field);
                text.append(" credentials");
                text
            },
            Self::AuthenticationFailed(body) => joined(
                "Token authentication failed: ",
                body.as_str(),
            ),
            Self::NetworkError(error) => {
                let detail = network_error_text(error);
                joined("Network error during authentication: ", detail.as_str())
            },
        }
    }

    /// The entry to log for the error: missing credentials are a warning,
    /// everything else an error.
    pub fn log(&self) -> (entry: LogEntry)
        ensures
            entry.level == (if *self is MissingCredentials {
                LogLevel::Warn
            } else {
                LogLevel::Error
            }),
            entry.event@ == (match *self {
                Self::MissingCredentials(_) => "Token authentication failed due to missing credentials"@,
                Self::AuthenticationFailed(_) => "Token authentication failed"@,
                Self::NetworkError(_) => "Token authentication failed due to network error"@,
            }),
            self.text_prefix().is_prefix_of(entry.error@),
            !(self is NetworkError) ==> entry.error@ == self.text_prefix(),
    {
        let error = self.message();
        match self {
            Self::MissingCredentials(_) => LogEntry {
                level: LogLevel::Warn,
                event: String::from_str("Token authentication failed due to missing credentials"),
                error,
            },
            Self::AuthenticationFailed(_) => LogEntry {
                level: LogLevel::Error,
                event: String::from_str("Token authentication failed"),
                error,
            },
            Self::NetworkError(_) => LogEntry {
                level: LogLevel::Error,
                event: String::from_str("Token authentication failed due to network error"),
                error,
            },
        }
    }
}

/// Why a file was not uploaded.
#[derive(Debug)]
pub enum FileUploadError {
    /// The file could not be read.
    FileReadError(std::io::Error),
    /// The exchange itself failed.
    UploadError(reqwest::Error),
    /// The media type of the file is not one that can be sent.
    InvalidContentType,
    /// The service answered with a status other than 200.
    UnexpectedStatusCode(u16),
    /// The text given as the file's URL is no URL.
    InvalidURL(String),
}

impl FileUploadError {
    /// The text the error is reported with, up to what an underlying error
    /// adds to it.
    pub open spec fn text_prefix(self) -> Seq<char> {
        match self {
            Self::FileReadError(_) => "File upload failed: Unable to read file - "@,
            Self::UploadError(_) => "File upload failed: Network error - "@,
            Self::InvalidContentType => "File upload failed: Invalid content type provided"@,
            Self::UnexpectedStatusCode(status) => "File upload failed: Server responded with unexpected status code "@
                + decimal(status as nat),
            Self::InvalidURL(url) => "File upload failed: Invalid URL provided - "@ + url@,
        }
    }

    /// Whether the error's text ends with that of an underlying error.
    pub open spec fn has_cause(self) -> bool {
        self is FileReadError || self is UploadError
    }

    /// The text the error is reported with. Where the error has a cause, the
    /// text ends with the cause's own text.
    pub fn message(&self) -> (text: String)
        ensures
            self.text_prefix().is_prefix_of(text@),
            !self.has_cause() ==> text@ == self.text_prefix(),
    {
        match self {
            Self::FileReadError(error) => {
                let detail = io_error_text(error);
                joined("File upload failed: Unable to read file - ", detail.as_str())
            },
            Self::UploadError(error) => {
                let detail = network_error_text(error);
                joined("File upload failed: Network error - ", detail.as_str())
            },
            Self::InvalidContentType => String::from_str(
                "File upload failed: Invalid content type provided",
            ),
            Self::UnexpectedStatusCode(status) => {
                let code = format_u64(*status as u64);
                joined(
                    "File upload failed: Server responded with unexpected status code ",
                    code.as_str(),
                )
            },
            Self::InvalidURL(url) => joined(
                "File upload failed: Invalid URL provided - ",
                url.as_str(),
            ),
        }
    }

    /// The entry to log for the error: an unusable content type or URL is a
    /// warning, everything else an error.
    pub fn log(&self) -> (entry: LogEntry)
        ensures
            entry.level == (if *self is InvalidContentType || *self is InvalidURL {
                LogLevel::Warn
            } else {
                LogLevel::Error
            }),
            entry.event@ == (match *self {
                Self::FileReadError(_) => "File upload failed due to file read error"@,
                Self::UploadError(_) => "File upload failed due to network error"@,
                Self::InvalidContentType => "File upload failed due to invalid content type"@,
                Self::UnexpectedStatusCode(_) => "File upload failed with unexpected status code"@,
                Self::InvalidURL(_) => "File upload failed due to invalid URL"@,
            }),
            self.text_prefix().is_prefix_of(entry.error@),
            !self.has_cause() ==> entry.error@ == self.text_prefix(),
    {
        let error = self.message();
        match self {
            Self::FileReadError(_) => LogEntry {
                level: LogLevel::Error,
                event: String::from_str("File upload failed due to file read error"),
                error,
            },
            Self::UploadError(_) => LogEntry {
                level: LogLevel::Error,
                event: String::from_str("File upload failed due to network error"),
                error,
            },
            Self::InvalidContentType => LogEntry {
                level: LogLevel::Warn,
                event: String::from_str("File upload failed due to invalid content type"),
                error,
            },
            Self::UnexpectedStatusCode(_) => LogEntry {
                level: LogLevel::Error,
                event: String::from_str("File upload failed with unexpected status code"),
                error,
            },
            Self::InvalidURL(_) => LogEntry {
                level: LogLevel::Warn,
                event: String::from_str("File upload failed due to invalid URL"),
                error,
            },
        }
    }
}

/// Why an operation on a table did not produce its result.
#[derive(Debug)]
pub enum TableError {
    /// The page size of the query is not positive.
    InvalidPageSize,
    /// The page number of the query is not positive.
    InvalidPageNumber,
    /// The handle names no table.
    MissingTableId,
    /// The handle refers to no client.
    MissingBaserow,
    /// The configuration holds no token to present.
    MissingAuthentication,
    /// The handle is not mapped, which typed access to a row requires.
    MissingMapper,
    /// The service answered with a status that is no success; the body is
    /// carried as it came.
    Request { status: u16, body: String },
    /// The response was received, and does not have the shape asked for.
    Deserialization(serde_json::Error),
}

impl TableError {
    /// The text the error is reported with, up to what an underlying error
    /// adds to it.
    pub open spec fn text_prefix(self) -> Seq<char> {
        match self {
            Self::InvalidPageSize => "page size must be positive"@,
            Self::InvalidPageNumber => "page number must be positive"@,
            Self::MissingTableId => "Table ID is missing"@,
            Self::MissingBaserow => "Baserow instance is missing"@,
            Self::MissingAuthentication => "No authentication token provided"@,
            Self::MissingMapper => "schema mapping required for typed access; perform discovery first"@,
            Self::Request { status, body } => "Request failed (status: "@ + decimal(status as nat)
                + "): "@ + body@,
            Self::Deserialization(_) => "Response has an unexpected shape: "@,
        }
    }

    /// The text the error is reported with. For a response of an unexpected
    /// shape it ends with the reader's own text.
    pub fn message(&self) -> (text: String)
        ensures
            self.text_prefix().is_prefix_of(text@),
            !(self is Deserialization) ==> text@ == self.text_prefix(),
    {
        match self {
            Self::InvalidPageSize => String::from_str("page size must be positive"),
            Self::InvalidPageNumber => String::from_str("page number must be positive"),
            Self::MissingTableId => String::from_str("Table ID is missing"),
            Self::MissingBaserow => String::from_str("Baserow instance is missing"),
            Self::MissingAuthentication => String::from_str("No authentication token provided"),
            Self::MissingMapper => String::from_str(
                "schema mapping required for typed access; perform discovery first",
            ),
            Self::Request { status, body } => {
                let code = format_u64(*status as u64);
                let mut text = joined("Request failed (status: ", code.as_str());
                text.append("): ");
                text.append(body.as_str());
                text
            },
            Self::Deserialization(error) => {
                let detail = json_error_text(error);
                joined("Response has an unexpected shape: ", detail.as_str())
            },
        }
    }
}

} // verus!
