//! The failure taxonomy of the classification core, with the exact
//! human-readable message each failure renders to and the translations
//! between the layers.

use vstd::prelude::*;

use crate::decimal::decimal_of;
use crate::decimal::u64_to_string;

verus! {

/// A value-level validation failure: bad filename, bad path, empty input.
#[derive(Clone, Debug, PartialEq, Eq, Structural)]
pub enum ValidationError {
    InvalidCharacter,
    ExceedsMaxLength,
    EmptyValue,
    AbsolutePath,
    PathTraversal,
    InvalidPath,
    FileNotFound,
}

/// A failure reported by the classification engine.
#[derive(Clone, Debug, PartialEq, Eq)]
pub enum MagicError {
    AnalysisFailed(String),
    DatabaseLoadFailed(String),
    FileNotFound(String),
}

/// A failure of the credential check.
#[derive(Clone, Debug, PartialEq, Eq)]
pub enum AuthenticationError {
    InvalidCredentials,
    InternalError(String),
}

/// A domain-level failure, aggregating the value-level kinds.
#[derive(Clone, Debug, PartialEq, Eq)]
pub enum DomainError {
    ValidationError(ValidationError),
    MagicError(MagicError),
    FileNotFound(String),
    PermissionDenied(String),
    ConfigurationError(String),
}

/// A storage-level failure around spill files.
#[derive(Clone, Debug, PartialEq, Eq)]
pub enum StorageError {
    InsufficientSpace { available_mb: u64, required_mb: u64, path: String },
    IoError(String),
}

/// An infrastructure failure; the I/O variant carries the rendered text
/// of the underlying error.
#[derive(Clone, Debug, PartialEq, Eq)]
pub enum InfrastructureError {
    Io(String),
    InvalidConfig(String),
    MaxRetriesExceeded(String),
}

/// The caller-facing failure of a classification operation.
#[derive(Clone, Debug, PartialEq, Eq)]
pub enum ApplicationError {
    BadRequest(String),
    Unauthorized(String),
    Forbidden(String),
    NotFound(String),
    UnprocessableEntity(String),
    InternalError(String),
    Timeout,
}

pub open spec fn validation_message(e: ValidationError) -> Seq<char> {
    match e {
        ValidationError::InvalidCharacter => "Invalid character"@,
        ValidationError::ExceedsMaxLength => "Exceeds maximum length"@,
        ValidationError::EmptyValue => "Empty value"@,
        ValidationError::AbsolutePath => "Absolute path not allowed"@,
        ValidationError::PathTraversal => "Path traversal not allowed"@,
        ValidationError::InvalidPath => "Invalid path"@,
        ValidationError::FileNotFound => "File or directory not found"@,
    }
}

pub open spec fn magic_message(e: MagicError) -> Seq<char> {
    match e {
        MagicError::AnalysisFailed(m) => "Analysis failed: "@ + m@,
        MagicError::DatabaseLoadFailed(m) => "Database load failed: "@ + m@,
        MagicError::FileNotFound(p) => "File not found: "@ + p@,
    }
}

pub open spec fn authentication_message(e: AuthenticationError) -> Seq<char> {
    match e {
        AuthenticationError::InvalidCredentials => "Invalid credentials"@,
        AuthenticationError::InternalError(m) => "Internal error: "@ + m@,
    }
}

pub open spec fn domain_message(e: DomainError) -> Seq<char> {
    match e {
        DomainError::ValidationError(v) => "Validation error: "@ + validation_message(v),
        DomainError::MagicError(m) => "Magic error: "@ + magic_message(m),
        DomainError::FileNotFound(p) => "File not found: "@ + p@,
        DomainError::PermissionDenied(p) => "Permission denied: "@ + p@,
        DomainError::ConfigurationError(m) => "Configuration error: "@ + m@,
    }
}

pub open spec fn storage_message(e: StorageError) -> Seq<char> {
    match e {
        StorageError::InsufficientSpace { available_mb, required_mb, path } => {
            "Insufficient storage space at "@ + path@ + ": "@ + decimal_of(available_mb as nat)
                + "MB available, but "@ + decimal_of(required_mb as nat) + "MB required"@
        },
        StorageError::IoError(m) => "Storage I/O error: "@ + m@,
    }
}

pub open spec fn infrastructure_message(e: InfrastructureError) -> Seq<char> {
    match e {
        InfrastructureError::Io(m) => "I/O error: "@ + m@,
        InfrastructureError::InvalidConfig(m) => "Invalid configuration: "@ + m@,
        InfrastructureError::MaxRetriesExceeded(m) => "Max retries exceeded: "@ + m@,
    }
}

pub open spec fn application_message(e: ApplicationError) -> Seq<char> {
    match e {
        ApplicationError::BadRequest(m) => "Bad Request: "@ + m@,
        ApplicationError::Unauthorized(m) => "Unauthorized: "@ + m@,
        ApplicationError::Forbidden(m) => "Forbidden: "@ + m@,
        ApplicationError::NotFound(m) => "Not Found: "@ + m@,
        ApplicationError::UnprocessableEntity(m) => "Unprocessable Entity: "@ + m@,
        ApplicationError::InternalError(m) => "Internal Error: "@ + m@,
        ApplicationError::Timeout => "Timeout"@,
    }
}

/// How an engine failure surfaces to the caller: a missing file becomes
/// not-found, everything else an unprocessable entity.
pub open spec fn application_of_magic(e: MagicError, r: ApplicationError) -> bool {
    match e {
        MagicError::FileNotFound(p) => r matches ApplicationError::NotFound(m) && m@
            == "File not found: "@ + p@,
        _ => r matches ApplicationError::UnprocessableEntity(m) && m@ == magic_message(e),
    }
}

impl ValidationError {
    /// The rendered message.
    pub fn message(&self) -> (r: String)
        ensures
            r@ == validation_message(*self),
    {
        match self {
            ValidationError::InvalidCharacter => String::from_str("Invalid character"),
            ValidationError::ExceedsMaxLength => String::from_str("Exceeds maximum length"),
            ValidationError::EmptyValue => String::from_str("Empty value"),
            ValidationError::AbsolutePath => String::from_str("Absolute path not allowed"),
            ValidationError::PathTraversal => String::from_str("Path traversal not allowed"),
            ValidationError::InvalidPath => String::from_str("Invalid path"),
            ValidationError::FileNotFound => String::from_str("File or directory not found"),
        }
    }
}

impl MagicError {
    /// The rendered message.
    pub fn message(&self) -> (r: String)
        ensures
            r@ == magic_message(*self),
    {
        match self {
            MagicError::AnalysisFailed(m) => {
                let mut s = String::from_str("Analysis failed: ");
                s.append(m.as_str());
                s
            },
            MagicError::DatabaseLoadFailed(m) => {
                let mut s = String::from_str("Database load failed: ");
                s.append(m.as_str());
                s
            },
            MagicError::FileNotFound(p) => {
                let mut s = String::from_str("File not found: ");
                s.append(p.as_str());
                s
            },
        }
    }
}

impl AuthenticationError {
    /// The rendered message.
    pub fn message(&self) -> (r: String)
        ensures
            r@ == authentication_message(*self),
    {
        match self {
            AuthenticationError::InvalidCredentials => String::from_str("Invalid credentials"),
            AuthenticationError::InternalError(m) => {
                let mut s = String::from_str("Internal error: ");
                s.append(m.as_str());
                s
            },
        }
    }
}

impl DomainError {
    /// The rendered message.
    pub fn message(&self) -> (r: String)
        ensures
            r@ == domain_message(*self),
    {
        match self {
            DomainError::ValidationError(v) => {
                let mut s = String::from_str("Validation error: ");
                let inner = v.message();
                s.append(inner.as_str());
                s
            },
            DomainError::MagicError(m) => {
                let mut s = String::from_str("Magic error: ");
                let inner = m.message();
                s.append(inner.as_str());
                s
            },
            DomainError::FileNotFound(p) => {
                let mut s = String::from_str("File not found: ");
                s.append(p.as_str());
                s
            },
            DomainError::PermissionDenied(p) => {
                let mut s = String::from_str("Permission denied: ");
                s.append(p.as_str());
                s
            },
            DomainError::ConfigurationError(m) => {
                let mut s = String::from_str("Configuration error: ");
                s.append(m.as_str());
                s
            },
        }
    }

    /// The translation applied where a validation failure enters the
    /// domain layer.
    pub fn from_validation(err: ValidationError) -> (r: Self)
        ensures
            r == DomainError::ValidationError(err),
    {
        DomainError::ValidationError(err)
    }

    /// The translation applied where an engine failure enters the domain
    /// layer.
    pub fn from_magic(err: MagicError) -> (r: Self)
        ensures
            r == DomainError::MagicError(err),
    {
        DomainError::MagicError(err)
    }
}

impl StorageError {
    /// The rendered message.
    pub fn message(&self) -> (r: String)
        ensures
            r@ == storage_message(*self),
    {
        match self {
            StorageError::InsufficientSpace { available_mb, required_mb, path } => {
                let mut s = String::from_str("Insufficient storage space at ");
                s.append(path.as_str());
                s.append(": ");
                let avail = u64_to_string(*available_mb);
                s.append(avail.as_str());
                s.append("MB available, but ");
                let req = u64_to_string(*required_mb);
                s.append(req.as_str());
                s.append("MB required");
                s
            },
            StorageError::IoError(m) => {
                let mut s = String::from_str("Storage I/O error: ");
                s.append(m.as_str());
                s
            },
        }
    }
}

impl InfrastructureError {
    /// The rendered message.
    pub fn message(&self) -> (r: String)
        ensures
            r@ == infrastructure_message(*self),
    {
        match self {
            InfrastructureError::Io(m) => {
                let mut s = String::from_str("I/O error: ");
                s.append(m.as_str());
                s
            },
            InfrastructureError::InvalidConfig(m) => {
                let mut s = String::from_str("Invalid configuration: ");
                s.append(m.as_str());
                s
            },
            InfrastructureError::MaxRetriesExceeded(m) => {
                let mut s = String::from_str("Max retries exceeded: ");
                s.append(m.as_str());
                s
            },
        }
    }
}

impl ApplicationError {
    /// The rendered message.
    pub fn message(&self) -> (r: String)
        ensures
            r@ == application_message(*self),
    {
        match self {
            ApplicationError::BadRequest(m) => {
                let mut s = String::from_str("Bad Request: ");
                s.append(m.as_str());
                s
            },
            ApplicationError::Unauthorized(m) => {
                let mut s = String::from_str("Unauthorized: ");
                s.append(m.as_str());
                s
            },
            ApplicationError::Forbidden(m) => {
                let mut s = String::from_str("Forbidden: ");
                s.append(m.as_str());
                s
            },
            ApplicationError::NotFound(m) => {
                let mut s = String::from_str("Not Found: ");
                s.append(m.as_str());
                s
            },
            ApplicationError::UnprocessableEntity(m) => {
                let mut s = String::from_str("Unprocessable Entity: ");
                s.append(m.as_str());
                s
            },
            ApplicationError::InternalError(m) => {
                let mut s = String::from_str("Internal Error: ");
                s.append(m.as_str());
                s
            },
            ApplicationError::Timeout => String::from_str("Timeout"),
        }
    }

    /// The HTTP status the presentation layer renders this failure with.
    pub fn status_code(&self) -> (r: u16)
        ensures
            r == match *self {
                ApplicationError::BadRequest(_) => 400u16,
                ApplicationError::Unauthorized(_) => 401u16,
                ApplicationError::Forbidden(_) => 403u16,
                ApplicationError::NotFound(_) => 404u16,
                ApplicationError::UnprocessableEntity(_) => 500u16,
                ApplicationError::InternalError(_) => 500u16,
                ApplicationError::Timeout => 504u16,
            },
    {
        match self {
            ApplicationError::BadRequest(_) => 400,
            ApplicationError::Unauthorized(_) => 401,
            ApplicationError::Forbidden(_) => 403,
            ApplicationError::NotFound(_) => 404,
            ApplicationError::UnprocessableEntity(_) => 500,
            ApplicationError::InternalError(_) => 500,
            ApplicationError::Timeout => 504,
        }
    }

    /// The translation applied where a domain failure surfaces to the
    /// caller: validation turns into a bad request, a missing file into
    /// not-found, an engine failure into an unprocessable entity.
    pub fn from_domain(err: DomainError) -> (r: Self)
        ensures
            match err {
                DomainError::ValidationError(v) => r matches ApplicationError::BadRequest(m)
                    && m@ == validation_message(v),
                DomainError::MagicError(e) => match e {
                    MagicError::FileNotFound(p) => r matches ApplicationError::NotFound(m) && m@
                        == "File not found: "@ + p@,
                    _ => r matches ApplicationError::UnprocessableEntity(m) && m@ == magic_message(
                        e,
                    ),
                },
                DomainError::FileNotFound(p) => r matches ApplicationError::NotFound(m) && m@
                    == "File not found: "@ + p@,
                DomainError::PermissionDenied(p) => r matches ApplicationError::Forbidden(m) && m@
                    == "Permission denied: "@ + p@,
                DomainError::ConfigurationError(m0) => r matches ApplicationError::InternalError(m)
                    && m@ == m0@,
            },
    {
        match err {
            DomainError::ValidationError(v) => ApplicationError::BadRequest(v.message()),
            DomainError::MagicError(e) => Self::from_magic(e),
            DomainError::FileNotFound(p) => {
                let mut s = String::from_str("File not found: ");
                s.append(p.as_str());
                ApplicationError::NotFound(s)
            },
            DomainError::PermissionDenied(p) => {
                let mut s = String::from_str("Permission denied: ");
                s.append(p.as_str());
                ApplicationError::Forbidden(s)
            },
            DomainError::ConfigurationError(m) => ApplicationError::InternalError(m),
        }
    }

    /// The translation applied where an engine failure surfaces to the
    /// caller directly.
    pub fn from_magic(err: MagicError) -> (r: Self)
        ensures
            application_of_magic(err, r),
    {
        match err {
            MagicError::FileNotFound(p) => {
                let mut s = String::from_str("File not found: ");
                s.append(p.as_str());
                ApplicationError::NotFound(s)
            },
            _ => ApplicationError::UnprocessableEntity(err.message()),
        }
    }

    /// The translation applied where a validation failure surfaces to the
    /// caller directly.
    pub fn from_validation(err: ValidationError) -> (r: Self)
        ensures
            r matches ApplicationError::BadRequest(m) && m@ == validation_message(err),
    {
        ApplicationError::BadRequest(err.message())
    }
}

} // verus!
