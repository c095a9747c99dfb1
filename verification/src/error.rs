//! Error taxonomy of the service.

use vstd::prelude::*;
use vstd::string::*;

pub mod validation;

verus! {

/// The kinds of failure a caller can be told about.
#[derive(Debug, Clone, Copy, PartialEq, Eq, Structural)]
pub enum ErrorKind {
    Validation,
    InvalidCredentials,
    Conflict,
    NotFound,
    Unauthorized,
    Forbidden,
    RateLimitExceeded,
    Internal,
}

impl ErrorKind {
    /// The HTTP status under which the kind is reported.
    pub open spec fn status(self) -> u16 {
        match self {
            ErrorKind::Validation => 400,
            ErrorKind::InvalidCredentials => 401,
            ErrorKind::Conflict => 409,
            ErrorKind::NotFound => 404,
            ErrorKind::Unauthorized => 401,
            ErrorKind::Forbidden => 403,
            ErrorKind::RateLimitExceeded => 429,
            ErrorKind::Internal => 500,
        }
    }

    pub fn status_code(&self) -> (code: u16)
        ensures
            code == self.status(),
    {
        match self {
            ErrorKind::Validation => 400,
            ErrorKind::InvalidCredentials => 401,
            ErrorKind::Conflict => 409,
            ErrorKind::NotFound => 404,
            ErrorKind::Unauthorized => 401,
            ErrorKind::Forbidden => 403,
            ErrorKind::RateLimitExceeded => 429,
            ErrorKind::Internal => 500,
        }
    }
}

/// Application error. Variants with a `String` carry detail for the log.
#[derive(Debug, Clone, PartialEq, Eq)]
pub enum AppError {
    /// The account directory could not be reached or answered with a fault.
    Database(String),
    /// The input has the wrong shape.
    Validation(String),
    /// Login failed; deliberately says nothing about the cause.
    InvalidCredentials,
    /// The username or the email is already taken.
    Conflict(String),
    /// The account is absent or inactive.
    NotFound(String),
    /// The token is missing, invalid or expired.
    Unauthorized,
    /// The origin check failed.
    Forbidden(String),
    /// The client sent too many requests in the current window.
    RateLimitExceeded,
    /// Hashing or signing failed.
    Internal(String),
    /// The configuration is unusable.
    Config(String),
}

/// Mathematical value of an [`AppError`].
pub enum AppErrorView {
    Database(Seq<char>),
    Validation(Seq<char>),
    InvalidCredentials,
    Conflict(Seq<char>),
    NotFound(Seq<char>),
    Unauthorized,
    Forbidden(Seq<char>),
    RateLimitExceeded,
    Internal(Seq<char>),
    Config(Seq<char>),
}

pub type AppResult<T> = Result<T, AppError>;

impl View for AppError {
    type V = AppErrorView;

    open spec fn view(&self) -> AppErrorView {
        match self {
            AppError::Database(m) => AppErrorView::Database(m@),
            AppError::Validation(m) => AppErrorView::Validation(m@),
            AppError::InvalidCredentials => AppErrorView::InvalidCredentials,
            AppError::Conflict(m) => AppErrorView::Conflict(m@),
            AppError::NotFound(m) => AppErrorView::NotFound(m@),
            AppError::Unauthorized => AppErrorView::Unauthorized,
            AppError::Forbidden(m) => AppErrorView::Forbidden(m@),
            AppError::RateLimitExceeded => AppErrorView::RateLimitExceeded,
            AppError::Internal(m) => AppErrorView::Internal(m@),
            AppError::Config(m) => AppErrorView::Config(m@),
        }
    }
}

impl AppErrorView {
    /// The kind under which an error is reported. Directory faults and
    /// configuration faults are internal errors to the caller.
    pub open spec fn kind(self) -> ErrorKind {
        match self {
            AppErrorView::Database(_) => ErrorKind::Internal,
            AppErrorView::Validation(_) => ErrorKind::Validation,
            AppErrorView::InvalidCredentials => ErrorKind::InvalidCredentials,
            AppErrorView::Conflict(_) => ErrorKind::Conflict,
            AppErrorView::NotFound(_) => ErrorKind::NotFound,
            AppErrorView::Unauthorized => ErrorKind::Unauthorized,
            AppErrorView::Forbidden(_) => ErrorKind::Forbidden,
            AppErrorView::RateLimitExceeded => ErrorKind::RateLimitExceeded,
            AppErrorView::Internal(_) => ErrorKind::Internal,
            AppErrorView::Config(_) => ErrorKind::Internal,
        }
    }

    /// The full text of the error, for the log.
    pub open spec fn message(self) -> Seq<char> {
        match self {
            AppErrorView::Database(m) => "Database error: "@ + m,
            AppErrorView::Validation(m) => "Validation error: "@ + m,
            AppErrorView::InvalidCredentials => "Invalid credentials"@,
            AppErrorView::Conflict(m) => "Conflict: "@ + m,
            AppErrorView::NotFound(m) => "Not found: "@ + m,
            AppErrorView::Unauthorized => "Unauthorized access"@,
            AppErrorView::Forbidden(m) => "Forbidden: "@ + m,
            AppErrorView::RateLimitExceeded => "Rate limit exceeded"@,
            AppErrorView::Internal(m) => "Internal server error: "@ + m,
            AppErrorView::Config(m) => "Configuration error: "@ + m,
        }
    }

    /// The text shown to an outside caller. Detail of internal, directory and
    /// configuration faults is withheld.
    pub open spec fn public_message(self) -> Seq<char> {
        match self {
            AppErrorView::Database(_) => "Internal server error"@,
            AppErrorView::Internal(_) => "Internal server error"@,
            AppErrorView::Config(_) => "Internal server error"@,
            other => other.message(),
        }
    }
}

/// `r` is the error `e`.
pub open spec fn fails_with<T>(r: AppResult<T>, e: AppErrorView) -> bool {
    match r {
        Err(x) => x@ == e,
        Ok(_) => false,
    }
}

/// `prefix` followed by `detail`.
fn prefixed(prefix: &str, detail: &String) -> (r: String)
    ensures
        r@ == prefix@ + detail@,
{
    let head = prefix.to_owned();
    head.concat(detail.as_str())
}

impl AppError {
    pub fn kind(&self) -> (k: ErrorKind)
        ensures
            k == self@.kind(),
    {
        match self {
            AppError::Database(_) => ErrorKind::Internal,
            AppError::Validation(_) => ErrorKind::Validation,
            AppError::InvalidCredentials => ErrorKind::InvalidCredentials,
            AppError::Conflict(_) => ErrorKind::Conflict,
            AppError::NotFound(_) => ErrorKind::NotFound,
            AppError::Unauthorized => ErrorKind::Unauthorized,
            AppError::Forbidden(_) => ErrorKind::Forbidden,
            AppError::RateLimitExceeded => ErrorKind::RateLimitExceeded,
            AppError::Internal(_) => ErrorKind::Internal,
            AppError::Config(_) => ErrorKind::Internal,
        }
    }

    pub fn message(&self) -> (s: String)
        ensures
            s@ == self@.message(),
    {
        match self {
            AppError::Database(m) => prefixed("Database error: ", m),
            AppError::Validation(m) => prefixed("Validation error: ", m),
            AppError::InvalidCredentials => "Invalid credentials".to_owned(),
            AppError::Conflict(m) => prefixed("Conflict: ", m),
            AppError::NotFound(m) => prefixed("Not found: ", m),
            AppError::Unauthorized => "Unauthorized access".to_owned(),
            AppError::Forbidden(m) => prefixed("Forbidden: ", m),
            AppError::RateLimitExceeded => "Rate limit exceeded".to_owned(),
            AppError::Internal(m) => prefixed("Internal server error: ", m),
            AppError::Config(m) => prefixed("Configuration error: ", m),
        }
    }

    pub fn public_message(&self) -> (s: String)
        ensures
            s@ == self@.public_message(),
    {
        match self {
            AppError::Database(_) => "Internal server error".to_owned(),
            AppError::Internal(_) => "Internal server error".to_owned(),
            AppError::Config(_) => "Internal server error".to_owned(),
            _ => self.message(),
        }
    }
}

/// The text never carries the detail of a directory, internal or
/// configuration fault.
pub proof fn public_message_hides_internal_detail(e: AppErrorView)
    requires
        e.kind() == ErrorKind::Internal,
    ensures
        e.public_message() == "Internal server error"@,
{
}

} // verus!
