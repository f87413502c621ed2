//! The closed set of failures a request can end in, and how each one is
//! shown to the caller.

use vstd::prelude::*;

verus! {

/// Why a request failed.
#[derive(Debug)]
pub enum AppError {
    /// Missing, malformed, expired or forged credentials; also every refresh
    /// failure, so that a caller cannot tell which check rejected it.
    Unauthorized,
    Forbidden,
    NotFound(String),
    Validation(String),
    Conflict(String),
    /// Admission denied; the payload is the number of whole seconds after
    /// which the window has run out.
    RateLimited(u64),
    /// The record store failed; the detail stays on the server.
    Database(String),
    /// Signing or another internal step failed; the detail stays on the server.
    Internal(String),
}

/// What a handler returns.
pub type AppResult<T> = Result<T, AppError>;

impl AppError {
    /// The HTTP status that stands for this failure.
    pub open spec fn status_of(self) -> u16 {
        match self {
            AppError::Unauthorized => 401,
            AppError::Forbidden => 403,
            AppError::NotFound(_) => 404,
            AppError::Validation(_) => 422,
            AppError::Conflict(_) => 409,
            AppError::RateLimited(_) => 429,
            AppError::Database(_) => 500,
            AppError::Internal(_) => 500,
        }
    }

    /// The text shown to the caller. Store and internal failures are opaque.
    pub open spec fn message_of(self) -> Seq<char> {
        match self {
            AppError::Unauthorized => "Authentication required"@,
            AppError::Forbidden => "Forbidden"@,
            AppError::NotFound(msg) => msg@,
            AppError::Validation(msg) => msg@,
            AppError::Conflict(msg) => msg@,
            AppError::RateLimited(_) => "Rate limited"@,
            AppError::Database(_) => "Internal server error"@,
            AppError::Internal(_) => "Internal server error"@,
        }
    }

    /// The full description, detail included, as it is written to the log.
    pub open spec fn description_of(self) -> Seq<char> {
        match self {
            AppError::Unauthorized => "Authentication required"@,
            AppError::Forbidden => "Forbidden"@,
            AppError::NotFound(msg) => "Not found: "@ + msg@,
            AppError::Validation(msg) => "Validation error: "@ + msg@,
            AppError::Conflict(msg) => "Conflict: "@ + msg@,
            AppError::RateLimited(_) => "Rate limited"@,
            AppError::Database(msg) => "Database error: "@ + msg@,
            AppError::Internal(msg) => "Internal error: "@ + msg@,
        }
    }

    /// The HTTP status that stands for this failure.
    pub fn status_code(&self) -> (code: u16)
        ensures
            code == self.status_of(),
    {
        match self {
            AppError::Unauthorized => 401,
            AppError::Forbidden => 403,
            AppError::NotFound(_) => 404,
            AppError::Validation(_) => 422,
            AppError::Conflict(_) => 409,
            AppError::RateLimited(_) => 429,
            AppError::Database(_) => 500,
            AppError::Internal(_) => 500,
        }
    }

    /// The text shown to the caller.
    pub fn message(&self) -> (text: String)
        ensures
            text@ == self.message_of(),
    {
        match self {
            AppError::Unauthorized => "Authentication required".to_owned(),
            AppError::Forbidden => "Forbidden".to_owned(),
            AppError::NotFound(msg) => msg.clone(),
            AppError::Validation(msg) => msg.clone(),
            AppError::Conflict(msg) => msg.clone(),
            AppError::RateLimited(_) => "Rate limited".to_owned(),
            AppError::Database(_) => "Internal server error".to_owned(),
            AppError::Internal(_) => "Internal server error".to_owned(),
        }
    }

    /// The full description, detail included, for the log.
    pub fn to_string(&self) -> (text: String)
        ensures
            text@ == self.description_of(),
    {
        match self {
            AppError::Unauthorized => "Authentication required".to_owned(),
            AppError::Forbidden => "Forbidden".to_owned(),
            AppError::NotFound(msg) => "Not found: ".to_owned().concat(msg.as_str()),
            AppError::Validation(msg) => "Validation error: ".to_owned().concat(msg.as_str()),
            AppError::Conflict(msg) => "Conflict: ".to_owned().concat(msg.as_str()),
            AppError::RateLimited(_) => "Rate limited".to_owned(),
            AppError::Database(msg) => "Database error: ".to_owned().concat(msg.as_str()),
            AppError::Internal(msg) => "Internal error: ".to_owned().concat(msg.as_str()),
        }
    }

    /// Whether the caller is told nothing but that the request failed.
    pub open spec fn is_opaque(self) -> bool {
        self is Database || self is Internal
    }
}

/// Whether an outcome is a validation failure with exactly this text.
pub open spec fn invalid_with<T>(outcome: AppResult<T>, text: Seq<char>) -> bool {
    outcome matches Err(AppError::Validation(message)) && message@ == text
}

/// No store or internal failure shows its detail to the caller.
pub proof fn lemma_opaque_failures_hide_detail(e: AppError)
    requires
        e.is_opaque(),
    ensures
        e.message_of() == "Internal server error"@,
        e.status_of() == 500,
{
}

} // verus!
