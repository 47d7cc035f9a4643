//! The failures a call can end in, and how each is shown to the caller.

use vstd::prelude::*;

verus! {

/// A call-level failure, with its detail text.
///
/// A submission that fails its tests is no failure of the call: it is graded
/// and reported as data.
#[derive(Debug, Clone)]
pub enum AppError {
    /// The principal could not be established.
    Authentication(String),
    /// The principal may not do what was asked.
    Authorization(String),
    /// What was asked for does not exist.
    NotFound(String),
    /// The input is malformed or empty.
    Validation(String),
    /// The record store reported an error.
    Database(String),
    /// The sandbox or the host failed.
    Internal(String),
    /// A collaborator could not be reached.
    ExternalService(String),
    /// The caller asked too often.
    RateLimit(String),
}

/// The class of an [`AppError`], without its detail.
#[derive(Debug, Clone, Copy, PartialEq, Eq, Structural)]
pub enum ErrorKind {
    Authentication,
    Authorization,
    NotFound,
    Validation,
    Database,
    Internal,
    ExternalService,
    RateLimit,
}

/// Mathematical content of an [`AppError`].
pub struct AppErrorView {
    pub kind: ErrorKind,
    pub detail: Seq<char>,
}

impl View for AppError {
    type V = AppErrorView;

    open spec fn view(&self) -> AppErrorView {
        match self {
            AppError::Authentication(d) => AppErrorView {
                kind: ErrorKind::Authentication,
                detail: d@,
            },
            AppError::Authorization(d) => AppErrorView { kind: ErrorKind::Authorization, detail: d@ },
            AppError::NotFound(d) => AppErrorView { kind: ErrorKind::NotFound, detail: d@ },
            AppError::Validation(d) => AppErrorView { kind: ErrorKind::Validation, detail: d@ },
            AppError::Database(d) => AppErrorView { kind: ErrorKind::Database, detail: d@ },
            AppError::Internal(d) => AppErrorView { kind: ErrorKind::Internal, detail: d@ },
            AppError::ExternalService(d) => AppErrorView {
                kind: ErrorKind::ExternalService,
                detail: d@,
            },
            AppError::RateLimit(d) => AppErrorView { kind: ErrorKind::RateLimit, detail: d@ },
        }
    }
}

/// Status code under which a failure of `kind` leaves the boundary.
pub open spec fn status_of_kind(kind: ErrorKind) -> u16 {
    match kind {
        ErrorKind::Authentication => 401,
        ErrorKind::Authorization => 403,
        ErrorKind::NotFound => 404,
        ErrorKind::Validation => 400,
        ErrorKind::Database => 500,
        ErrorKind::Internal => 500,
        ErrorKind::ExternalService => 502,
        ErrorKind::RateLimit => 429,
    }
}

/// Title under which a failure of `kind` is reported.
pub open spec fn title_of_kind(kind: ErrorKind) -> Seq<char> {
    match kind {
        ErrorKind::Authentication => "Authentication Error"@,
        ErrorKind::Authorization => "Authorization Error"@,
        ErrorKind::NotFound => "Not Found"@,
        ErrorKind::Validation => "Validation Error"@,
        ErrorKind::Database => "Database Error"@,
        ErrorKind::Internal => "Internal Server Error"@,
        ErrorKind::ExternalService => "External Service Error"@,
        ErrorKind::RateLimit => "Rate Limit Exceeded"@,
    }
}

/// What stands before the detail in the full text of a failure of `kind`.
pub open spec fn lead_of_kind(kind: ErrorKind) -> Seq<char> {
    match kind {
        ErrorKind::Authentication => "Authentication error: "@,
        ErrorKind::Authorization => "Authorization error: "@,
        ErrorKind::NotFound => "Resource not found: "@,
        ErrorKind::Validation => "Validation error: "@,
        ErrorKind::Database => "Database error: "@,
        ErrorKind::Internal => "Internal server error: "@,
        ErrorKind::ExternalService => "External service error: "@,
        ErrorKind::RateLimit => "Rate limit exceeded: "@,
    }
}

/// The text of a failure that the caller is shown: the full text, except that
/// the detail of an internal failure is withheld.
pub open spec fn surfaced_text(e: AppErrorView) -> Seq<char> {
    if e.kind == ErrorKind::Internal {
        "Internal server error"@
    } else {
        lead_of_kind(e.kind) + e.detail
    }
}

/// What a failure looks like at the boundary.
#[derive(Debug, Clone)]
pub struct ErrorResponse {
    pub status_code: u16,
    pub error_type: String,
    pub message: String,
}

impl AppError {
    /// The class of this failure.
    pub fn kind(&self) -> (r: ErrorKind)
        ensures
            r == self@.kind,
    {
        match self {
            AppError::Authentication(_) => ErrorKind::Authentication,
            AppError::Authorization(_) => ErrorKind::Authorization,
            AppError::NotFound(_) => ErrorKind::NotFound,
            AppError::Validation(_) => ErrorKind::Validation,
            AppError::Database(_) => ErrorKind::Database,
            AppError::Internal(_) => ErrorKind::Internal,
            AppError::ExternalService(_) => ErrorKind::ExternalService,
            AppError::RateLimit(_) => ErrorKind::RateLimit,
        }
    }

    /// The detail text this failure carries.
    pub fn detail(&self) -> (r: &str)
        ensures
            r@ == self@.detail,
    {
        match self {
            AppError::Authentication(d) => d.as_str(),
            AppError::Authorization(d) => d.as_str(),
            AppError::NotFound(d) => d.as_str(),
            AppError::Validation(d) => d.as_str(),
            AppError::Database(d) => d.as_str(),
            AppError::Internal(d) => d.as_str(),
            AppError::ExternalService(d) => d.as_str(),
            AppError::RateLimit(d) => d.as_str(),
        }
    }

    /// Status code under which this failure leaves the boundary.
    pub fn status_code(&self) -> (r: u16)
        ensures
            r == status_of_kind(self@.kind),
            400 <= r < 600,
    {
        match self {
            AppError::Authentication(_) => 401,
            AppError::Authorization(_) => 403,
            AppError::NotFound(_) => 404,
            AppError::Validation(_) => 400,
            AppError::Database(_) => 500,
            AppError::Internal(_) => 500,
            AppError::ExternalService(_) => 502,
            AppError::RateLimit(_) => 429,
        }
    }

    /// Title under which this failure is reported.
    pub fn error_type(&self) -> (r: &'static str)
        ensures
            r@ == title_of_kind(self@.kind),
    {
        match self {
            AppError::Authentication(_) => "Authentication Error",
            AppError::Authorization(_) => "Authorization Error",
            AppError::NotFound(_) => "Not Found",
            AppError::Validation(_) => "Validation Error",
            AppError::Database(_) => "Database Error",
            AppError::Internal(_) => "Internal Server Error",
            AppError::ExternalService(_) => "External Service Error",
            AppError::RateLimit(_) => "Rate Limit Exceeded",
        }
    }

    /// The full text of this failure, detail included, as it is logged.
    pub fn to_string(&self) -> (r: String)
        ensures
            r@ == lead_of_kind(self@.kind) + self@.detail,
    {
        let lead = match self {
            AppError::Authentication(_) => "Authentication error: ",
            AppError::Authorization(_) => "Authorization error: ",
            AppError::NotFound(_) => "Resource not found: ",
            AppError::Validation(_) => "Validation error: ",
            AppError::Database(_) => "Database error: ",
            AppError::Internal(_) => "Internal server error: ",
            AppError::ExternalService(_) => "External service error: ",
            AppError::RateLimit(_) => "Rate limit exceeded: ",
        };
        lead.to_string().concat(self.detail())
    }

    /// The text of this failure that the caller is shown.
    pub fn surfaced_message(&self) -> (r: String)
        ensures
            r@ == surfaced_text(self@),
    {
        match self {
            AppError::Internal(_) => "Internal server error".to_string(),
            _ => self.to_string(),
        }
    }

    /// Status, title and surfaced text of this failure, ready to be framed
    /// as a response.
    pub fn into_response(self) -> (r: ErrorResponse)
        ensures
            r.status_code == status_of_kind(self@.kind),
            r.error_type@ == title_of_kind(self@.kind),
            r.message@ == surfaced_text(self@),
    {
        ErrorResponse {
            status_code: self.status_code(),
            error_type: self.error_type().to_string(),
            message: self.surfaced_message(),
        }
    }
}

} // verus!
