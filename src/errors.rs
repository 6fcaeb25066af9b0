use vstd::prelude::*;

verus! {

/// Failure of a service operation, one variant per client-facing outcome.
#[derive(Debug)]
pub enum AppError {
    /// The addressed record does not exist.
    NotFound(String),
    /// The request is malformed or breaks a rule (unknown status, duplicate email).
    BadRequest(String),
    /// Missing, malformed or expired credentials.
    Unauthorized,
    /// A valid identity without the role the operation needs.
    Forbidden,
    /// A failure of the service itself; its cause is never shown to clients.
    Internal(String),
}

/// The outcome class of an error, without its message.
#[derive(Clone, Copy, Debug, PartialEq, Eq, Structural)]
pub enum ErrorKind {
    NotFound,
    BadRequest,
    Unauthorized,
    Forbidden,
    Internal,
}

impl AppError {
    pub open spec fn spec_kind(&self) -> ErrorKind {
        match self {
            AppError::NotFound(_) => ErrorKind::NotFound,
            AppError::BadRequest(_) => ErrorKind::BadRequest,
            AppError::Unauthorized => ErrorKind::Unauthorized,
            AppError::Forbidden => ErrorKind::Forbidden,
            AppError::Internal(_) => ErrorKind::Internal,
        }
    }

    /// The message the error carries (empty for the variants without one).
    pub open spec fn spec_message(&self) -> Seq<char> {
        match self {
            AppError::NotFound(m) => m@,
            AppError::BadRequest(m) => m@,
            AppError::Unauthorized => Seq::empty(),
            AppError::Forbidden => Seq::empty(),
            AppError::Internal(m) => m@,
        }
    }

    pub fn kind(&self) -> (r: ErrorKind)
        ensures
            r == self.spec_kind(),
    {
        match self {
            AppError::NotFound(_) => ErrorKind::NotFound,
            AppError::BadRequest(_) => ErrorKind::BadRequest,
            AppError::Unauthorized => ErrorKind::Unauthorized,
            AppError::Forbidden => ErrorKind::Forbidden,
            AppError::Internal(_) => ErrorKind::Internal,
        }
    }

    /// HTTP status of each outcome.
    pub open spec fn spec_status_code(&self) -> u16 {
        match self {
            AppError::NotFound(_) => 404,
            AppError::BadRequest(_) => 400,
            AppError::Unauthorized => 401,
            AppError::Forbidden => 403,
            AppError::Internal(_) => 500,
        }
    }

    /// The text a client receives for each outcome.
    pub open spec fn spec_client_message(&self) -> Seq<char> {
        match self {
            AppError::NotFound(m) => m@,
            AppError::BadRequest(m) => m@,
            AppError::Unauthorized => "Unauthorized"@,
            AppError::Forbidden => "Forbidden"@,
            AppError::Internal(_) => "Internal server error"@,
        }
    }

    /// The full description, internal cause included, for the server's log.
    pub open spec fn spec_describe(&self) -> Seq<char> {
        match self {
            AppError::NotFound(m) => "Not found: "@ + m@,
            AppError::BadRequest(m) => "Bad request: "@ + m@,
            AppError::Unauthorized => "Unauthorized"@,
            AppError::Forbidden => "Forbidden"@,
            AppError::Internal(m) => "Internal error: "@ + m@,
        }
    }

    pub fn status_code(&self) -> (r: u16)
        ensures
            r == self.spec_status_code(),
    {
        match self {
            AppError::NotFound(_) => 404,
            AppError::BadRequest(_) => 400,
            AppError::Unauthorized => 401,
            AppError::Forbidden => 403,
            AppError::Internal(_) => 500,
        }
    }

    pub fn client_message(&self) -> (r: String)
        ensures
            r@ == self.spec_client_message(),
    {
        match self {
            AppError::NotFound(m) => m.clone(),
            AppError::BadRequest(m) => m.clone(),
            AppError::Unauthorized => String::from_str("Unauthorized"),
            AppError::Forbidden => String::from_str("Forbidden"),
            AppError::Internal(_) => String::from_str("Internal server error"),
        }
    }

    pub fn describe(&self) -> (r: String)
        ensures
            r@ == self.spec_describe(),
    {
        match self {
            AppError::NotFound(m) => String::from_str("Not found: ").concat(m.as_str()),
            AppError::BadRequest(m) => String::from_str("Bad request: ").concat(m.as_str()),
            AppError::Unauthorized => String::from_str("Unauthorized"),
            AppError::Forbidden => String::from_str("Forbidden"),
            AppError::Internal(m) => String::from_str("Internal error: ").concat(m.as_str()),
        }
    }
}

} // verus!
