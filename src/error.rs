use vstd::prelude::*;

verus! {

/// Every failure the backend reports, already classified for the client.
#[derive(Debug, Clone, PartialEq, Eq)]
pub enum AppError {
    /// A storage failure; the text is kept for the server log only.
    DatabaseError(String),
    NotFound(String),
    ValidationError(String),
    Unauthorized(String),
    Forbidden(String),
    InternalServerError(String),
    BadRequest(String),
}

pub open spec fn status_of(e: AppError) -> u16 {
    match e {
        AppError::DatabaseError(_) => 500,
        AppError::NotFound(_) => 404,
        AppError::ValidationError(_) => 400,
        AppError::Unauthorized(_) => 401,
        AppError::Forbidden(_) => 403,
        AppError::InternalServerError(_) => 500,
        AppError::BadRequest(_) => 400,
    }
}

/// The text an error carries.
pub open spec fn detail_of(e: AppError) -> Seq<char> {
    match e {
        AppError::DatabaseError(m) => m@,
        AppError::NotFound(m) => m@,
        AppError::ValidationError(m) => m@,
        AppError::Unauthorized(m) => m@,
        AppError::Forbidden(m) => m@,
        AppError::InternalServerError(m) => m@,
        AppError::BadRequest(m) => m@,
    }
}

/// The message a client sees: storage details never leave the server.
pub open spec fn client_message_of(e: AppError) -> Seq<char> {
    match e {
        AppError::DatabaseError(_) => "Internal server error"@,
        AppError::NotFound(m) => m@,
        AppError::ValidationError(m) => m@,
        AppError::Unauthorized(m) => m@,
        AppError::Forbidden(m) => m@,
        AppError::InternalServerError(m) => m@,
        AppError::BadRequest(m) => m@,
    }
}

/// The human-readable form used in logs: a kind label, then the detail.
pub open spec fn description_of(e: AppError) -> Seq<char> {
    match e {
        AppError::DatabaseError(m) => "Database error: "@ + m@,
        AppError::NotFound(m) => "Not found: "@ + m@,
        AppError::ValidationError(m) => "Validation error: "@ + m@,
        AppError::Unauthorized(m) => "Unauthorized: "@ + m@,
        AppError::Forbidden(m) => "Forbidden: "@ + m@,
        AppError::InternalServerError(m) => "Internal server error: "@ + m@,
        AppError::BadRequest(m) => "Bad request: "@ + m@,
    }
}

/// The error for an input field that breaks its rule; it names the field.
pub fn validation_error(field: &str) -> (r: AppError)
    ensures
        r is ValidationError,
        r->ValidationError_0@ == field@,
{
    AppError::ValidationError(String::from_str(field))
}

impl AppError {
    /// The HTTP status that answers this error.
    pub fn status_code(&self) -> (r: u16)
        ensures
            r == status_of(*self),
    {
        match self {
            AppError::DatabaseError(_) => 500,
            AppError::NotFound(_) => 404,
            AppError::ValidationError(_) => 400,
            AppError::Unauthorized(_) => 401,
            AppError::Forbidden(_) => 403,
            AppError::InternalServerError(_) => 500,
            AppError::BadRequest(_) => 400,
        }
    }

    /// The `error` field of the response envelope.
    pub fn client_message(&self) -> (r: String)
        ensures
            r@ == client_message_of(*self),
    {
        match self {
            AppError::DatabaseError(_) => String::from_str("Internal server error"),
            AppError::NotFound(m) => m.clone(),
            AppError::ValidationError(m) => m.clone(),
            AppError::Unauthorized(m) => m.clone(),
            AppError::Forbidden(m) => m.clone(),
            AppError::InternalServerError(m) => m.clone(),
            AppError::BadRequest(m) => m.clone(),
        }
    }

    /// The log line for this error, e.g. `Not found: task 7`.
    pub fn describe(&self) -> (r: String)
        ensures
            r@ == description_of(*self),
    {
        let (label, m) = match self {
            AppError::DatabaseError(m) => ("Database error: ", m),
            AppError::NotFound(m) => ("Not found: ", m),
            AppError::ValidationError(m) => ("Validation error: ", m),
            AppError::Unauthorized(m) => ("Unauthorized: ", m),
            AppError::Forbidden(m) => ("Forbidden: ", m),
            AppError::InternalServerError(m) => ("Internal server error: ", m),
            AppError::BadRequest(m) => ("Bad request: ", m),
        };
        String::from_str(label).concat(m.as_str())
    }
}

} // verus!
