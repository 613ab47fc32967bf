//! The one error type of the service and the reply each error becomes.
use vstd::prelude::*;
use vstd::string::*;

verus! {

/// Everything a request can fail with; each variant carries its details.
#[derive(Debug)]
pub enum RustFlowError {
    NotFound(String),
    BadRequest(String),
    UnprocessableEntity(String),
    ExternalService(String),
    Internal(String),
    Conflict(String),
    Unauthorized(String),
    Forbidden(String),
}

/// The reply body of an error: the status, a short description and the
/// details that the error carries.
#[derive(Debug)]
pub struct ErrorBody {
    pub status: u16,
    pub error: String,
    pub details: String,
}

/// The HTTP status that each kind of error is answered with.
pub open spec fn error_status(e: RustFlowError) -> u16 {
    match e {
        RustFlowError::NotFound(_) => 404,
        RustFlowError::BadRequest(_) => 400,
        RustFlowError::UnprocessableEntity(_) => 422,
        RustFlowError::ExternalService(_) => 502,
        RustFlowError::Internal(_) => 500,
        RustFlowError::Conflict(_) => 409,
        RustFlowError::Unauthorized(_) => 401,
        RustFlowError::Forbidden(_) => 403,
    }
}

/// The short description that each kind of error is answered with.
pub open spec fn error_label(e: RustFlowError) -> Seq<char> {
    match e {
        RustFlowError::NotFound(_) => "Not Found"@,
        RustFlowError::BadRequest(_) => "Bad Request"@,
        RustFlowError::UnprocessableEntity(_) => "Validation Failed"@,
        RustFlowError::ExternalService(_) => "External Service Error"@,
        RustFlowError::Internal(_) => "Internal Server Error"@,
        RustFlowError::Conflict(_) => "Conflict error"@,
        RustFlowError::Unauthorized(_) => "Unauthorized"@,
        RustFlowError::Forbidden(_) => "Forbidden"@,
    }
}

/// The text before the details in the human-readable message.
pub open spec fn error_prefix(e: RustFlowError) -> Seq<char> {
    match e {
        RustFlowError::NotFound(_) => "Not found `"@,
        RustFlowError::BadRequest(_) => "Bad request `"@,
        RustFlowError::UnprocessableEntity(_) => "Validation Failed `"@,
        RustFlowError::ExternalService(_) => "External Service Error `"@,
        RustFlowError::Internal(_) => "Internal Server Error `"@,
        RustFlowError::Conflict(_) => "Conflict error `"@,
        RustFlowError::Unauthorized(_) => "Unauthorized `"@,
        RustFlowError::Forbidden(_) => "Forbidden `"@,
    }
}

/// The details that an error carries.
pub open spec fn error_details(e: RustFlowError) -> String {
    match e {
        RustFlowError::NotFound(m) => m,
        RustFlowError::BadRequest(m) => m,
        RustFlowError::UnprocessableEntity(m) => m,
        RustFlowError::ExternalService(m) => m,
        RustFlowError::Internal(m) => m,
        RustFlowError::Conflict(m) => m,
        RustFlowError::Unauthorized(m) => m,
        RustFlowError::Forbidden(m) => m,
    }
}

/// Whether two errors are of the same kind, whatever their details.
pub open spec fn same_kind(a: RustFlowError, b: RustFlowError) -> bool {
    ||| (a is NotFound && b is NotFound)
    ||| (a is BadRequest && b is BadRequest)
    ||| (a is UnprocessableEntity && b is UnprocessableEntity)
    ||| (a is ExternalService && b is ExternalService)
    ||| (a is Internal && b is Internal)
    ||| (a is Conflict && b is Conflict)
    ||| (a is Unauthorized && b is Unauthorized)
    ||| (a is Forbidden && b is Forbidden)
}

impl RustFlowError {
    /// The HTTP status of the reply.
    pub fn status_code(&self) -> (s: u16)
        ensures
            s == error_status(*self),
    {
        match self {
            RustFlowError::NotFound(_) => 404,
            RustFlowError::BadRequest(_) => 400,
            RustFlowError::UnprocessableEntity(_) => 422,
            RustFlowError::ExternalService(_) => 502,
            RustFlowError::Internal(_) => 500,
            RustFlowError::Conflict(_) => 409,
            RustFlowError::Unauthorized(_) => 401,
            RustFlowError::Forbidden(_) => 403,
        }
    }

    /// The short description of the reply.
    pub fn label(&self) -> (s: &'static str)
        ensures
            s@ == error_label(*self),
    {
        match self {
            RustFlowError::NotFound(_) => "Not Found",
            RustFlowError::BadRequest(_) => "Bad Request",
            RustFlowError::UnprocessableEntity(_) => "Validation Failed",
            RustFlowError::ExternalService(_) => "External Service Error",
            RustFlowError::Internal(_) => "Internal Server Error",
            RustFlowError::Conflict(_) => "Conflict error",
            RustFlowError::Unauthorized(_) => "Unauthorized",
            RustFlowError::Forbidden(_) => "Forbidden",
        }
    }

    /// The details the error carries.
    pub fn details(&self) -> (d: &String)
        ensures
            *d == error_details(*self),
    {
        match self {
            RustFlowError::NotFound(m) => m,
            RustFlowError::BadRequest(m) => m,
            RustFlowError::UnprocessableEntity(m) => m,
            RustFlowError::ExternalService(m) => m,
            RustFlowError::Internal(m) => m,
            RustFlowError::Conflict(m) => m,
            RustFlowError::Unauthorized(m) => m,
            RustFlowError::Forbidden(m) => m,
        }
    }

    /// The human-readable message: the kind, then the details in
    /// backquotes.
    pub fn message(&self) -> (s: String)
        ensures
            s@ == error_prefix(*self) + error_details(*self)@ + "`"@,
    {
        let prefix: &str = match self {
            RustFlowError::NotFound(_) => "Not found `",
            RustFlowError::BadRequest(_) => "Bad request `",
            RustFlowError::UnprocessableEntity(_) => "Validation Failed `",
            RustFlowError::ExternalService(_) => "External Service Error `",
            RustFlowError::Internal(_) => "Internal Server Error `",
            RustFlowError::Conflict(_) => "Conflict error `",
            RustFlowError::Unauthorized(_) => "Unauthorized `",
            RustFlowError::Forbidden(_) => "Forbidden `",
        };
        crate::text::text_message(prefix, self.details().as_str(), "`")
    }

    /// The reply that the error is answered with: its status, its short
    /// description and its details.
    pub fn into_body(self) -> (b: ErrorBody)
        ensures
            b.status == error_status(self),
            b.error@ == error_label(self),
            b.details == error_details(self),
    {
        let status = self.status_code();
        let error = String::from_str(self.label());
        let details = match self {
            RustFlowError::NotFound(m) => m,
            RustFlowError::BadRequest(m) => m,
            RustFlowError::UnprocessableEntity(m) => m,
            RustFlowError::ExternalService(m) => m,
            RustFlowError::Internal(m) => m,
            RustFlowError::Conflict(m) => m,
            RustFlowError::Unauthorized(m) => m,
            RustFlowError::Forbidden(m) => m,
        };
        ErrorBody { status, error, details }
    }
}

/// Every kind of error has a status of its own: two errors are answered
/// with the same status exactly when they are of the same kind, and then
/// with the same description too.
pub proof fn lemma_status_identifies_kind(a: RustFlowError, b: RustFlowError)
    ensures
        (error_status(a) == error_status(b)) <==> same_kind(a, b),
        same_kind(a, b) ==> error_label(a) == error_label(b),
{
}

} // verus!
