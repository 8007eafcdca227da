use vstd::prelude::*;

verus! {

/// A failure reported by the database for one statement.
#[derive(Clone, Debug, PartialEq, Eq)]
pub enum StoreFailure {
    /// The row refers to a row of another table that does not exist.
    ForeignKeyViolation(String),
    /// Any other failure: connection, timeout, another constraint.
    Other(String),
}

/// The errors a request can end in.
#[derive(Clone, Debug, PartialEq, Eq)]
pub enum AppError {
    /// A by-id operation matched no row.
    NotFound,
    /// The client sent a field that does not pass validation.
    Validation(String),
    /// The database failed.
    Storage(String),
    /// A page could not be rendered.
    Render(String),
}

pub const STATUS_OK: u16 = 200;
pub const STATUS_CREATED: u16 = 201;
pub const STATUS_NO_CONTENT: u16 = 204;
pub const STATUS_BAD_REQUEST: u16 = 400;
pub const STATUS_NOT_FOUND: u16 = 404;
pub const STATUS_INTERNAL_ERROR: u16 = 500;

impl AppError {
    pub open spec fn spec_status(&self) -> u16 {
        match self {
            AppError::NotFound => STATUS_NOT_FOUND,
            AppError::Validation(_) => STATUS_BAD_REQUEST,
            AppError::Storage(_) => STATUS_INTERNAL_ERROR,
            AppError::Render(_) => STATUS_INTERNAL_ERROR,
        }
    }

    /// The HTTP status that answers this error.
    #[verifier::when_used_as_spec(spec_status)]
    pub fn status(&self) -> (r: u16)
        ensures
            r == self.spec_status(),
    {
        match self {
            AppError::NotFound => STATUS_NOT_FOUND,
            AppError::Validation(_) => STATUS_BAD_REQUEST,
            AppError::Storage(_) => STATUS_INTERNAL_ERROR,
            AppError::Render(_) => STATUS_INTERNAL_ERROR,
        }
    }

    /// The text sent in the body of the answer. Storage and render errors
    /// carry the underlying message as it came.
    pub fn message(&self) -> (r: String)
        ensures
            self is NotFound ==> r@ == NOT_FOUND_MESSAGE@,
            self matches AppError::Validation(m) ==> r@ == m@,
            self matches AppError::Storage(m) ==> r@ == m@,
            self matches AppError::Render(m) ==> r@ == m@,
    {
        match self {
            AppError::NotFound => String::from_str(NOT_FOUND_MESSAGE),
            AppError::Validation(m) => m.clone(),
            AppError::Storage(m) => m.clone(),
            AppError::Render(m) => m.clone(),
        }
    }
}

pub const NOT_FOUND_MESSAGE: &'static str = "Book not found";

impl StoreFailure {
    /// The error that a failed statement becomes, where no row of another
    /// table is referred to: a storage error with the database's message.
    pub fn into_storage(self) -> (r: AppError)
        ensures
            self matches StoreFailure::ForeignKeyViolation(m) ==> r == AppError::Storage(m),
            self matches StoreFailure::Other(m) ==> r == AppError::Storage(m),
    {
        match self {
            StoreFailure::ForeignKeyViolation(m) => AppError::Storage(m),
            StoreFailure::Other(m) => AppError::Storage(m),
        }
    }
}

/// The status of the answer to a request: `success` where it succeeded,
/// else the status of its error.
pub fn answer_status<T>(r: &Result<T, AppError>, success: u16) -> (s: u16)
    ensures
        r is Ok ==> s == success,
        r matches Err(e) ==> s == e.spec_status(),
{
    match r {
        Ok(_) => success,
        Err(e) => e.status(),
    }
}

} // verus!
