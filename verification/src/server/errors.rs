use vstd::prelude::*;

verus! {

pub type ApiResult<T> = Result<T, ApiError>;

/// HTTP status for a malformed request: bad parameters or a category
/// mismatch.
pub const STATUS_BAD_REQUEST: u16 = 400;

/// HTTP status for a missing or invalid credential.
pub const STATUS_FORBIDDEN: u16 = 403;

/// HTTP status for a name that resolves to nothing.
pub const STATUS_NOT_FOUND: u16 = 404;

/// HTTP status for an upstream or internal failure.
pub const STATUS_INTERNAL_SERVER_ERROR: u16 = 500;

/// An error response of the gateway: a status code and a message.
///
/// Client errors (bad request, forbidden, not found) terminate a request
/// immediately; upstream and internal failures are surfaced as server errors.
#[derive(Clone, Debug)]
pub struct ApiError {
    code: u16,
    message: String,
}

impl ApiError {
    /// The status code carried by this error.
    pub closed spec fn spec_code(&self) -> u16 {
        self.code
    }

    /// The message carried by this error.
    pub closed spec fn spec_message(&self) -> Seq<char> {
        self.message@
    }

    pub fn new(code: u16, message: String) -> (r: Self)
        ensures
            r.spec_code() == code,
            r.spec_message() == message@,
    {
        Self { code, message }
    }

    /// Wraps the text of an upstream (device driver) failure as a server
    /// error, passing the message through verbatim.
    pub fn from_upstream(message: String) -> (r: Self)
        ensures
            r.spec_code() == STATUS_INTERNAL_SERVER_ERROR,
            r.spec_message() == message@,
    {
        Self { code: STATUS_INTERNAL_SERVER_ERROR, message }
    }

    pub fn code(&self) -> (r: u16)
        ensures
            r == self.spec_code(),
    {
        self.code
    }

    pub fn message(&self) -> (r: &String)
        ensures
            r@ == self.spec_message(),
    {
        &self.message
    }
}

} // verus!
