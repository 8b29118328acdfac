use vstd::prelude::*;
use crate::models::ApiResponse;

verus! {

/// `anyhow::Error`, carried through unread.
#[verifier::external_type_specification]
#[verifier::external_body]
pub struct ExAnyhowError(anyhow::Error);

/// The HTTP status of the reply to a request that failed inside the service.
pub const INTERNAL_ERROR_STATUS: u16 = 500;

/// The text of the reply to a request that failed inside the service.
pub open spec fn internal_error_text() -> Seq<char> {
    "서버 내부 오류가 발생했습니다."@
}

/// A reply is the internal error reply.
pub open spec fn is_internal_error<T>(r: ApiResponse<T>) -> bool {
    &&& !r.success
    &&& r.data is None
    &&& r.message matches Some(m) && m@ == internal_error_text()
}

/// Any error that ends a request with the internal error reply.
pub struct AppError(anyhow::Error);

impl AppError {
    /// The error this one carries.
    pub closed spec fn cause(&self) -> anyhow::Error {
        self.0
    }

    /// The error this one carries, to be reported.
    pub fn error(&self) -> (e: &anyhow::Error)
        ensures
            *e == self.cause(),
    {
        &self.0
    }

    /// The HTTP status of the reply.
    pub fn status(&self) -> (s: u16)
        ensures
            s == INTERNAL_ERROR_STATUS,
    {
        INTERNAL_ERROR_STATUS
    }

    /// The body of the reply: a failure with no data and a fixed message, whatever the cause.
    pub fn body(&self) -> (r: ApiResponse<String>)
        ensures
            is_internal_error(r),
    {
        ApiResponse {
            success: false,
            data: None,
            message: Some(String::from_str("서버 내부 오류가 발생했습니다.")),
        }
    }
}

/// An application error carrying the given error.
impl From<anyhow::Error> for AppError {
    fn from(err: anyhow::Error) -> (r: AppError)
        ensures
            r.cause() == err,
    {
        AppError(err)
    }
}

impl vstd::std_specs::convert::FromSpecImpl<anyhow::Error> for AppError {
    open spec fn obeys_from_spec() -> bool {
        true
    }

    closed spec fn from_spec(err: anyhow::Error) -> AppError {
        AppError(err)
    }
}

} // verus!
