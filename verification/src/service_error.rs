//! Failures of a request, and the responses that report them.

use vstd::prelude::*;

verus! {

/// Why a request failed.
#[derive(Debug, Clone, PartialEq, Eq)]
pub enum ServiceError {
    /// The handler did not finish within the request timeout.
    Timeout,
    /// Any other failure, with a description for the server's log.
    Other(String),
}

/// The body of an error response.
#[derive(Debug, Clone, PartialEq, Eq)]
pub struct ErrorEnvelope {
    /// The category of the failure.
    pub error: String,
    /// A sentence for the reader.
    pub message: String,
    /// The HTTP status code, once more.
    pub status: u16,
}

/// An error response: the HTTP status code and the body.
#[derive(Debug, Clone, PartialEq, Eq)]
pub struct ErrorResponse {
    pub status: u16,
    pub body: ErrorEnvelope,
}

/// An error response as plain mathematical values.
pub struct ResponseModel {
    pub status: u16,
    pub error: Seq<char>,
    pub message: Seq<char>,
    pub body_status: u16,
}

impl View for ErrorResponse {
    type V = ResponseModel;

    open spec fn view(&self) -> ResponseModel {
        ResponseModel {
            status: self.status,
            error: self.body.error@,
            message: self.body.message@,
            body_status: self.body.status,
        }
    }
}

/// The response that reports `error`: 504 Gateway Timeout for a timeout,
/// 500 Internal Server Error for anything else.
pub open spec fn response_for(error: ServiceError) -> ResponseModel {
    match error {
        ServiceError::Timeout => ResponseModel {
            status: 504,
            error: "Gateway Timeout"@,
            message: "The request timed out"@,
            body_status: 504,
        },
        ServiceError::Other(_) => ResponseModel {
            status: 500,
            error: "Internal Server Error"@,
            message: "An internal error occurred"@,
            body_status: 500,
        },
    }
}

/// What the timeout guard makes of a race between a handler and the
/// deadline: `raced` is `Ok` with the handler's result where the handler
/// came first, `Err` where the deadline did.
pub open spec fn guarded<T, E>(raced: Result<T, E>) -> Result<T, ServiceError> {
    match raced {
        Ok(value) => Ok(value),
        Err(_) => Err(ServiceError::Timeout),
    }
}

impl ServiceError {
    /// The response that reports this failure to the client.
    pub fn into_response(self) -> (response: ErrorResponse)
        ensures
            response@ == response_for(self),
    {
        match self {
            ServiceError::Timeout => ErrorResponse {
                status: 504,
                body: ErrorEnvelope {
                    error: String::from_str("Gateway Timeout"),
                    message: String::from_str("The request timed out"),
                    status: 504,
                },
            },
            ServiceError::Other(_) => ErrorResponse {
                status: 500,
                body: ErrorEnvelope {
                    error: String::from_str("Internal Server Error"),
                    message: String::from_str("An internal error occurred"),
                    status: 500,
                },
            },
        }
    }
}

/// Settles a race between a handler and the deadline. The handler's result
/// passes through unchanged where the handler came first; where the
/// deadline did, the outcome is `ServiceError::Timeout`, whatever the
/// timer reported.
pub fn with_timeout<T, E>(raced: Result<T, E>) -> (outcome: Result<T, ServiceError>)
    ensures
        outcome == guarded(raced),
{
    match raced {
        Ok(value) => Ok(value),
        Err(_) => Err(ServiceError::Timeout),
    }
}

/// A handler that loses the race against the deadline is answered with
/// 504, `Gateway Timeout` and `The request timed out`, and none of its own
/// result; the status in the body is that of the response.
pub proof fn law_timeout_is_gateway_timeout<T, E>(raced: Result<T, E>)
    requires
        raced is Err,
    ensures
        guarded(raced) == Err::<T, ServiceError>(ServiceError::Timeout),
        response_for(guarded(raced)->Err_0) == (ResponseModel {
            status: 504,
            error: "Gateway Timeout"@,
            message: "The request timed out"@,
            body_status: 504,
        }),
{
}

/// Every error response repeats its status code in its body, and the code
/// is 504 for a timeout and 500 otherwise.
pub proof fn law_status_matches_body(error: ServiceError)
    ensures
        response_for(error).status == response_for(error).body_status,
        error is Timeout ==> response_for(error).status == 504,
        error is Other ==> response_for(error).status == 500,
{
}

} // verus!
