//! The end of the pipeline. A request is identified first
//! (`request_id::identify`), the CORS policy is fixed at startup
//! (`cors::decide`), and the handler runs against the deadline; what comes
//! back from that race is concluded here: failures become error responses,
//! and the correlation header goes onto whatever is sent.

use crate::request_id::{echo_of, RequestContext, ResponseHeader};
use crate::service_error::{guarded, response_for, with_timeout, ErrorResponse, ServiceError};
use vstd::prelude::*;

verus! {

/// What the pipeline sends for one request.
#[derive(Debug, PartialEq, Eq)]
pub struct Reply<T> {
    /// The correlation header of the response.
    pub request_id_header: ResponseHeader,
    /// The handler's result, or the response that reports the failure.
    pub content: Result<T, ErrorResponse>,
}

/// The failure in which a race between a handler and the deadline ended,
/// if it failed: a timeout where the deadline came first (`raced` is
/// `Err`), else the handler's own failure, if it had one.
pub open spec fn failure_of<T, E>(raced: Result<Result<T, ServiceError>, E>) -> Option<
    ServiceError,
> {
    match guarded(raced) {
        Err(timeout) => Some(timeout),
        Ok(Err(failure)) => Some(failure),
        Ok(Ok(_)) => None,
    }
}

/// Concludes a request. `raced` is what the race between the handler and
/// the deadline gave: `Err` where the deadline came first, else the
/// handler's own result. A result passes through unchanged, a failure is
/// mapped to its error response, and in either case the reply carries the
/// correlation header of the request.
pub fn conclude<T, E>(context: &RequestContext, raced: Result<Result<T, ServiceError>, E>) -> (reply:
    Reply<T>)
    ensures
        reply.request_id_header@ == echo_of(context.request_id@),
        match failure_of(raced) {
            Some(failure) => match reply.content {
                Err(response) => response@ == response_for(failure),
                Ok(_) => false,
            },
            None => reply.content is Ok && raced is Ok && raced->Ok_0 is Ok && reply.content->Ok_0
                == raced->Ok_0->Ok_0,
        },
{
    let content: Result<T, ErrorResponse> = match with_timeout(raced) {
        Ok(Ok(value)) => Ok(value),
        Ok(Err(failure)) => Err(failure.into_response()),
        Err(timeout) => Err(timeout.into_response()),
    };
    Reply { request_id_header: context.response_header(), content }
}

/// A reply carries the correlation header whether the handler succeeded,
/// failed or ran out of time; and a handler that ran out of time is
/// answered with 504 and the timeout envelope.
pub proof fn law_every_reply_is_identified<T, E>(
    id: Seq<char>,
    raced: Result<Result<T, ServiceError>, E>,
)
    ensures
        echo_of(id).1 == id,
        raced is Err ==> failure_of(raced) == Some(ServiceError::Timeout) && response_for(
            failure_of(raced)->Some_0,
        ).status == 504,
        raced matches Ok(Err(failure)) ==> failure_of(raced) == Some(failure),
        raced matches Ok(Ok(_)) ==> failure_of(raced) is None,
{
}

} // verus!
