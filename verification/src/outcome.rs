//! The two failure kinds a call can surface, and the rule that maps what
//! came back from the transport to the result of the call.

use vstd::prelude::*;

verus! {

/// Why a call failed: the transport did (connection error, timeout, or a
/// non-success HTTP status), or the body did not decode into the expected
/// shape (malformed JSON, missing field, type mismatch).
#[derive(Clone, Copy, Debug, PartialEq, Eq, Structural)]
pub enum ApiError {
    TransportFailure,
    DecodeFailure,
}

/// Whether an HTTP status code counts as success.
pub open spec fn status_success(status: int) -> bool {
    200 <= status < 300
}

pub fn status_is_success(status: u16) -> (r: bool)
    ensures
        r == status_success(status as int),
{
    200 <= status && status < 300
}

/// The result of a call, given whether the transport answered at all,
/// what status it answered with, and whether the body decoded.
pub open spec fn outcome_spec(transport_ok: bool, status: int, decode_ok: bool) -> Result<
    (),
    ApiError,
> {
    if !transport_ok || !status_success(status) {
        Err(ApiError::TransportFailure)
    } else if !decode_ok {
        Err(ApiError::DecodeFailure)
    } else {
        Ok(())
    }
}

/// Decides how a finished exchange with the transport ends: success
/// exactly when the transport answered with a success status and the body
/// decoded; a transport failure for any missing answer or non-success
/// status; a decode failure for a well-delivered body of the wrong shape.
pub fn classify_outcome(transport_ok: bool, status: u16, decode_ok: bool) -> (r: Result<
    (),
    ApiError,
>)
    ensures
        r == outcome_spec(transport_ok, status as int, decode_ok),
        r is Ok <==> transport_ok && status_success(status as int) && decode_ok,
{
    if !transport_ok || !status_is_success(status) {
        Err(ApiError::TransportFailure)
    } else if !decode_ok {
        Err(ApiError::DecodeFailure)
    } else {
        Ok(())
    }
}

/// A transport answer with any non-success status ends the call as a
/// transport failure, for every operation and whatever the body held:
/// classification never panics and never reports anything else for it.
pub proof fn lemma_non_success_is_transport_failure(transport_ok: bool, status: int, decode_ok: bool)
    requires
        !status_success(status),
    ensures
        outcome_spec(transport_ok, status, decode_ok) == Err::<(), ApiError>(
            ApiError::TransportFailure,
        ),
{
}

/// A delivered success answer whose body does not decode into the
/// expected shape ends the call as a decode failure, for every operation.
pub proof fn lemma_bad_body_is_decode_failure(status: int)
    requires
        status_success(status),
    ensures
        outcome_spec(true, status, false) == Err::<(), ApiError>(ApiError::DecodeFailure),
{
}

} // verus!
