use crate::types::{KachakaApiError, KachakaError, RpcResult};
use vstd::prelude::*;

verus! {

/// What a call that the controller answered comes to, given the outcome it
/// reported: success gives the response, a failure its code, and a missing
/// outcome is a protocol violation.
pub open spec fn checked_response<T>(response: T, result: Option<RpcResult>) -> Result<T, KachakaApiError> {
    match result {
        Some(result) => if result.success {
            Ok(response)
        } else {
            Err(KachakaApiError::ApiError(KachakaError { error_code: result.error_code }))
        },
        None => Err(KachakaApiError::NullResult),
    }
}

/// Checks the answer to a command call: a transport failure is a
/// communication error; otherwise the outcome that `get_result` reads from
/// the response decides.
pub fn parse_rpc_response_with_result<T>(
    response_result: Result<T, tonic::Status>,
    get_result: impl Fn(&T) -> Option<RpcResult>,
) -> (r: Result<T, KachakaApiError>)
    requires
        response_result is Ok ==> get_result.requires((&response_result->Ok_0,)),
    ensures
        match response_result {
            Ok(response) => exists|result: Option<RpcResult>|
                get_result.ensures((&response,), result) && r == checked_response(response, result),
            Err(status) => r == Err::<T, KachakaApiError>(KachakaApiError::CommunicationError(status)),
        },
{
    match response_result {
        Ok(response) => {
            let result = get_result(&response);
            let ghost answered = response;
            let checked = match result {
                Some(result) => {
                    if result.success {
                        Ok(response)
                    } else {
                        Err(KachakaApiError::ApiError(KachakaError { error_code: result.error_code }))
                    }
                },
                None => Err(KachakaApiError::NullResult),
            };
            assert(get_result.ensures((&answered,), result) && checked == checked_response(answered, result));
            checked
        },
        Err(e) => Err(KachakaApiError::CommunicationError(e)),
    }
}

/// Checks the answer to a getter call: only a transport failure is an error.
pub fn parse_getter_response<T>(maybe_response: Result<T, tonic::Status>) -> (r: Result<T, KachakaApiError>)
    ensures
        match maybe_response {
            Ok(response) => r == Ok::<T, KachakaApiError>(response),
            Err(status) => r == Err::<T, KachakaApiError>(KachakaApiError::CommunicationError(status)),
        },
{
    match maybe_response {
        Ok(response) => Ok(response),
        Err(e) => Err(KachakaApiError::CommunicationError(e)),
    }
}

/// Pairs a getter's payload with the cursor of its response metadata. A
/// response without metadata carries no cursor to continue from, which is a
/// protocol violation.
pub fn with_cursor<T>(metadata_cursor: Option<i64>, payload: T) -> (r: Result<(i64, T), KachakaApiError>)
    ensures
        match metadata_cursor {
            Some(cursor) => r == Ok::<(i64, T), KachakaApiError>((cursor, payload)),
            None => r == Err::<(i64, T), KachakaApiError>(KachakaApiError::NullResult),
        },
{
    match metadata_cursor {
        Some(cursor) => Ok((cursor, payload)),
        None => Err(KachakaApiError::NullResult),
    }
}

/// A field that a response must carry; a response without it is a protocol
/// violation.
pub fn required_field<T>(field: Option<T>) -> (r: Result<T, KachakaApiError>)
    ensures
        match field {
            Some(value) => r == Ok::<T, KachakaApiError>(value),
            None => r == Err::<T, KachakaApiError>(KachakaApiError::NullResult),
        },
{
    match field {
        Some(value) => Ok(value),
        None => Err(KachakaApiError::NullResult),
    }
}

/// The controller's active error codes as errors, in the order given.
pub fn errors_from_codes(error_codes: Vec<i32>) -> (r: Vec<KachakaError>)
    ensures
        r@.len() == error_codes@.len(),
        forall|i: int| 0 <= i < error_codes@.len() ==> #[trigger] r@[i] == (KachakaError {
            error_code: error_codes@[i],
        }),
{
    let mut errors: Vec<KachakaError> = Vec::new();
    let mut i: usize = 0;
    while i < error_codes.len()
        invariant
            i <= error_codes@.len(),
            errors@.len() == i,
            forall|j: int| 0 <= j < i ==> #[trigger] errors@[j] == (KachakaError {
                error_code: error_codes@[j],
            }),
        decreases error_codes@.len() - i,
    {
        errors.push(KachakaError { error_code: error_codes[i] });
        i = i + 1;
    }
    errors
}

} // verus!
