//! Classification of the body the upstream answered with.
//!
//! A body is first searched for the marker of a failed query. With the marker
//! it is decoded as a failure and classified by its message; without it, it
//! is decoded as the answer the caller asked for. Decoding is the caller's:
//! every function here takes the decoder, or what the decoder returned.

use crate::constant::{ERROR_INVALID_QUERY, ERROR_RESERVED_RANGE};
use crate::error::{result_view, IpApiError};
use crate::model::ip_response::{ErrorResponse, ErrorResponseView};
use crate::text::{contains_text, occurs_in, same_text};
use vstd::prelude::*;

verus! {

/// What a body holds exactly if the upstream reports a failed query.
pub const FAILURE_MARKER: &'static str = "\"status\":\"fail\"";

/// The body reports a failed query.
pub open spec fn reports_failure(body: Seq<char>) -> bool {
    occurs_in(body, FAILURE_MARKER@)
}

/// The error for a body that reports a failure, given what decoding it as a
/// failure returned: the decoder's error if it did not decode; the kind named
/// by the message for the two known messages, with the decoded body; for any
/// other message the whole body as it came.
pub open spec fn failure(body: String, decoded: Result<ErrorResponse, serde_json::Error>)
    -> IpApiError {
    match decoded {
        Err(error) => IpApiError::JsonParseError(error),
        Ok(response) => if response.message@ == ERROR_RESERVED_RANGE@ {
            IpApiError::ReservedRange(response)
        } else if response.message@ == ERROR_INVALID_QUERY@ {
            IpApiError::InvalidQuery(response)
        } else {
            IpApiError::Unknown(body)
        },
    }
}

/// The text of what decoding a body as a failure returned.
pub open spec fn decoded_view(decoded: Result<ErrorResponse, serde_json::Error>) -> Result<
    ErrorResponseView,
    serde_json::Error,
> {
    match decoded {
        Ok(response) => Ok(response@),
        Err(error) => Err(error),
    }
}

/// The result for a body that reports no failure, given what decoding it as
/// the caller's answer returned.
pub open spec fn payload<T>(decoded: Result<T, serde_json::Error>) -> Result<T, IpApiError> {
    match decoded {
        Ok(value) => Ok(value),
        Err(error) => Err(IpApiError::JsonParseError(error)),
    }
}

/// The result for `body`, given what decoding it as a failure and as the
/// caller's answer returns. Only the decoding that the marker calls for
/// counts.
pub open spec fn classification<T>(
    body: String,
    as_failure: Result<ErrorResponse, serde_json::Error>,
    as_answer: Result<T, serde_json::Error>,
) -> Result<T, IpApiError> {
    if reports_failure(body@) {
        Err(failure(body, as_failure))
    } else {
        payload(as_answer)
    }
}

/// A body that does not decode is classified as malformed, whether or not it
/// reports a failure.
pub proof fn lemma_undecodable_is_malformed<T>(
    body: String,
    as_failure: serde_json::Error,
    as_answer: serde_json::Error,
)
    ensures
        classification::<T>(body, Err(as_failure), Err(as_answer)) matches Err(
            IpApiError::JsonParseError(error),
        ) && (error == as_failure || error == as_answer),
{
}

/// Classification keeps no state and reads nothing but text: two bodies with
/// the same text, decoded to values with the same text, are classified the
/// same.
pub proof fn lemma_classification_is_repeatable<T>(
    first: String,
    second: String,
    first_as_failure: Result<ErrorResponse, serde_json::Error>,
    second_as_failure: Result<ErrorResponse, serde_json::Error>,
    as_answer: Result<T, serde_json::Error>,
)
    requires
        first@ == second@,
        decoded_view(first_as_failure) == decoded_view(second_as_failure),
    ensures
        result_view(classification(first, first_as_failure, as_answer)) == result_view(
            classification(second, second_as_failure, as_answer),
        ),
{
}

/// `result` is what classifying `json` gives when the decoders are
/// `decode_failure` and `decode`: the classification of `json` and of values
/// the decoders can return for it, where only the decoder that the marker
/// calls for is asked.
pub open spec fn classified_by<T, F, G>(
    json: String,
    decode_failure: F,
    decode: G,
    result: Result<T, IpApiError>,
) -> bool where
    F: FnOnce(&String) -> Result<ErrorResponse, serde_json::Error>,
    G: FnOnce(&String) -> Result<T, serde_json::Error>,
 {
    exists|
        as_failure: Result<ErrorResponse, serde_json::Error>,
        as_answer: Result<T, serde_json::Error>,
    |
        {
            &&& reports_failure(json@) ==> decode_failure.ensures((&json,), as_failure)
            &&& !reports_failure(json@) ==> decode.ensures((&json,), as_answer)
            &&& result == classification(json, as_failure, as_answer)
        }
}

/// The decoder of failures reads nothing but the text of a body: for two
/// bodies with the same text it returns values with the same text.
pub open spec fn decodes_failure_by_text<F>(decode_failure: F) -> bool where
    F: FnOnce(&String) -> Result<ErrorResponse, serde_json::Error>,
 {
    forall|
        first: String,
        second: String,
        from_first: Result<ErrorResponse, serde_json::Error>,
        from_second: Result<ErrorResponse, serde_json::Error>,
    |
        first@ == second@ && #[trigger] decode_failure.ensures((&first,), from_first)
            && #[trigger] decode_failure.ensures((&second,), from_second) ==> decoded_view(
            from_first,
        ) == decoded_view(from_second)
}

/// The decoder of answers reads nothing but the text of a body: for two
/// bodies with the same text it returns the same value.
pub open spec fn decodes_answer_by_text<T, G>(decode: G) -> bool where
    G: FnOnce(&String) -> Result<T, serde_json::Error>,
 {
    forall|
        first: String,
        second: String,
        from_first: Result<T, serde_json::Error>,
        from_second: Result<T, serde_json::Error>,
    |
        first@ == second@ && #[trigger] decode.ensures((&first,), from_first)
            && #[trigger] decode.ensures((&second,), from_second) ==> from_first == from_second
}

/// Classifying a body twice gives the same result both times: with decoders
/// that read nothing but the text of the body, any two results for two bodies
/// with the same text are the same answer, or errors of the same kind with
/// the same text.
pub proof fn lemma_process_result_is_repeatable<T, F, G>(
    first: String,
    second: String,
    decode_failure: F,
    decode: G,
    first_result: Result<T, IpApiError>,
    second_result: Result<T, IpApiError>,
) where
    F: FnOnce(&String) -> Result<ErrorResponse, serde_json::Error>,
    G: FnOnce(&String) -> Result<T, serde_json::Error>,

    requires
        first@ == second@,
        decodes_failure_by_text(decode_failure),
        decodes_answer_by_text(decode),
        classified_by(first, decode_failure, decode, first_result),
        classified_by(second, decode_failure, decode, second_result),
    ensures
        result_view(first_result) == result_view(second_result),
{
    let (first_as_failure, first_as_answer) = choose|
        as_failure: Result<ErrorResponse, serde_json::Error>,
        as_answer: Result<T, serde_json::Error>,
    |
        {
            &&& reports_failure(first@) ==> decode_failure.ensures((&first,), as_failure)
            &&& !reports_failure(first@) ==> decode.ensures((&first,), as_answer)
            &&& first_result == classification(first, as_failure, as_answer)
        };
    let (second_as_failure, second_as_answer) = choose|
        as_failure: Result<ErrorResponse, serde_json::Error>,
        as_answer: Result<T, serde_json::Error>,
    |
        {
            &&& reports_failure(second@) ==> decode_failure.ensures((&second,), as_failure)
            &&& !reports_failure(second@) ==> decode.ensures((&second,), as_answer)
            &&& second_result == classification(second, as_failure, as_answer)
        };
    if reports_failure(first@) {
        assert(decoded_view(first_as_failure) == decoded_view(second_as_failure));
    } else {
        assert(first_as_answer == second_as_answer);
    }
}

/// Classifies a body that reports a failure, given what decoding it as a
/// failure returned.
pub fn classify_failure(json: String, decoded: Result<ErrorResponse, serde_json::Error>) -> (error:
    IpApiError)
    ensures
        error == failure(json, decoded),
{
    match decoded {
        Ok(response) => {
            if same_text(response.message.as_str(), ERROR_RESERVED_RANGE) {
                IpApiError::ReservedRange(response)
            } else if same_text(response.message.as_str(), ERROR_INVALID_QUERY) {
                IpApiError::InvalidQuery(response)
            } else {
                IpApiError::Unknown(json)
            }
        },
        Err(error) => IpApiError::JsonParseError(error),
    }
}

/// Looks for a reported failure in `json`. A body without the failure marker
/// reports none, and is not decoded. A body with the marker is decoded by
/// `decode` and classified by what that returned.
pub fn validate_result<F>(json: String, decode: F) -> (found: Option<IpApiError>) where
    F: FnOnce(&String) -> Result<ErrorResponse, serde_json::Error>,

    requires
        decode.requires((&json,)),
    ensures
        !reports_failure(json@) ==> found is None,
        reports_failure(json@) ==> exists|decoded: Result<ErrorResponse, serde_json::Error>|
            decode.ensures((&json,), decoded) && found == Some(failure(json, decoded)),
{
    if contains_text(json.as_str(), FAILURE_MARKER) {
        let decoded = decode(&json);
        Some(classify_failure(json, decoded))
    } else {
        None
    }
}

/// Decodes `json` by `decode` as the answer the caller asked for.
pub fn parse_result<T, G>(json: &String, decode: G) -> (parsed: Result<T, IpApiError>) where
    G: FnOnce(&String) -> Result<T, serde_json::Error>,

    requires
        decode.requires((json,)),
    ensures
        exists|decoded: Result<T, serde_json::Error>|
            decode.ensures((json,), decoded) && parsed == payload(decoded),
{
    let decoded = decode(json);
    let ghost returned = decoded;
    let parsed = match decoded {
        Ok(response) => Ok(response),
        Err(error) => Err(IpApiError::JsonParseError(error)),
    };
    assert(decode.ensures((json,), returned) && parsed == payload(returned));
    parsed
}

/// Classifies the body `json`, given what decoding it as a failure and as the
/// answer the caller asked for returned.
pub fn classify<T>(
    json: String,
    as_failure: Result<ErrorResponse, serde_json::Error>,
    as_answer: Result<T, serde_json::Error>,
) -> (result: Result<T, IpApiError>)
    ensures
        result == classification(json, as_failure, as_answer),
{
    if contains_text(json.as_str(), FAILURE_MARKER) {
        Err(classify_failure(json, as_failure))
    } else {
        match as_answer {
            Ok(response) => Ok(response),
            Err(error) => Err(IpApiError::JsonParseError(error)),
        }
    }
}

/// Classifies the body `json`, decoding it once: a body that reports a
/// failure is decoded by `decode_failure` and gives the error for it; any
/// other body is decoded by `decode` and gives the answer, or the decoder's
/// error.
pub fn process_result<T, F, G>(json: String, decode_failure: F, decode: G) -> (result: Result<
    T,
    IpApiError,
>) where
    F: FnOnce(&String) -> Result<ErrorResponse, serde_json::Error>,
    G: FnOnce(&String) -> Result<T, serde_json::Error>,

    requires
        decode_failure.requires((&json,)),
        decode.requires((&json,)),
    ensures
        classified_by(json, decode_failure, decode, result),
{
    let ghost unused_failure: Result<ErrorResponse, serde_json::Error> = arbitrary();
    let ghost unused_answer: Result<T, serde_json::Error> = arbitrary();
    match validate_result(json.clone(), decode_failure) {
        Some(error) => {
            let result = Err(error);
            proof {
                let as_failure = choose|decoded: Result<ErrorResponse, serde_json::Error>|
                    decode_failure.ensures((&json,), decoded) && error == failure(json, decoded);
                assert(result == classification(json, as_failure, unused_answer));
            }
            result
        },
        None => {
            let result = parse_result(&json, decode);
            proof {
                let as_answer = choose|decoded: Result<T, serde_json::Error>|
                    decode.ensures((&json,), decoded) && result == payload(decoded);
                assert(result == classification(json, unused_failure, as_answer));
            }
            result
        },
    }
}

} // verus!
