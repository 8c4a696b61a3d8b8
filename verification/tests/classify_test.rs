use ip_api4rs::constant::{ERROR_INVALID_QUERY, ERROR_RESERVED_RANGE};
use ip_api4rs::error::IpApiError;
use ip_api4rs::model::ip_response::ErrorResponse;
use ip_api4rs::request_handler::{
    classify as classify_decoded, classify_failure, parse_result, process_result, validate_result,
    FAILURE_MARKER,
};
use serde::de::Error;
use serde_json::Value;

#[derive(Debug, PartialEq)]
struct IpDefaultResponse {
    query: String,
    status: String,
    country: String,
    country_code: String,
    region: String,
    region_name: String,
    city: String,
    zip: String,
    lat: f32,
    lon: f32,
    timezone: String,
    isp: String,
    org: String,
    as_number: String,
}

const RESERVED_RANGE: &str = "{\"status\":\"fail\",\"message\":\"reserved range\",\"query\":\"127.0.0.1\"}";
const INVALID_QUERY: &str = "{\"status\":\"fail\",\"message\":\"invalid query\",\"query\":\"Invalid Query\"}";
const GOOGLE: &str = "{\"query\":\"8.8.8.8\",\"status\":\"success\",\"country\":\"United States\",\"countryCode\":\"US\",\"region\":\"VA\",\"regionName\":\"Virginia\",\"city\":\"Ashburn\",\"zip\":\"20149\",\"lat\":39.03,\"lon\":-77.5,\"timezone\":\"America/New_York\",\"isp\":\"Google LLC\",\"org\":\"Google Public DNS\",\"as\":\"AS15169 Google LLC\"}";

fn text(object: &Value, key: &'static str) -> Result<String, serde_json::Error> {
    match object.get(key) {
        Some(Value::String(text)) => Ok(text.clone()),
        Some(_) => Err(serde_json::Error::custom(format!("invalid type for `{}`", key))),
        None => Err(serde_json::Error::missing_field(key)),
    }
}

fn number(object: &Value, key: &'static str) -> Result<f32, serde_json::Error> {
    match object.get(key).and_then(Value::as_f64) {
        Some(number) => Ok(number as f32),
        None => Err(serde_json::Error::missing_field(key)),
    }
}

fn decode_failure(json: &String) -> Result<ErrorResponse, serde_json::Error> {
    let object: Value = serde_json::from_str(json)?;
    Ok(ErrorResponse {
        status: text(&object, "status")?,
        message: text(&object, "message")?,
        query: text(&object, "query")?,
    })
}

fn decode_default(json: &String) -> Result<IpDefaultResponse, serde_json::Error> {
    let object: Value = serde_json::from_str(json)?;
    Ok(IpDefaultResponse {
        query: text(&object, "query")?,
        status: text(&object, "status")?,
        country: text(&object, "country")?,
        country_code: text(&object, "countryCode")?,
        region: text(&object, "region")?,
        region_name: text(&object, "regionName")?,
        city: text(&object, "city")?,
        zip: text(&object, "zip")?,
        lat: number(&object, "lat")?,
        lon: number(&object, "lon")?,
        timezone: text(&object, "timezone")?,
        isp: text(&object, "isp")?,
        org: text(&object, "org")?,
        as_number: text(&object, "as")?,
    })
}

fn never_called<T>(_: &String) -> Result<T, serde_json::Error> {
    panic!("the body was decoded in a shape it should not be decoded in")
}

fn classify(body: &str) -> Result<IpDefaultResponse, IpApiError> {
    process_result(body.to_string(), decode_failure, decode_default)
}

fn expected_default_response() -> IpDefaultResponse {
    IpDefaultResponse {
        query: "8.8.8.8".to_string(),
        status: "success".to_string(),
        country: "United States".to_string(),
        country_code: "US".to_string(),
        region: "VA".to_string(),
        region_name: "Virginia".to_string(),
        city: "Ashburn".to_string(),
        zip: "20149".to_string(),
        lat: 39.03,
        lon: -77.5,
        timezone: "America/New_York".to_string(),
        isp: "Google LLC".to_string(),
        org: "Google Public DNS".to_string(),
        as_number: "AS15169 Google LLC".to_string(),
    }
}

#[test]
fn failure_constants() {
    assert_eq!(FAILURE_MARKER, "\"status\":\"fail\"");
    assert_eq!(ERROR_RESERVED_RANGE, "reserved range");
    assert_eq!(ERROR_INVALID_QUERY, "invalid query");
}

#[test]
fn reserved_range_body_is_classified_as_reserved_range() {
    match classify(RESERVED_RANGE).err().unwrap() {
        IpApiError::ReservedRange(error_response) => {
            assert_eq!(error_response.message, "reserved range");
            assert_eq!(error_response.status, "fail");
            assert_eq!(error_response.query, "127.0.0.1");
        }
        _ => panic!("Wrong error type returned."),
    }
}

#[test]
fn invalid_query_body_is_classified_as_invalid_query() {
    match classify(INVALID_QUERY).err().unwrap() {
        IpApiError::InvalidQuery(error_response) => {
            assert_eq!(error_response.message, "invalid query");
            assert_eq!(error_response.status, "fail");
            assert_eq!(error_response.query, "Invalid Query");
        }
        _ => panic!("Wrong error type returned."),
    }
}

#[test]
fn unknown_message_keeps_the_whole_body() {
    let body = "{\"status\":\"fail\",\"message\":\"private range\",\"query\":\"10.0.0.1\"}";
    match classify(body).err().unwrap() {
        IpApiError::Unknown(raw) => assert_eq!(raw, body),
        _ => panic!("Wrong error type returned."),
    }
}

#[test]
fn message_is_matched_exactly() {
    for message in ["Reserved range", "reserved range ", "reserved", "invalid  query", ""] {
        let body = format!("{{\"status\":\"fail\",\"message\":\"{}\",\"query\":\"q\"}}", message);
        match classify(&body).err().unwrap() {
            IpApiError::Unknown(raw) => assert_eq!(raw, body),
            _ => panic!("Wrong error type returned."),
        }
    }
}

#[test]
fn success_body_gives_the_typed_value() {
    let result = classify(GOOGLE);
    assert!(result.is_ok());
    assert_eq!(result.unwrap(), expected_default_response());
}

#[test]
fn success_body_is_not_decoded_as_a_failure() {
    let result = process_result(GOOGLE.to_string(), never_called::<ErrorResponse>, decode_default);
    assert_eq!(result.unwrap(), expected_default_response());
}

#[test]
fn failure_body_is_not_decoded_as_an_answer() {
    let result =
        process_result(RESERVED_RANGE.to_string(), decode_failure, never_called::<IpDefaultResponse>);
    assert!(matches!(result, Err(IpApiError::ReservedRange(_))));
}

#[test]
fn invalid_json_without_the_marker_is_malformed() {
    for body in ["", "{", "not json", "{\"query\":", "[1,2", "{\"status\":\"success\"} trailing"] {
        assert!(matches!(classify(body), Err(IpApiError::JsonParseError(_))));
    }
}

#[test]
fn invalid_json_with_the_marker_is_malformed() {
    for body in [
        "{\"status\":\"fail\"",
        "\"status\":\"fail\"",
        "{\"status\":\"fail\",\"message\":\"reserved range\",\"query\":}",
        "{\"status\":\"fail\",,}",
    ] {
        assert!(matches!(classify(body), Err(IpApiError::JsonParseError(_))));
    }
}

#[test]
fn failure_body_of_another_shape_is_malformed() {
    for body in ["{\"status\":\"fail\"}", "{\"status\":\"fail\",\"message\":3,\"query\":\"q\"}"] {
        assert!(matches!(classify(body), Err(IpApiError::JsonParseError(_))));
    }
}

#[test]
fn answer_of_another_shape_is_malformed() {
    let body = "{\"query\":\"8.8.8.8\",\"status\":\"success\"}";
    assert!(matches!(classify(body), Err(IpApiError::JsonParseError(_))));
}

#[test]
fn marker_with_other_spacing_is_not_a_failure() {
    let body = "{\"status\": \"fail\", \"message\": \"reserved range\", \"query\": \"127.0.0.1\"}";
    assert!(validate_result(body.to_string(), never_called::<ErrorResponse>).is_none());
    assert!(matches!(classify(body), Err(IpApiError::JsonParseError(_))));
}

#[test]
fn marker_is_found_wherever_the_status_stands() {
    let body = "{\"message\":\"invalid query\",\"query\":\"x\",\"status\":\"fail\"}";
    match validate_result(body.to_string(), decode_failure) {
        Some(IpApiError::InvalidQuery(error_response)) => assert_eq!(error_response.query, "x"),
        _ => panic!("Wrong error type returned."),
    }
}

#[test]
fn validate_result_finds_no_failure_in_a_success_body() {
    assert!(validate_result(GOOGLE.to_string(), never_called::<ErrorResponse>).is_none());
    assert!(validate_result(String::new(), never_called::<ErrorResponse>).is_none());
}

#[test]
fn validate_result_finds_the_known_failures() {
    assert!(matches!(
        validate_result(RESERVED_RANGE.to_string(), decode_failure),
        Some(IpApiError::ReservedRange(_))
    ));
    assert!(matches!(
        validate_result(INVALID_QUERY.to_string(), decode_failure),
        Some(IpApiError::InvalidQuery(_))
    ));
}

#[test]
fn parse_result_decodes_or_reports() {
    assert_eq!(parse_result(&GOOGLE.to_string(), decode_default).unwrap(), expected_default_response());
    assert!(matches!(
        parse_result(&"{".to_string(), decode_default),
        Err(IpApiError::JsonParseError(_))
    ));
}

#[test]
fn classify_failure_by_decoded_message() {
    let response = |message: &str| ErrorResponse {
        status: "fail".to_string(),
        message: message.to_string(),
        query: "q".to_string(),
    };
    let body = || "the body".to_string();
    match classify_failure(body(), Ok(response("reserved range"))) {
        IpApiError::ReservedRange(kept) => assert_eq!(kept, response("reserved range")),
        _ => panic!("Wrong error type returned."),
    }
    match classify_failure(body(), Ok(response("invalid query"))) {
        IpApiError::InvalidQuery(kept) => assert_eq!(kept, response("invalid query")),
        _ => panic!("Wrong error type returned."),
    }
    match classify_failure(body(), Ok(response("quota exceeded"))) {
        IpApiError::Unknown(raw) => assert_eq!(raw, "the body"),
        _ => panic!("Wrong error type returned."),
    }
    let error = serde_json::from_str::<Value>("{").unwrap_err();
    let line = error.line();
    let column = error.column();
    match classify_failure(body(), Err(error)) {
        IpApiError::JsonParseError(kept) => {
            assert_eq!(kept.line(), line);
            assert_eq!(kept.column(), column);
        }
        _ => panic!("Wrong error type returned."),
    }
}

#[test]
fn classification_is_repeatable() {
    for body in [RESERVED_RANGE, INVALID_QUERY, GOOGLE, "{", "{\"status\":\"fail\"}"] {
        let first = classify(body);
        let second = classify(body);
        match (first, second) {
            (Ok(a), Ok(b)) => assert_eq!(a, b),
            (Err(IpApiError::ReservedRange(a)), Err(IpApiError::ReservedRange(b))) => assert_eq!(a, b),
            (Err(IpApiError::InvalidQuery(a)), Err(IpApiError::InvalidQuery(b))) => assert_eq!(a, b),
            (Err(IpApiError::Unknown(a)), Err(IpApiError::Unknown(b))) => assert_eq!(a, b),
            (Err(IpApiError::JsonParseError(a)), Err(IpApiError::JsonParseError(b))) => {
                assert_eq!(a.to_string(), b.to_string())
            }
            _ => panic!("two classifications of one body differ"),
        }
    }
}

#[test]
fn decoder_errors_convert_into_the_error_type() {
    let error = serde_json::from_str::<Value>("[").unwrap_err();
    let text = error.to_string();
    match IpApiError::from(error) {
        IpApiError::JsonParseError(kept) => assert_eq!(kept.to_string(), text),
        _ => panic!("Wrong error type returned."),
    }
}

#[test]
fn error_responses_compare_by_their_fields() {
    let response = |status: &str, message: &str, query: &str| ErrorResponse {
        status: status.to_string(),
        message: message.to_string(),
        query: query.to_string(),
    };
    assert_eq!(response("fail", "m", "q"), response("fail", "m", "q"));
    assert_ne!(response("fail", "m", "q"), response("ok", "m", "q"));
    assert_ne!(response("fail", "m", "q"), response("fail", "n", "q"));
    assert_ne!(response("fail", "m", "q"), response("fail", "m", "r"));
}

#[test]
fn decoded_bodies_are_classified_like_lazily_decoded_ones() {
    let bodies = [
        RESERVED_RANGE,
        INVALID_QUERY,
        GOOGLE,
        "{",
        "{\"status\":\"fail\"}",
        "{\"status\":\"fail\",\"message\":\"other\",\"query\":\"q\"}",
    ];
    for body in bodies {
        let json = body.to_string();
        let eager = classify_decoded(json.clone(), decode_failure(&json), decode_default(&json));
        let lazy = classify(body);
        match (eager, lazy) {
            (Ok(a), Ok(b)) => assert_eq!(a, b),
            (Err(IpApiError::ReservedRange(a)), Err(IpApiError::ReservedRange(b))) => assert_eq!(a, b),
            (Err(IpApiError::InvalidQuery(a)), Err(IpApiError::InvalidQuery(b))) => assert_eq!(a, b),
            (Err(IpApiError::Unknown(a)), Err(IpApiError::Unknown(b))) => assert_eq!(a, b),
            (Err(IpApiError::JsonParseError(a)), Err(IpApiError::JsonParseError(b))) => {
                assert_eq!(a.to_string(), b.to_string())
            }
            _ => panic!("the two classifications of one body differ"),
        }
    }
}

#[test]
fn decoded_failure_counts_only_with_the_marker() {
    let response = ErrorResponse {
        status: "fail".to_string(),
        message: "reserved range".to_string(),
        query: "127.0.0.1".to_string(),
    };
    let result = classify_decoded(GOOGLE.to_string(), Ok(response), decode_default(&GOOGLE.to_string()));
    assert_eq!(result.unwrap(), expected_default_response());
}

#[test]
fn decoded_answer_does_not_count_with_the_marker() {
    let json = RESERVED_RANGE.to_string();
    let result = classify_decoded(json.clone(), decode_failure(&json), Ok(expected_default_response()));
    assert!(matches!(result, Err(IpApiError::ReservedRange(_))));
}

#[test]
fn transport_errors_convert_into_the_error_type() {
    let error = reqwest::Client::new().get("http://[::1").build().unwrap_err();
    let text = error.to_string();
    match IpApiError::from(error) {
        IpApiError::ReqwestError(kept) => assert_eq!(kept.to_string(), text),
        _ => panic!("Wrong error type returned."),
    }
}
