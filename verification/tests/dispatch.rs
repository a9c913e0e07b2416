use bravia_api::error::decimal_text;
use bravia_api::error::BraviaErrorCode;
use bravia_api::error::Error;
use bravia_api::request::Request;
use bravia_api::request::RequestBodyBuilder;
use bravia_api::request::RequestBuilder;
use bravia_api::request::RequestGetElementType;
use bravia_api::response::complete;
use bravia_api::response::extract;
use bravia_api::response::interpret;
use bravia_api::response::read_device_error;
use bravia_api::transport::status_is_success;
use bravia_api::transport::HttpOutcome;
use bravia_api::Bravia;
use serde_json::Value;

const ADDRESS: &str = "http://tv.local";

fn json(text: &str) -> Value {
    serde_json::from_str(text).unwrap()
}

fn reply(body: &str) -> HttpOutcome {
    HttpOutcome::Response(200, body.to_string())
}

/// A device that offers `getPowerStatus` of service "system" at version
/// "1.0", `setPowerStatus` at "1.0" and "1.1", and nothing else.
const DISCOVERY: &str = r#"{"result":[[{"service":"system","protocols":["xhrpost:jsonizer"],"apis":[
    {"name":"getPowerStatus","versions":[{"version":"1.0"}]},
    {"name":"setPowerStatus","versions":[{"version":"1.0","authLevel":"generic"},{"version":"1.1","authLevel":"generic"}]}
]}]],"id":5}"#;

fn client(auth: Option<&str>) -> Bravia {
    Bravia::new(ADDRESS, auth, reply(DISCOVERY)).unwrap()
}

fn call(endpoint: &str, method: &str, version: Option<&str>, protected: bool) -> Request {
    let body = RequestBodyBuilder::default()
        .id(1)
        .method(method)
        .version(version)
        .build()
        .unwrap();
    let mut builder = RequestBuilder::default();
    builder.endpoint(endpoint).body(body);
    if protected {
        builder.is_protected();
    }
    builder.build().unwrap()
}

fn by_name(name: &str) -> RequestGetElementType {
    RequestGetElementType::Text(name.to_string())
}

fn missing_value() -> Result<Value, Error> {
    Err(Error::MissingValue("result values".to_string()))
}

#[test]
fn extract_by_name_reads_the_first_element() {
    let result = json(r#"[{"status":"standby"}]"#);
    assert_eq!(Ok(json("\"standby\"")), extract(&result, &by_name("status")));
}

#[test]
fn extract_by_index_reads_that_element() {
    let result = json(r#"["a","b"]"#);
    assert_eq!(Ok(json("\"b\"")), extract(&result, &RequestGetElementType::Index(1)));
    assert_eq!(Ok(json("\"a\"")), extract(&result, &RequestGetElementType::Index(0)));
}

#[test]
fn extract_from_an_empty_result_is_a_missing_value() {
    let result = json("[]");
    assert_eq!(missing_value(), extract(&result, &RequestGetElementType::Index(0)));
    assert_eq!(missing_value(), extract(&result, &by_name("status")));
}

#[test]
fn extract_past_the_end_is_a_missing_value() {
    let result = json(r#"["a","b"]"#);
    assert_eq!(missing_value(), extract(&result, &RequestGetElementType::Index(2)));
    assert_eq!(missing_value(), extract(&result, &RequestGetElementType::Index(usize::MAX)));
}

#[test]
fn extract_by_name_needs_the_member_in_an_object() {
    assert_eq!(missing_value(), extract(&json(r#"[{"state":"x"}]"#), &by_name("status")));
    assert_eq!(missing_value(), extract(&json(r#"["status"]"#), &by_name("status")));
    assert_eq!(missing_value(), extract(&json(r#"[["status"]]"#), &by_name("status")));
    // Only the first element is looked at.
    assert_eq!(
        missing_value(),
        extract(&json(r#"[{}, {"status":"x"}]"#), &by_name("status"))
    );
    // A member that is null is there.
    assert_eq!(Ok(Value::Null), extract(&json(r#"[{"status":null}]"#), &by_name("status")));
}

#[test]
fn extract_from_what_is_not_an_array_is_a_missing_value() {
    for text in [r#"{"0":"a"}"#, "\"ab\"", "5", "null", "true"] {
        assert_eq!(missing_value(), extract(&json(text), &RequestGetElementType::Index(0)));
        assert_eq!(missing_value(), extract(&json(text), &by_name("0")));
    }
}

#[test]
fn reply_with_neither_result_nor_error_is_invalid() {
    let expected = Err(Error::InvalidResponse("Missing result and error fields.".to_string()));
    for text in [r#"{}"#, r#"{"id":1}"#, "[]", "null", "5", r#"{"Result":[]}"#] {
        for has_result in [true, false] {
            assert_eq!(
                expected,
                interpret(&json(text), has_result, &RequestGetElementType::Index(0)),
                "{}",
                text
            );
        }
    }
}

#[test]
fn reply_with_an_error_is_the_rejection_of_the_device() {
    let expected = Err(Error::BraviaError(BraviaErrorCode {
        code: 40005,
        message: "Display Is Turned off".to_string(),
    }));
    let as_object = json(r#"{"error":{"code":40005,"message":"Display Is Turned off"},"id":1}"#);
    let as_array = json(r#"{"error":[40005,"Display Is Turned off"],"id":1}"#);
    for has_result in [true, false] {
        assert_eq!(expected, interpret(&as_object, has_result, &by_name("status")));
        assert_eq!(expected, interpret(&as_array, has_result, &by_name("status")));
    }
}

#[test]
fn reply_with_result_and_error_is_the_rejection_of_the_device() {
    let expected = Err(Error::BraviaError(BraviaErrorCode { code: 1, message: "x".to_string() }));
    let both = json(r#"{"result":["a"],"error":{"code":1,"message":"x"}}"#);
    assert_eq!(expected, interpret(&both, true, &RequestGetElementType::Index(0)));
    assert_eq!(expected, interpret(&both, false, &RequestGetElementType::Index(0)));

    let rejected = Err(Error::BraviaError(BraviaErrorCode {
        code: 40005,
        message: "Display Is Turned off".to_string(),
    }));
    let body = r#"{"result":[{"status":"standby"}],"error":{"code":40005,"message":"Display Is Turned off"}}"#;
    assert_eq!(rejected, complete(reply(body), true, &by_name("status")));
    assert_eq!(rejected, complete(reply(body), false, &by_name("status")));
    let request = call("system", "getPowerStatus", Some("1.0"), false);
    assert_eq!(rejected, Bravia::read_response(&request, reply(body)));
    // An error that cannot be read is a failure too, whatever the result.
    let odd = json(r#"{"result":["a"],"error":"x"}"#);
    assert_eq!(
        Err(Error::DeserializeError("invalid error description".to_string())),
        interpret(&odd, true, &RequestGetElementType::Index(0))
    );
}

#[test]
fn reply_with_an_unreadable_error_is_a_deserialize_error() {
    let expected = Err(Error::DeserializeError("invalid error description".to_string()));
    for text in [
        r#"{"error":{"code":"7","message":"x"}}"#,
        r#"{"error":{"code":7}}"#,
        r#"{"error":{"message":"x"}}"#,
        r#"{"error":{"code":-7,"message":"x"}}"#,
        r#"{"error":{"code":7.5,"message":"x"}}"#,
        r#"{"error":{"code":7,"message":null}}"#,
        r#"{"error":[7]}"#,
        r#"{"error":[7,"x","y"]}"#,
        r#"{"error":["x",7]}"#,
        r#"{"error":"x"}"#,
        r#"{"error":null}"#,
    ] {
        assert_eq!(
            expected,
            interpret(&json(text), true, &RequestGetElementType::Index(0)),
            "{}",
            text
        );
    }
}

#[test]
fn device_error_ignores_other_members() {
    let error = json(r#"{"message":"m","code":0,"detail":[1,2]}"#);
    assert_eq!(
        Some(BraviaErrorCode { code: 0, message: "m".to_string() }),
        read_device_error(&error)
    );
    let largest = json(r#"[18446744073709551615,""]"#);
    assert_eq!(
        Some(BraviaErrorCode { code: usize::MAX, message: String::new() }),
        read_device_error(&largest)
    );
}

#[test]
fn unwanted_result_is_dropped() {
    for text in [r#"{"result":[]}"#, r#"{"result":[{"status":"active"}]}"#, r#"{"result":7}"#] {
        assert_eq!(Ok(Value::Null), interpret(&json(text), false, &by_name("status")));
    }
}

#[test]
fn wanted_result_is_extracted() {
    let body = json(r#"{"result":[{"status":"standby"}],"id":50}"#);
    assert_eq!(Ok(json("\"standby\"")), interpret(&body, true, &by_name("status")));
    assert_eq!(
        Ok(json(r#"{"status":"standby"}"#)),
        interpret(&body, true, &RequestGetElementType::Index(0))
    );
    assert_eq!(
        missing_value(),
        interpret(&json(r#"{"result":[]}"#), true, &RequestGetElementType::Index(0))
    );
}

#[test]
fn failed_exchange_is_a_network_error_with_its_cause() {
    let outcome = HttpOutcome::Failed("connection refused".to_string());
    assert_eq!(
        Err(Error::NetworkError("connection refused".to_string())),
        complete(outcome, true, &RequestGetElementType::Index(0))
    );
}

#[test]
fn status_outside_the_success_range_is_a_bad_status() {
    let body = r#"{"result":["fine"]}"#;
    for status in [0u16, 100, 199, 300, 301, 400, 403, 404, 500, 503, u16::MAX] {
        assert!(!status_is_success(status));
        assert_eq!(
            Err(Error::BadStatus(status)),
            complete(
                HttpOutcome::Response(status, body.to_string()),
                true,
                &RequestGetElementType::Index(0)
            )
        );
    }
    for status in [200u16, 201, 204, 299] {
        assert!(status_is_success(status));
        assert_eq!(
            Ok(json("\"fine\"")),
            complete(
                HttpOutcome::Response(status, body.to_string()),
                true,
                &RequestGetElementType::Index(0)
            )
        );
    }
}

#[test]
fn body_that_is_not_json_is_a_network_error() {
    for body in ["", "<html>", "{\"result\":[", "{'result':[]}", "{\"result\":[1]} trailing"] {
        let outcome = complete(reply(body), false, &RequestGetElementType::Index(0));
        assert!(matches!(outcome, Err(Error::NetworkError(_))), "{}", body);
    }
    // The same text is rejected with the same message.
    let first = complete(reply("<html>"), true, &RequestGetElementType::Index(0));
    let second = complete(reply("<html>"), false, &by_name("x"));
    assert_eq!(first, second);
}

#[test]
fn successful_call_returns_the_named_value() {
    let value = complete(
        reply(r#"{"result":[{"status":"standby"}]}"#),
        true,
        &by_name("status"),
    )
    .unwrap();
    assert_eq!(Some("standby"), value.as_str());
}

#[test]
fn read_response_goes_by_the_request() {
    let body = RequestBodyBuilder::default().id(50).method("getPowerStatus").build().unwrap();
    let request = RequestBuilder::default()
        .endpoint("system")
        .body(body)
        .has_result()
        .get("status".into())
        .build()
        .unwrap();
    let value = Bravia::read_response(&request, reply(r#"{"result":[{"status":"active"}]}"#));
    assert_eq!(Ok(json("\"active\"")), value);
    let silent = call("system", "setPowerStatus", None, true);
    let value = Bravia::read_response(&silent, reply(r#"{"result":[{"status":"active"}]}"#));
    assert_eq!(Ok(Value::Null), value);
}

#[test]
fn call_at_an_unlisted_version_is_not_sent() {
    let bravia = client(Some("TEST"));
    let request = call("system", "getPowerStatus", Some("1.3"), false);
    assert_eq!(Err(Error::BraviaApiLevelError), bravia.make_request(&request));
    assert_eq!(
        Err(Error::BraviaApiLevelError),
        bravia.is_api_supported("system", "getPowerStatus", "1.3")
    );
}

#[test]
fn call_that_the_cache_lacks_is_not_sent() {
    let bravia = client(Some("TEST"));
    let cases = [
        ("audio", "getPowerStatus", Some("1.0"), Error::BraviaApiServiceNotFound),
        ("System", "getPowerStatus", Some("1.0"), Error::BraviaApiServiceNotFound),
        ("", "getPowerStatus", Some("1.0"), Error::BraviaApiServiceNotFound),
        ("system", "getPowerSavingMode", Some("1.0"), Error::BraviaApiNotFound),
        ("system", "getpowerstatus", None, Error::BraviaApiNotFound),
        ("system", "getPowerStatus", Some("1.1"), Error::BraviaApiLevelError),
        ("system", "getPowerStatus", Some("1"), Error::BraviaApiLevelError),
        ("system", "getPowerStatus", Some(""), Error::BraviaApiLevelError),
        // The service is looked up first, then the API, then the version.
        ("audio", "nothing", Some("9.9"), Error::BraviaApiServiceNotFound),
        ("system", "nothing", Some("9.9"), Error::BraviaApiNotFound),
    ];
    for (service, method, version, expected) in cases {
        for protected in [false, true] {
            let request = call(service, method, version, protected);
            assert_eq!(Err(expected.clone()), bravia.make_request(&request));
        }
    }
}

#[test]
fn call_that_the_cache_holds_is_sent() {
    let bravia = client(None);
    let request = call("system", "getPowerStatus", None, false);
    let sent = bravia.make_request(&request).unwrap();
    assert_eq!("http://tv.local/sony/system", sent.url);
    assert_eq!("", sent.auth);
    assert_eq!(
        json(r#"{"id":1,"method":"getPowerStatus","version":"1.0","params":[]}"#),
        json(&sent.body)
    );
    assert_eq!(Ok(()), bravia.is_api_supported("system", "getPowerStatus", "1.0"));
    assert_eq!(Ok(()), bravia.is_api_supported("system", "setPowerStatus", "1.1"));
}

#[test]
fn protected_call_without_a_password_is_not_sent() {
    let request = call("system", "setPowerStatus", Some("1.1"), true);
    assert_eq!(Err(Error::BraviaAuthLevelError), client(None).make_request(&request));
    assert_eq!(Err(Error::BraviaAuthLevelError), client(Some("")).make_request(&request));
}

#[test]
fn protected_call_carries_the_password() {
    let request = call("system", "setPowerStatus", Some("1.1"), true);
    let sent = client(Some("0000")).make_request(&request).unwrap();
    assert_eq!("0000", sent.auth);
    // A call that needs none carries none, also where one is stored.
    let open = call("system", "getPowerStatus", None, false);
    let sent = client(Some("0000")).make_request(&open).unwrap();
    assert_eq!("", sent.auth);
}

#[test]
fn cache_is_asked_before_the_password() {
    let request = call("system", "setPowerStatus", Some("2.0"), true);
    assert_eq!(Err(Error::BraviaApiLevelError), client(None).make_request(&request));
}

#[test]
fn discovery_is_sent_whatever_the_cache_holds() {
    let bravia = client(None);
    assert_eq!(
        Err(Error::BraviaApiServiceNotFound),
        bravia.is_api_supported("guide", "getSupportedApiInfo", "1.0")
    );
    let request = call("guide", "getSupportedApiInfo", None, false);
    assert!(bravia.make_request(&request).is_ok());
    let elsewhere = call("nowhere", "getSupportedApiInfo", Some("7.7"), false);
    assert_eq!("http://tv.local/sony/nowhere", bravia.make_request(&elsewhere).unwrap().url);
    // The password is still asked for.
    let protected = call("guide", "getSupportedApiInfo", None, true);
    assert_eq!(Err(Error::BraviaAuthLevelError), bravia.make_request(&protected));
}

#[test]
fn make_builds_the_request_first() {
    let bravia = client(None);
    let mut empty = RequestBuilder::default();
    assert_eq!(
        Err(Error::FieldInitialization("endpoint".to_string())),
        empty.make(&bravia)
    );
    let body = RequestBodyBuilder::default().id(50).method("getPowerStatus").build().unwrap();
    let sent = RequestBuilder::default()
        .endpoint("system")
        .body(body)
        .has_result()
        .make(&bravia)
        .unwrap();
    assert_eq!("http://tv.local/sony/system", sent.url);
}

#[test]
fn rejection_has_a_text_form() {
    let off = BraviaErrorCode { code: 40005, message: "Display Is Turned off".to_string() };
    assert_eq!("#40005: Display Is Turned off", off.to_text());
    let empty = BraviaErrorCode { code: 0, message: String::new() };
    assert_eq!("#0: ", empty.to_text());
    let largest = BraviaErrorCode { code: usize::MAX, message: "#1: x".to_string() };
    assert_eq!("#18446744073709551615: #1: x", largest.to_text());
}

#[test]
fn numbers_are_written_in_decimal() {
    for n in [0usize, 1, 9, 10, 11, 99, 100, 101, 4096, 40005, 1_000_000, usize::MAX] {
        assert_eq!(n.to_string(), decimal_text(n));
    }
}
