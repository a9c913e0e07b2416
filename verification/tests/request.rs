use bravia_api::error::Error;
use bravia_api::request::copy_values;
use bravia_api::request::RequestBody;
use bravia_api::request::RequestBodyBuilder;
use bravia_api::request::RequestBuilder;
use bravia_api::request::RequestGetElementType;
use serde_json::Value;

fn json(text: &str) -> Value {
    serde_json::from_str(text).unwrap()
}

#[test]
fn body_defaults_to_version_1_0_and_no_parameters() {
    let body = RequestBodyBuilder::default().id(7).method("m").build().unwrap();
    assert_eq!(7, body.id);
    assert_eq!("m", body.method);
    assert_eq!("1.0", body.version);
    assert!(body.params.is_empty());
}

#[test]
fn body_version_none_stands_for_1_0() {
    let body = RequestBodyBuilder::default().id(7).method("m").version(None).build().unwrap();
    assert_eq!("1.0", body.version);
    let body = RequestBodyBuilder::default()
        .id(7)
        .method("m")
        .version(Some("1.4"))
        .version(None)
        .build()
        .unwrap();
    assert_eq!("1.0", body.version);
    let body = RequestBodyBuilder::default().id(7).method("m").version(Some("1.4")).build().unwrap();
    assert_eq!("1.4", body.version);
}

#[test]
fn body_parameters_are_wrapped_in_an_array() {
    let body = RequestBodyBuilder::default()
        .id(7)
        .method("m")
        .params(json(r#"{"a":1}"#))
        .build()
        .unwrap();
    assert_eq!(vec![json(r#"{"a":1}"#)], body.params);
    // The last parameter set counts; the array never grows past one.
    let body = RequestBodyBuilder::default()
        .id(7)
        .method("m")
        .params(json("1"))
        .params(json("[2,3]"))
        .build()
        .unwrap();
    assert_eq!(vec![json("[2,3]")], body.params);
}

#[test]
fn body_needs_id_and_method() {
    assert_eq!(
        Err(Error::FieldInitialization("id".to_string())),
        RequestBodyBuilder::default().build()
    );
    assert_eq!(
        Err(Error::FieldInitialization("id".to_string())),
        RequestBodyBuilder::default().method("m").build()
    );
    assert_eq!(
        Err(Error::FieldInitialization("method".to_string())),
        RequestBodyBuilder::default().id(0).build()
    );
}

#[test]
fn body_builder_can_build_twice() {
    let mut builder = RequestBodyBuilder::default();
    builder.id(3).method("m").params(json(r#"{"k":"v"}"#));
    let first = builder.build().unwrap();
    let second = builder.build().unwrap();
    assert_eq!(first, second);
    assert_eq!(first, first.duplicate());
}

#[test]
fn envelope_holds_the_four_members() {
    let body = RequestBodyBuilder::default()
        .id(601)
        .method("setTextForm")
        .version(Some("1.1"))
        .params(json(r#"{"encKey":"K","text":"T"}"#))
        .build()
        .unwrap();
    let expected = json(
        r#"{"id":601,"method":"setTextForm","version":"1.1","params":[{"encKey":"K","text":"T"}]}"#,
    );
    assert_eq!(expected, body.to_value());
    assert_eq!(expected, json(&body.to_text()));
    // The text is compact JSON.
    assert!(!body.to_text().contains(' '));
    assert!(!body.to_text().contains('\n'));
}

#[test]
fn envelope_of_a_body_without_parameters_has_an_empty_array() {
    let body = RequestBodyBuilder::default().id(0).method("").build().unwrap();
    assert_eq!(json(r#"{"id":0,"method":"","version":"1.0","params":[]}"#), body.to_value());
    let largest = RequestBody {
        id: usize::MAX,
        method: "m".to_string(),
        version: "v".to_string(),
        params: vec![],
    };
    assert_eq!(
        json(r#"{"id":18446744073709551615,"method":"m","version":"v","params":[]}"#),
        json(&largest.to_text())
    );
}

#[test]
fn envelope_escapes_text() {
    let body = RequestBodyBuilder::default()
        .id(1)
        .method("quote\"and\\slash")
        .params(Value::from("line\nbreak \u{e9}"))
        .build()
        .unwrap();
    let back = json(&body.to_text());
    assert_eq!(Some("quote\"and\\slash"), back["method"].as_str());
    assert_eq!(Some("line\nbreak \u{e9}"), back["params"][0].as_str());
}

#[test]
fn request_defaults_to_unprotected_without_result_and_first_element() {
    let body = RequestBodyBuilder::default().id(7).method("m").build().unwrap();
    let request = RequestBuilder::default().endpoint("system").body(body.clone()).build().unwrap();
    assert_eq!("system", request.endpoint);
    assert_eq!(body, request.body);
    assert!(!request.is_protected);
    assert!(!request.has_result);
    assert_eq!(RequestGetElementType::Index(0), request.get);
}

#[test]
fn request_keeps_what_was_set() {
    let body = RequestBodyBuilder::default().id(7).method("m").build().unwrap();
    let request = RequestBuilder::default()
        .endpoint("audio")
        .body(body)
        .is_protected()
        .has_result()
        .get(3usize.into())
        .build()
        .unwrap();
    assert!(request.is_protected);
    assert!(request.has_result);
    assert_eq!(RequestGetElementType::Index(3), request.get);
}

#[test]
fn request_needs_endpoint_and_body() {
    let body = RequestBodyBuilder::default().id(7).method("m").build().unwrap();
    assert_eq!(
        Err(Error::FieldInitialization("endpoint".to_string())),
        RequestBuilder::default().build()
    );
    assert_eq!(
        Err(Error::FieldInitialization("endpoint".to_string())),
        RequestBuilder::default().body(body).is_protected().build()
    );
    assert_eq!(
        Err(Error::FieldInitialization("body".to_string())),
        RequestBuilder::default().endpoint("system").build()
    );
}

#[test]
fn policy_comes_from_a_name_or_a_position() {
    let named: RequestGetElementType = "status".into();
    assert_eq!(RequestGetElementType::Text("status".to_string()), named);
    let positional: RequestGetElementType = 1usize.into();
    assert_eq!(RequestGetElementType::Index(1), positional);
    assert_eq!(named, named.duplicate());
    assert_eq!(positional, positional.duplicate());
}

#[test]
fn copied_values_are_equal_values() {
    let values = vec![json("null"), json("[1,{\"a\":[true,2.5,\"x\"]}]"), json("-3")];
    assert_eq!(values, copy_values(&values));
    assert_eq!(Vec::<Value>::new(), copy_values(&vec![]));
}
