use bravia_api::Bravia;
use bravia_api::transport::HttpOutcome;
use bravia_api::transport::HttpRequest;
use bravia_api::video::PictureQualitySettingsRequest;
use serde_json::Value;

const ADDRESS: &str = "http://192.168.1.20";
const ENDPOINT_URL: &str = "http://192.168.1.20/sony/video";
const AUTH: Option<&str> = Some("TEST");

fn json(text: &str) -> Value {
    serde_json::from_str(text).unwrap()
}

fn reply(body: &str) -> HttpOutcome {
    HttpOutcome::Response(200, body.to_string())
}

/// A discovery reply that describes one service with the given APIs, each at
/// the given versions.
fn discovery(service: &str, apis: &[(&str, &[&str])]) -> String {
    let mut listed = Vec::new();
    for (name, versions) in apis {
        let mut v = Vec::new();
        for version in versions.iter() {
            v.push(format!("{{\"version\":\"{}\",\"authLevel\":\"generic\"}}", version));
        }
        listed.push(format!("{{\"name\":\"{}\",\"versions\":[{}]}}", name, v.join(",")));
    }
    format!(
        "{{\"result\":[[{{\"service\":\"{}\",\"protocols\":[\"xhrpost:jsonizer\"],\"apis\":[{}]}}]],\"id\":5}}",
        service,
        listed.join(",")
    )
}

/// What a device gets to see of a request: the path, the
/// credential header and the exact JSON body.
fn assert_request(request: &HttpRequest, auth: &str, body: &str) {
    assert_eq!(ENDPOINT_URL, request.url);
    assert_eq!(auth, request.auth);
    assert_eq!(json(body), json(&request.body));
}

fn server_setup() -> Bravia {
    let body = discovery(
        "video",
        &[
            ("getPictureQualitySettings", &["1.0"]),
            ("setPictureQualitySettings", &["1.0"]),
        ],
    );
    Bravia::new(ADDRESS, AUTH, reply(&body)).unwrap()
}

#[test]
fn test_get_picture_quality_settings() {
    let bravia = server_setup();
    let request = bravia
        .video()
        .get_picture_quality_settings(Some("color".to_string()))
        .unwrap();
    assert_request(
        &request,
        "",
        r#"{"method":"getPictureQualitySettings","id":52,"params":[{"target":"color"}],"version":"1.0"}"#,
    );

    let quality_settings = bravia
        .video()
        .get_picture_quality_settings_reply(reply(
            r#"{"result":[[{"target":"color","currentValue":"2","isAvailable":true,"candidate":[{"max":100,"min":0,"step":1}]}]],"id":52}"#,
        ))
        .unwrap();

    let quality_settings = quality_settings.get(0).unwrap();
    assert_eq!("color", quality_settings["target"].as_str().unwrap());
    assert_eq!("2", quality_settings["currentValue"].as_str().unwrap());
}

#[test]
fn test_set_picture_quality_settings() {
    let bravia = server_setup();
    let settings =
        PictureQualitySettingsRequest::new(Some("color".to_string()), Some("2".to_string()));
    let request = bravia
        .video()
        .set_picture_quality_settings(vec![settings])
        .unwrap();
    assert_request(
        &request,
        "TEST",
        r#"{"method":"setPictureQualitySettings","id":12,"params":[{"settings":[{"value":"2","target":"color"}]}],"version":"1.0"}"#,
    );

    bravia
        .video()
        .set_picture_quality_settings_reply(reply(r#"{"result":[],"id":12}"#))
        .unwrap();
}

#[test]
fn picture_quality_settings_keep_their_order_and_send_null_for_no_value() {
    let bravia = server_setup();
    let first = PictureQualitySettingsRequest::new(Some("color".to_string()), None);
    let second = PictureQualitySettingsRequest::new(None, Some("5".to_string()));
    let request = bravia
        .video()
        .set_picture_quality_settings(vec![first, second])
        .unwrap();
    assert_request(
        &request,
        "TEST",
        r#"{"method":"setPictureQualitySettings","id":12,"params":[{"settings":[{"value":null,"target":"color"},{"value":"5","target":null}]}],"version":"1.0"}"#,
    );
    let none = bravia.video().set_picture_quality_settings(vec![]).unwrap();
    assert_request(
        &none,
        "TEST",
        r#"{"method":"setPictureQualitySettings","id":12,"params":[{"settings":[]}],"version":"1.0"}"#,
    );
}
