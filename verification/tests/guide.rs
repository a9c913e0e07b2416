use bravia_api::client::read_discovery;
use bravia_api::error::Error;
use bravia_api::guide::Api;
use bravia_api::guide::GuideService;
use bravia_api::guide::ServiceData;
use bravia_api::guide::Versions;
use bravia_api::transport::HttpOutcome;
use bravia_api::Bravia;
use serde_json::Value;

const ADDRESS: &str = "http://192.168.1.20";

fn json(text: &str) -> Value {
    serde_json::from_str(text).unwrap()
}

fn reply(body: &str) -> HttpOutcome {
    HttpOutcome::Response(200, body.to_string())
}

const AV_CONTENT: &str = r#"{"service":"avContent","protocols":["xhrpost:jsonizer"],"apis":[
    {"name":"getContentCount","versions":[{"version":"1.0","authLevel":"private"},{"version":"1.1","authLevel":"private"}]},
    {"name":"getSchemeList","versions":[{"version":"1.0","protocols":["xhrpost:jsonizer","websocket:jsonizer"],"authLevel":"none"}]}
],"notifications":[{"name":"notifyPlayingContentInfo","versions":[{"version":"1.0","authLevel":"none"}]}]}"#;

const SYSTEM: &str = r#"{"service":"system","protocols":["xhrpost:jsonizer"],"apis":[
    {"name":"getPowerStatus","versions":[{"version":"1.0"}]}
]}"#;

const GUIDE: &str = r#"{"service":"guide","protocols":["xhrpost:jsonizer"],"apis":[
    {"name":"getSupportedApiInfo","versions":[{"version":"1.0","authLevel":"none"}]}
],"notifications":null}"#;

/// The reply of a device with three services to a question about these
/// services; no names asks about all of them.
fn fixture(asked: &[&str]) -> HttpOutcome {
    let all = [("avContent", AV_CONTENT), ("system", SYSTEM), ("guide", GUIDE)];
    let mut listed = Vec::new();
    for (name, text) in all {
        if asked.is_empty() || asked.contains(&name) {
            listed.push(text);
        }
    }
    reply(&format!("{{\"result\":[[{}]],\"id\":5}}", listed.join(",")))
}

fn connect() -> Bravia {
    Bravia::new(ADDRESS, None, fixture(&[])).unwrap()
}

#[test]
fn discovery_request_asks_the_guide_about_all_services() {
    let request = Bravia::discovery(ADDRESS);
    assert_eq!("http://192.168.1.20/sony/guide", request.url);
    assert_eq!("", request.auth);
    assert_eq!(
        json(r#"{"id":5,"method":"getSupportedApiInfo","version":"1.0","params":[{}]}"#),
        json(&request.body)
    );
    // A client asks in the same words.
    let again = connect().guide().get_supported_api_info(None).unwrap();
    assert_eq!(request, again);
}

#[test]
fn discovery_with_names_asks_about_those_services() {
    let bravia = connect();
    let request = bravia
        .guide()
        .get_supported_api_info(Some(vec!["avContent".to_string()]))
        .unwrap();
    assert_eq!(
        json(
            r#"{"id":5,"method":"getSupportedApiInfo","version":"1.0","params":[{"services":["avContent"]}]}"#
        ),
        json(&request.body)
    );
    let two = bravia
        .guide()
        .get_supported_api_info(Some(vec!["system".to_string(), "audio".to_string()]))
        .unwrap();
    assert_eq!(json(r#"["system","audio"]"#), json(&two.body)["params"][0]["services"]);
    let none = bravia.guide().get_supported_api_info(Some(vec![])).unwrap();
    assert_eq!(json(r#"[{"services":[]}]"#), json(&none.body)["params"]);
}

#[test]
fn discovery_returns_the_services_that_the_device_reported() {
    let bravia = connect();
    let one = bravia
        .guide()
        .get_supported_api_info_reply(fixture(&["avContent"]))
        .unwrap();
    assert_eq!(1, one.len());
    assert_eq!("avContent", one[0].service);
    let all = bravia.guide().get_supported_api_info_reply(fixture(&[])).unwrap();
    assert_eq!(3, all.len());
    assert_eq!(
        vec!["avContent", "system", "guide"],
        all.iter().map(|s| s.service.as_str()).collect::<Vec<_>>()
    );
}

#[test]
fn discovery_reads_every_member_of_a_service() {
    let services = read_discovery(fixture(&["avContent"])).unwrap();
    let expected = ServiceData {
        apis: vec![
            Api {
                name: "getContentCount".to_string(),
                versions: vec![
                    Versions {
                        version: "1.0".to_string(),
                        protocols: None,
                        auth_level: Some("private".to_string()),
                    },
                    Versions {
                        version: "1.1".to_string(),
                        protocols: None,
                        auth_level: Some("private".to_string()),
                    },
                ],
            },
            Api {
                name: "getSchemeList".to_string(),
                versions: vec![Versions {
                    version: "1.0".to_string(),
                    protocols: Some(vec![
                        "xhrpost:jsonizer".to_string(),
                        "websocket:jsonizer".to_string(),
                    ]),
                    auth_level: Some("none".to_string()),
                }],
            },
        ],
        notifications: Some(vec![bravia_api::guide::Notifications {
            name: "notifyPlayingContentInfo".to_string(),
            versions: vec![Versions {
                version: "1.0".to_string(),
                protocols: None,
                auth_level: Some("none".to_string()),
            }],
        }]),
        service: "avContent".to_string(),
        protocols: vec!["xhrpost:jsonizer".to_string()],
    };
    assert_eq!(vec![expected], services);
    let guide = read_discovery(fixture(&["guide"])).unwrap();
    assert_eq!(None, guide[0].notifications);
}

#[test]
fn discovery_without_any_service_is_a_missing_value() {
    let expected = Err(Error::MissingValue("apis".to_string()));
    assert_eq!(expected, read_discovery(reply(r#"{"result":[[]],"id":5}"#)));
    assert_eq!(
        expected,
        connect().guide().get_supported_api_info_reply(reply(r#"{"result":[[]]}"#))
    );
}

#[test]
fn client_is_not_made_from_a_failed_discovery() {
    let cases: Vec<(HttpOutcome, Error)> = vec![
        (
            HttpOutcome::Failed("timed out".to_string()),
            Error::NetworkError("timed out".to_string()),
        ),
        (HttpOutcome::Response(500, String::new()), Error::BadStatus(500)),
        (HttpOutcome::Response(404, "{\"result\":[[]]}".to_string()), Error::BadStatus(404)),
        (reply(r#"{"result":[[]]}"#), Error::MissingValue("apis".to_string())),
        (reply(r#"{"result":[]}"#), Error::MissingValue("result values".to_string())),
        (
            reply(r#"{"id":5}"#),
            Error::InvalidResponse("Missing result and error fields.".to_string()),
        ),
        (
            reply(r#"{"error":[404,"Not Found"]}"#),
            Error::BraviaError(bravia_api::error::BraviaErrorCode {
                code: 404,
                message: "Not Found".to_string(),
            }),
        ),
        (
            reply(r#"{"result":[{"service":"system"}]}"#),
            Error::DeserializeError("invalid service list".to_string()),
        ),
        (
            reply(r#"{"result":[[{"service":"system","protocols":[]}]]}"#),
            Error::DeserializeError("invalid service list".to_string()),
        ),
        (
            reply(r#"{"result":[[{"service":"system","protocols":[],"apis":[{"name":"a","versions":[{}]}]}]]}"#),
            Error::DeserializeError("invalid service list".to_string()),
        ),
        (
            reply(r#"{"result":[[{"service":7,"protocols":[],"apis":[]}]]}"#),
            Error::DeserializeError("invalid service list".to_string()),
        ),
    ];
    for (outcome, expected) in cases {
        assert_eq!(Err(expected), Bravia::new(ADDRESS, Some("TEST"), outcome));
    }
    assert!(matches!(
        Bravia::new(ADDRESS, None, reply("not json")),
        Err(Error::NetworkError(_))
    ));
}

#[test]
fn client_knows_what_discovery_reported() {
    let bravia = connect();
    assert_eq!(Ok(()), bravia.is_api_supported("avContent", "getContentCount", "1.0"));
    assert_eq!(Ok(()), bravia.is_api_supported("avContent", "getContentCount", "1.1"));
    assert_eq!(Ok(()), bravia.is_api_supported("avContent", "getSchemeList", "1.0"));
    assert_eq!(Ok(()), bravia.is_api_supported("system", "getPowerStatus", "1.0"));
    assert_eq!(Ok(()), bravia.is_api_supported("guide", "getSupportedApiInfo", "1.0"));
    assert_eq!(
        Err(Error::BraviaApiLevelError),
        bravia.is_api_supported("avContent", "getSchemeList", "1.1")
    );
    // Notifications are no APIs.
    assert_eq!(
        Err(Error::BraviaApiNotFound),
        bravia.is_api_supported("avContent", "notifyPlayingContentInfo", "1.0")
    );
    assert_eq!(
        Err(Error::BraviaApiServiceNotFound),
        bravia.is_api_supported("audio", "getVolumeInformation", "1.0")
    );
}

#[test]
fn clients_made_alike_are_equal() {
    let one = Bravia::new(ADDRESS, Some("TEST"), fixture(&[])).unwrap();
    let other = Bravia::new(ADDRESS, Some("TEST"), fixture(&[])).unwrap();
    assert_eq!(one, other);
    let narrower = Bravia::new(ADDRESS, Some("TEST"), fixture(&["system"])).unwrap();
    assert_ne!(one, narrower);
    let _: GuideService = one.guide();
}

#[test]
fn service_with_an_api_without_versions_offers_it_at_none() {
    let body = r#"{"result":[[{"service":"s","protocols":[],"apis":[{"name":"a","versions":[]}]}]]}"#;
    let bravia = Bravia::new(ADDRESS, None, reply(body)).unwrap();
    assert_eq!(Err(Error::BraviaApiLevelError), bravia.is_api_supported("s", "a", "1.0"));
    assert_eq!(Err(Error::BraviaApiNotFound), bravia.is_api_supported("s", "b", "1.0"));
}

#[test]
fn later_description_of_a_service_replaces_the_earlier() {
    let body = r#"{"result":[[
        {"service":"s","protocols":[],"apis":[{"name":"a","versions":[{"version":"1.0"}]},{"name":"b","versions":[{"version":"1.0"}]}]},
        {"service":"t","protocols":[],"apis":[]},
        {"service":"s","protocols":[],"apis":[{"name":"a","versions":[{"version":"2.0"}]},{"name":"a","versions":[{"version":"3.0"}]}]}
    ]]}"#;
    let bravia = Bravia::new(ADDRESS, None, reply(body)).unwrap();
    assert_eq!(Ok(()), bravia.is_api_supported("s", "a", "3.0"));
    assert_eq!(Err(Error::BraviaApiLevelError), bravia.is_api_supported("s", "a", "2.0"));
    assert_eq!(Err(Error::BraviaApiLevelError), bravia.is_api_supported("s", "a", "1.0"));
    assert_eq!(Err(Error::BraviaApiNotFound), bravia.is_api_supported("s", "b", "1.0"));
    assert_eq!(Err(Error::BraviaApiNotFound), bravia.is_api_supported("t", "a", "1.0"));
}
