use bravia_api::Bravia;
use bravia_api::av_content::join_texts;
use bravia_api::av_content::ExternalInputStatus;
use bravia_api::error::Error;
use bravia_api::transport::HttpOutcome;
use bravia_api::transport::HttpRequest;
use serde_json::Value;

const ADDRESS: &str = "http://192.168.1.20";
const ENDPOINT_URL: &str = "http://192.168.1.20/sony/avContent";
const AUTH: Option<&str> = Some("TEST");

fn json(text: &str) -> Value {
    serde_json::from_str(text).unwrap()
}

fn reply(body: &str) -> HttpOutcome {
    HttpOutcome::Response(200, body.to_string())
}

/// A discovery reply that describes one service with the given APIs, each at
/// the given versions.
fn discovery(service: &str, apis: &[(&str, &[&str])]) -> String {
    let mut listed = Vec::new();
    for (name, versions) in apis {
        let mut v = Vec::new();
        for version in versions.iter() {
            v.push(format!("{{\"version\":\"{}\",\"authLevel\":\"generic\"}}", version));
        }
        listed.push(format!("{{\"name\":\"{}\",\"versions\":[{}]}}", name, v.join(",")));
    }
    format!(
        "{{\"result\":[[{{\"service\":\"{}\",\"protocols\":[\"xhrpost:jsonizer\"],\"apis\":[{}]}}]],\"id\":5}}",
        service,
        listed.join(",")
    )
}

/// What a device gets to see of a request: the path, the
/// credential header and the exact JSON body.
fn assert_request(request: &HttpRequest, auth: &str, body: &str) {
    assert_eq!(ENDPOINT_URL, request.url);
    assert_eq!(auth, request.auth);
    assert_eq!(json(body), json(&request.body));
}

fn server_setup() -> Bravia {
    let body = discovery(
        "avContent",
        &[
            ("getContentCount", &["1.0", "1.1"]),
            ("getContentList", &["1.5"]),
            ("getCurrentExternalInputsStatus", &["1.0", "1.1"]),
            ("getSchemeList", &["1.0"]),
            ("getSourceList", &["1.0"]),
            ("getPlayingContentInfo", &["1.0"]),
            ("setPlayContent", &["1.0"]),
        ],
    );
    Bravia::new(ADDRESS, AUTH, reply(&body)).unwrap()
}

#[test]
fn test_content_count() {
    let bravia = server_setup();
    let request = bravia
        .av_content()
        .get_content_count("extInput:hdmi".to_string(), None, None, None)
        .unwrap();
    assert_request(
        &request,
        "TEST",
        r#"{"method":"getContentCount","id":11,"params":[{"source":"extInput:hdmi"}],"version":"1.0"}"#,
    );

    let hdmi_count = bravia
        .av_content()
        .get_content_count_reply(reply(r#"{"result":[{"count":4}],"id":11}"#))
        .unwrap();

    assert_eq!(4, hdmi_count);
}

#[test]
fn test_get_content_list() {
    let bravia = server_setup();
    let request = bravia
        .av_content()
        .get_content_list(Some("extInput:hdmi".to_string()), Some(0), Some(50))
        .unwrap();
    assert_request(
        &request,
        "TEST",
        r#"{"method":"getContentList","id":88,"params":[{"stIdx":0,"cnt":50,"uri":"extInput:hdmi"}],"version":"1.5"}"#,
    );

    let hdmi_list = bravia
        .av_content()
        .get_content_list_reply(reply(
            r#"{"result":[[
                {"uri":"extInput:hdmi?port=1","title":"HDMI 1","index":0},
                {"uri":"extInput:hdmi?port=2","title":"HDMI 2","index":1},
                {"uri":"extInput:hdmi?port=3","title":"HDMI 3/ARC","index":2},
                {"uri":"extInput:hdmi?port=4","title":"HDMI 4","index":3}
            ]],"id":88}"#,
        ))
        .unwrap();

    assert_eq!(
        "HDMI 3/ARC",
        hdmi_list.get(2).unwrap().title.as_ref().unwrap()
    );
    assert_ne! {3, hdmi_list.get(2).unwrap().index};
    assert_eq!(2, hdmi_list.get(2).unwrap().index);
}

#[test]
fn test_get_current_external_input_status() {
    let bravia = server_setup();
    let request = bravia
        .av_content()
        .get_current_external_input_status(None)
        .unwrap();
    assert_request(
        &request,
        "",
        r#"{"method":"getCurrentExternalInputsStatus","id":105,"params":[],"version":"1.0"}"#,
    );

    let external_inputs_status = bravia
        .av_content()
        .get_current_external_input_status_reply(reply(
            r#"{"result":[[
                {"uri":"extInput:cec?type=player&port=2&logicalAddr=4","title":"Player 1","connection":true,"label":"","icon":"meta:playbackdevice"},
                {"uri":"extInput:component?port=1","title":"Component 1","connection":false,"label":"","icon":"meta:component"},
                {"uri":"extInput:hdmi?port=1","title":"HDMI1","connection":true,"label":"","icon":"meta:hdmi"}
            ]],"id":105}"#,
        ))
        .unwrap();

    let hdmi = ExternalInputStatus {
        icon: "meta:hdmi".to_string(),
        connection: true,
        label: "".to_string(),
        title: "HDMI1".to_string(),
        uri: "extInput:hdmi?port=1".to_string(),
        status: None,
    };
    assert_eq!(&hdmi, external_inputs_status.get(2).unwrap());
}

#[test]
fn test_get_scheme_list() {
    let bravia = server_setup();
    let request = bravia.av_content().get_scheme_list().unwrap();
    assert_request(
        &request,
        "",
        r#"{"method":"getSchemeList","id":1,"params":[],"version":"1.0"}"#,
    );

    let scheme_list = bravia
        .av_content()
        .get_scheme_list_reply(reply(
            r#"{"result":[[{"scheme":"extInput"},{"scheme":"fav"}]],"id":1}"#,
        ))
        .unwrap();

    assert_eq!(vec!["extInput", "fav"], scheme_list);
}

#[test]
fn test_get_source_list() {
    let bravia = server_setup();
    let request = bravia
        .av_content()
        .get_source_list("extInput".to_string())
        .unwrap();
    assert_request(
        &request,
        "",
        r#"{"method":"getSourceList","id":1,"params":[{"scheme":"extInput"}],"version":"1.0"}"#,
    );

    let source_list = bravia
        .av_content()
        .get_source_list_reply(reply(
            r#"{"result":[[{"source":"extInput:hdmi"},{"source":"extInput:component"},{"source":"extInput:cec"},{"source":"extInput:widi"}]],"id":1}"#,
        ))
        .unwrap();

    assert_eq!(
        vec![
            "extInput:hdmi",
            "extInput:component",
            "extInput:cec",
            "extInput:widi"
        ],
        source_list
    );
}

#[test]
fn test_get_playing_content_info() {
    let bravia = server_setup();
    let request = bravia.av_content().get_playing_content_info().unwrap();
    assert_request(
        &request,
        "TEST",
        r#"{"method":"getPlayingContentInfo","id":103,"params":[],"version":"1.0"}"#,
    );

    let playing_content = bravia
        .av_content()
        .get_playing_content_info_reply(reply(
            r#"{"result":[{"uri":"extInput:hdmi?port=2","source":"extInput:hdmi","title":"HDMI 2"}],"id":103}"#,
        ))
        .unwrap();

    assert_eq!("HDMI 2", playing_content.title);
}

#[test]
fn test_set_play_content() {
    let bravia = server_setup();
    let request = bravia
        .av_content()
        .set_play_content("extInput:hdmi?port=2".to_string())
        .unwrap();
    assert_request(
        &request,
        "TEST",
        r#"{"method":"setPlayContent","id":101,"params":[{"uri":"extInput:hdmi?port=2"}],"version":"1.0"}"#,
    );

    bravia
        .av_content()
        .set_play_content_reply(reply(r#"{"result":[],"id":101}"#))
        .unwrap();
}

#[test]
fn content_count_holds_the_target_at_1_1_only() {
    let bravia = server_setup();
    let at_1_1 = bravia
        .av_content()
        .get_content_count(
            "extInput:hdmi".to_string(),
            Some("tv".to_string()),
            Some("all".to_string()),
            Some("1.1"),
        )
        .unwrap();
    assert_request(
        &at_1_1,
        "TEST",
        r#"{"method":"getContentCount","id":11,"params":[{"source":"extInput:hdmi","type":"tv","target":"all"}],"version":"1.1"}"#,
    );
    let at_1_0 = bravia
        .av_content()
        .get_content_count(
            "extInput:hdmi".to_string(),
            None,
            Some("all".to_string()),
            Some("1.0"),
        )
        .unwrap();
    assert_request(
        &at_1_0,
        "TEST",
        r#"{"method":"getContentCount","id":11,"params":[{"source":"extInput:hdmi"}],"version":"1.0"}"#,
    );
}

#[test]
fn content_list_without_arguments_asks_with_an_empty_object() {
    let bravia = server_setup();
    let request = bravia.av_content().get_content_list(None, None, None).unwrap();
    assert_request(
        &request,
        "TEST",
        r#"{"method":"getContentList","id":88,"params":[{}],"version":"1.5"}"#,
    );
}

#[test]
fn content_without_title_and_index_has_none_and_zero() {
    let bravia = server_setup();
    let list = bravia
        .av_content()
        .get_content_list_reply(reply(
            r#"{"result":[[{"uri":"extInput:hdmi"},{"uri":"tv:dvbt","title":null,"index":-1}]]}"#,
        ))
        .unwrap();
    assert_eq!(None, list[0].title);
    assert_eq!(0, list[0].index);
    assert_eq!(None, list[1].title);
    assert_eq!(-1, list[1].index);
}

#[test]
fn content_index_outside_32_bits_is_a_deserialize_error() {
    let bravia = server_setup();
    for index in ["2147483648", "-2147483649", "1.5"] {
        let body = format!("{{\"result\":[[{{\"uri\":\"u\",\"index\":{}}}]]}}", index);
        let outcome = bravia.av_content().get_content_list_reply(reply(&body));
        assert!(matches!(outcome, Err(Error::DeserializeError(_))), "{}", index);
    }
    let edge = bravia
        .av_content()
        .get_content_list_reply(reply(
            r#"{"result":[[{"uri":"u","index":2147483647},{"uri":"u","index":-2147483648}]]}"#,
        ))
        .unwrap();
    assert_eq!(i32::MAX, edge[0].index);
    assert_eq!(i32::MIN, edge[1].index);
}

fn bravia_api_names(bravia: &Bravia, element: &str) -> Vec<String> {
    bravia
        .av_content()
        .get_source_list_reply(reply(&format!("{{\"result\":[[{}]]}}", element)))
        .unwrap()
}

#[test]
fn scheme_list_joins_the_members_of_an_element() {
    let bravia = server_setup();
    let names = bravia
        .av_content()
        .get_scheme_list_reply(reply(r#"{"result":[[{},{"b":"2","a":"1"}]]}"#))
        .unwrap();
    assert_eq!(vec!["", "12"], names);
    // The members are walked in ascending order of their names.
    let ordered = bravia_api_names(&bravia, r#"{"b":"B","a":"A","ab":"C","B":"D","":"E"}"#);
    assert_eq!(vec!["EDACB"], ordered);
    let not_text = bravia
        .av_content()
        .get_scheme_list_reply(reply(r#"{"result":[[{"scheme":1}]]}"#));
    assert!(matches!(not_text, Err(Error::DeserializeError(_))));
    let not_object = bravia
        .av_content()
        .get_scheme_list_reply(reply(r#"{"result":[["extInput"]]}"#));
    assert!(matches!(not_object, Err(Error::DeserializeError(_))));
}

#[test]
fn texts_are_joined_in_their_order() {
    let (a, b, c) = (json("\"ex\""), json("\"\""), json("\"Input\""));
    assert_eq!(Some("exInput".to_string()), join_texts(&vec![&a, &b, &c]));
    assert_eq!(Some("Inputex".to_string()), join_texts(&vec![&c, &a]));
    assert_eq!(Some(String::new()), join_texts(&vec![]));
    let number = json("1");
    assert_eq!(None, join_texts(&vec![&a, &number]));
    assert_eq!(None, join_texts(&vec![&number, &a]));
}
