use bravia_api::Bravia;
use bravia_api::audio::SoundSettings;
use bravia_api::audio::SpeakerSettings;
use bravia_api::error::Error;
use bravia_api::transport::HttpOutcome;
use bravia_api::transport::HttpRequest;
use serde_json::Value;

const ADDRESS: &str = "http://192.168.1.20";
const ENDPOINT_URL: &str = "http://192.168.1.20/sony/audio";
const AUTH: Option<&str> = Some("TEST");

fn json(text: &str) -> Value {
    serde_json::from_str(text).unwrap()
}

fn reply(body: &str) -> HttpOutcome {
    HttpOutcome::Response(200, body.to_string())
}

/// A discovery reply that describes one service with the given APIs, each at
/// the given versions.
fn discovery(service: &str, apis: &[(&str, &[&str])]) -> String {
    let mut listed = Vec::new();
    for (name, versions) in apis {
        let mut v = Vec::new();
        for version in versions.iter() {
            v.push(format!("{{\"version\":\"{}\",\"authLevel\":\"generic\"}}", version));
        }
        listed.push(format!("{{\"name\":\"{}\",\"versions\":[{}]}}", name, v.join(",")));
    }
    format!(
        "{{\"result\":[[{{\"service\":\"{}\",\"protocols\":[\"xhrpost:jsonizer\"],\"apis\":[{}]}}]],\"id\":5}}",
        service,
        listed.join(",")
    )
}

/// What a device gets to see of a request: the path, the
/// credential header and the exact JSON body.
fn assert_request(request: &HttpRequest, auth: &str, body: &str) {
    assert_eq!(ENDPOINT_URL, request.url);
    assert_eq!(auth, request.auth);
    assert_eq!(json(body), json(&request.body));
}

fn server_setup() -> Bravia {
    let body = discovery(
        "audio",
        &[
            ("getSoundSettings", &["1.1"]),
            ("getSpeakerSettings", &["1.0"]),
            ("getVolumeInformation", &["1.0"]),
            ("setAudioMute", &["1.0"]),
            ("setAudioVolume", &["1.0", "1.2"]),
            ("setSoundSettings", &["1.1"]),
            ("setSpeakerSettings", &["1.0"]),
        ],
    );
    Bravia::new(ADDRESS, AUTH, reply(&body)).unwrap()
}

#[test]
fn test_get_sound_settings() {
    let bravia = server_setup();
    let request = bravia
        .audio()
        .get_sound_settings(Some("outputTerminal".into()))
        .unwrap();
    assert_request(
        &request,
        "",
        r#"{"method":"getSoundSettings","id":73,"params":[{"target":"outputTerminal"}],"version":"1.1"}"#,
    );

    let sound_settings = bravia
        .audio()
        .get_sound_settings_reply(reply(
            r#"{"result":[[{"target":"outputTerminal","currentValue":"audioSystem","deviceUIInfo":"","title":"","type":"enumTarget","isAvailable":true,"candidate":[]}]],"id":73}"#,
        ))
        .unwrap();

    assert_eq!("audioSystem", sound_settings.get(0).unwrap().value);
}

#[test]
fn test_get_speaker_settings() {
    let bravia = server_setup();
    let request = bravia
        .audio()
        .get_speaker_settings(Some("tvPosition".into()))
        .unwrap();
    assert_request(
        &request,
        "",
        r#"{"method":"getSpeakerSettings","id":67,"params":[{"target":"tvPosition"}],"version":"1.0"}"#,
    );

    let speaker_settings = bravia
        .audio()
        .get_speaker_settings_reply(reply(
            r#"{"result":[[{"target":"tvPosition","currentValue":"tableTop","title":"","type":"enumTarget"}]],"id":67}"#,
        ))
        .unwrap();

    assert_eq!("tableTop", speaker_settings.get(0).unwrap().value);
}

#[test]
fn test_get_volume_information() {
    let bravia = server_setup();
    let request = bravia.audio().get_volume_information().unwrap();
    assert_request(
        &request,
        "",
        r#"{"method":"getVolumeInformation","id":33,"params":[],"version":"1.0"}"#,
    );

    let volume_information = bravia
        .audio()
        .get_volume_information_reply(reply(
            r#"{"result":[[{"target":"speaker","volume":25,"mute":false,"maxVolume":100,"minVolume":0},{"target":"headphone","volume":10,"mute":true,"maxVolume":100,"minVolume":0}]],"id":33}"#,
        ))
        .unwrap();

    assert_eq!(25, volume_information.get(0).unwrap().volume);
    assert_eq!("headphone", volume_information.get(1).unwrap().target);
    assert!(volume_information.get(1).unwrap().mute);
    assert_eq!(100, volume_information.get(1).unwrap().max_volume);
    assert_eq!(0, volume_information.get(1).unwrap().min_volume);
}

#[test]
fn test_set_audio_mute() {
    let bravia = server_setup();
    let request = bravia.audio().set_audio_mute(true).unwrap();
    assert_request(
        &request,
        "TEST",
        r#"{"method":"setAudioMute","id":601,"params":[{"status":true}],"version":"1.0"}"#,
    );

    bravia
        .audio()
        .set_audio_mute_reply(reply(r#"{"result":[0],"id":601}"#))
        .unwrap();
}

#[test]
fn test_set_audio_volume() {
    let bravia = server_setup();
    let request = bravia
        .audio()
        .set_audio_volume(
            Some("speaker".to_string()),
            "5".to_string(),
            Some("on".to_string()),
            Some("1.2"),
        )
        .unwrap();
    assert_request(
        &request,
        "TEST",
        r#"{"method":"setAudioVolume","id":98,"params":[{"volume":"5","ui":"on","target":"speaker"}],"version":"1.2"}"#,
    );

    bravia
        .audio()
        .set_audio_volume_reply(reply(r#"{"result":[0],"id":98}"#))
        .unwrap();
}

#[test]
fn test_set_sound_settings() {
    let bravia = server_setup();
    let settings = SoundSettings::new("outputTerminal".into(), "speaker".into());
    let request = bravia.audio().set_sound_settings(vec![settings]).unwrap();
    assert_request(
        &request,
        "TEST",
        r#"{"method":"setSoundSettings","id":5,"params":[{"settings":[{"value":"speaker","target":"outputTerminal"}]}],"version":"1.1"}"#,
    );

    bravia
        .audio()
        .set_sound_settings_reply(reply(r#"{"result":[[]],"id":5}"#))
        .unwrap();
}

#[test]
fn test_set_speaker_settings() {
    let bravia = server_setup();
    let settings = SpeakerSettings::new("tvPosition".into(), "wallMount".into());
    let request = bravia.audio().set_speaker_settings(vec![settings]).unwrap();
    assert_request(
        &request,
        "TEST",
        r#"{"method":"setSpeakerSettings","id":62,"params":[{"settings":[{"value":"wallMount","target":"tvPosition"}]}],"version":"1.0"}"#,
    );

    bravia
        .audio()
        .set_speaker_settings_reply(reply(r#"{"result":[[]],"id":62}"#))
        .unwrap();
}

#[test]
fn audio_volume_holds_the_ui_setting_at_1_2_only() {
    let bravia = server_setup();
    let at_default = bravia
        .audio()
        .set_audio_volume(None, "+1".to_string(), Some("on".to_string()), None)
        .unwrap();
    assert_request(
        &at_default,
        "TEST",
        r#"{"method":"setAudioVolume","id":98,"params":[{"volume":"+1","target":null}],"version":"1.0"}"#,
    );
    let at_1_0 = bravia
        .audio()
        .set_audio_volume(None, "+1".to_string(), Some("on".to_string()), Some("1.0"))
        .unwrap();
    assert_request(
        &at_1_0,
        "TEST",
        r#"{"method":"setAudioVolume","id":98,"params":[{"volume":"+1","target":null}],"version":"1.0"}"#,
    );
    let without_ui = bravia
        .audio()
        .set_audio_volume(Some("headphone".to_string()), "-10".to_string(), None, Some("1.2"))
        .unwrap();
    assert_request(
        &without_ui,
        "TEST",
        r#"{"method":"setAudioVolume","id":98,"params":[{"volume":"-10","target":"headphone"}],"version":"1.2"}"#,
    );
}

#[test]
fn sound_settings_without_a_target_ask_with_null() {
    let bravia = server_setup();
    let request = bravia.audio().get_sound_settings(None).unwrap();
    assert_request(
        &request,
        "",
        r#"{"method":"getSoundSettings","id":73,"params":[{"target":null}],"version":"1.1"}"#,
    );
}

#[test]
fn sound_settings_read_the_value_under_either_name_but_not_both() {
    let bravia = server_setup();
    let plain = bravia
        .audio()
        .get_sound_settings_reply(reply(r#"{"result":[[{"target":"t","value":"v"}]]}"#))
        .unwrap();
    assert_eq!(vec![SoundSettings::new("t".to_string(), "v".to_string())], plain);
    let both = bravia.audio().get_sound_settings_reply(reply(
        r#"{"result":[[{"target":"t","value":"v","currentValue":"w"}]]}"#,
    ));
    assert!(matches!(both, Err(Error::DeserializeError(_))));
    let neither = bravia
        .audio()
        .get_sound_settings_reply(reply(r#"{"result":[[{"target":"t"}]]}"#));
    assert!(matches!(neither, Err(Error::DeserializeError(_))));
}

#[test]
fn audio_mute_fails_on_an_empty_result() {
    let bravia = server_setup();
    let outcome = bravia
        .audio()
        .set_audio_mute_reply(reply(r#"{"result":[],"id":601}"#));
    assert_eq!(Err(Error::MissingValue("result values".to_string())), outcome);
}

#[test]
fn volume_that_is_not_a_whole_number_is_a_deserialize_error() {
    let bravia = server_setup();
    for volume in ["-1", "2.5", "\"25\"", "18446744073709551616"] {
        let body = format!(
            "{{\"result\":[[{{\"target\":\"speaker\",\"volume\":{},\"mute\":false,\"maxVolume\":100,\"minVolume\":0}}]]}}",
            volume
        );
        let outcome = bravia.audio().get_volume_information_reply(reply(&body));
        assert!(matches!(outcome, Err(Error::DeserializeError(_))), "{}", volume);
    }
}
