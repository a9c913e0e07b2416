//! APIs that are related to audio functions like volume, sound effects and so on.

use crate::call::call;
use crate::call::done;
use crate::call::is_version;
use crate::call::optional_text_value;
use crate::call::text_or_null;
use crate::call::typed;
use crate::call::typed_reply;
use crate::call::typed_view;
use crate::call::unit_reply;
use crate::call::version_or_default;
use crate::client::Bravia;
use crate::decode::aliased;
use crate::decode::aliased_field;
use crate::decode::element;
use crate::decode::field;
use crate::decode::placed;
use crate::decode::required;
use crate::decode::FromJson;
use crate::encode::encoded_list;
use crate::encode::list_value;
use crate::encode::ToJson;
use crate::error::result_view;
use crate::error::Error;
use crate::json::bool_value;
use crate::json::map_insert;
use crate::json::map_new;
use crate::json::object_value;
use crate::json::text_value;
use crate::json::value_as_array;
use crate::json::Json;
use crate::request::default_version;
use crate::request::RequestBodyBuilder;
use crate::request::RequestBuilder;
use crate::request::RequestGetElementType;
use crate::request::RequestGetElementTypeView;
use crate::request::RequestView;
use crate::response::completion;
use crate::transport::HttpOutcome;
use crate::transport::HttpRequest;
use serde_json::Value;
use vstd::prelude::*;

verus! {

/// Target name.
/// * `outputTerminal` - Selecting speakers or terminals to output sound.
pub type SoundTarget = String;

#[derive(Debug, Clone, PartialEq, Eq)]
pub struct SoundSettings {
    pub target: SoundTarget,
    /// Current value of target.\
    /// If `target` is `outputTerminal`:
    /// * `speaker` - Audio is output from the speaker.
    /// * `speaker_hdmi` - Audio is output from the speaker and HDMI.
    /// * `hdmi` - Audio is output from HDMI.
    /// * `audioSystem` - Audio is output from HDMI or digital audio output.
    pub value: String,
}

/// The mathematical value of a [`SoundSettings`].
pub struct SoundSettingsView {
    pub target: Seq<char>,
    pub value: Seq<char>,
}

impl DeepView for SoundSettings {
    type V = SoundSettingsView;

    open spec fn deep_view(&self) -> SoundSettingsView {
        SoundSettingsView {
            target: self.target.deep_view(),
            value: self.value.deep_view(),
        }
    }
}

impl FromJson for SoundSettings {
    /// An object with the member `target` and `value`, which may go by the
    /// name `currentValue` instead. Other members are ignored. Or an array of
    /// the values in the order `target`, `value`, with none missing and none
    /// beyond them.
    open spec fn decoded(doc: Json) -> Option<SoundSettingsView> {
        match doc.elements() {
            Some(items) => if items.len() <= 2 {
                match (
                    placed::<SoundTarget>(items, 0),
                    placed::<String>(items, 1),
                ) {
                    (Some(target), Some(value)) => Some(SoundSettingsView { target, value }),
                    _ => None,
                }
            } else {
                None
            },
            None => match (
                required::<String>(doc, "target"@),
                aliased::<String>(doc, "value"@, "currentValue"@),
            ) {
                (Some(target), Some(value)) => Some(SoundSettingsView { target, value }),
                _ => None,
            },
        }
    }

    fn from_json(v: &Value) -> (r: Option<SoundSettings>) {
        match value_as_array(v) {
            Some(items) => {
                if items.len() > 2 {
                    return None;
                }
                let target = element::<SoundTarget>(items, 0);
                let value = element::<String>(items, 1);
                match (target, value) {
                    (Some(target), Some(value)) => Some(SoundSettings { target, value }),
                    _ => None,
                }
            },
            None => {
                let target = field::<String>(v, "target");
                let value = aliased_field::<String>(v, "value", "currentValue");
                match (target, value) {
                    (Some(target), Some(value)) => Some(SoundSettings { target, value }),
                    _ => None,
                }
            },
        }
    }
}

impl SoundSettings {
    pub fn new(target: SoundTarget, value: String) -> (r: Self)
        ensures
            r.target == target,
            r.value == value,
    {
        Self { target, value }
    }
}

impl ToJson for SoundSettings {
    /// An object with the members `target` and `value`.
    open spec fn encoded(value: SoundSettingsView) -> Json {
        let p = Json::empty_object();
        let p = p.with("target"@, Json::Str(value.target));
        let p = p.with("value"@, Json::Str(value.value));
        p
    }

    fn to_json(&self) -> (r: Value) {
        let mut m = map_new();
        map_insert(&mut m, "target", text_value(self.target.as_str()));
        map_insert(&mut m, "value", text_value(self.value.as_str()));
        object_value(m)
    }
}

/// Target name. (UI setting target)
/// * `tvPosition` - Sets the sound according to the display position.
/// * `subwooferLevel` - Sets the level of the Subwoofer speaker.
///     Note that the range and step values vary depending on the device.
/// * `subwooferFreq` - Adjusts the cut off frequency of the Wireless Subwoofer.
///     All frequencies below the cut off frequency are output to the Wireless Subwoofer instead of the display speakers.
/// * `subwooferPhase` - Sets the phase polarity of the subwoofer.
/// * `subwooferPower` - Sets the power control method of the Wireless Subwoofer.
pub type SpeakerTarget = String;

#[derive(Debug, Clone, PartialEq, Eq)]
pub struct SpeakerSettings {
    pub target: SpeakerTarget,
    /// Target value.
    /// * If `target` is `tvPosition`
    ///     * `tableTop` - Provides the best sound quality when you place the display on a TV stand.
    ///     * `wallMount` - Provides the best sound quality when you hang the display on a wall.
    /// * If `target` is `subwooferLevel`
    ///     * `0` - Minimum value.
    ///     * `24` - Maximum value.
    /// * If `target` is `subwooferFreq`
    ///     * `0` - Minimum value.
    ///     * `30` - Maximum value.
    /// * If `target` is `subwooferPhase`
    ///     * `normal` - normal.
    ///     * `reverse` - reverse.
    /// * If `target` is `subwooferPower`
    ///     * `on` - on.
    ///     * `off` - off.
    pub value: String,
}

/// The mathematical value of a [`SpeakerSettings`].
pub struct SpeakerSettingsView {
    pub target: Seq<char>,
    pub value: Seq<char>,
}

impl DeepView for SpeakerSettings {
    type V = SpeakerSettingsView;

    open spec fn deep_view(&self) -> SpeakerSettingsView {
        SpeakerSettingsView {
            target: self.target.deep_view(),
            value: self.value.deep_view(),
        }
    }
}

impl FromJson for SpeakerSettings {
    /// An object with the member `target` and `value`, which may go by the
    /// name `currentValue` instead. Other members are ignored. Or an array of
    /// the values in the order `target`, `value`, with none missing and none
    /// beyond them.
    open spec fn decoded(doc: Json) -> Option<SpeakerSettingsView> {
        match doc.elements() {
            Some(items) => if items.len() <= 2 {
                match (
                    placed::<SpeakerTarget>(items, 0),
                    placed::<String>(items, 1),
                ) {
                    (Some(target), Some(value)) => Some(SpeakerSettingsView { target, value }),
                    _ => None,
                }
            } else {
                None
            },
            None => match (
                required::<String>(doc, "target"@),
                aliased::<String>(doc, "value"@, "currentValue"@),
            ) {
                (Some(target), Some(value)) => Some(SpeakerSettingsView { target, value }),
                _ => None,
            },
        }
    }

    fn from_json(v: &Value) -> (r: Option<SpeakerSettings>) {
        match value_as_array(v) {
            Some(items) => {
                if items.len() > 2 {
                    return None;
                }
                let target = element::<SpeakerTarget>(items, 0);
                let value = element::<String>(items, 1);
                match (target, value) {
                    (Some(target), Some(value)) => Some(SpeakerSettings { target, value }),
                    _ => None,
                }
            },
            None => {
                let target = field::<String>(v, "target");
                let value = aliased_field::<String>(v, "value", "currentValue");
                match (target, value) {
                    (Some(target), Some(value)) => Some(SpeakerSettings { target, value }),
                    _ => None,
                }
            },
        }
    }
}

impl SpeakerSettings {
    pub fn new(target: SpeakerTarget, value: String) -> (r: Self)
        ensures
            r.target == target,
            r.value == value,
    {
        Self { target, value }
    }
}

impl ToJson for SpeakerSettings {
    /// An object with the members `target` and `value`.
    open spec fn encoded(value: SpeakerSettingsView) -> Json {
        let p = Json::empty_object();
        let p = p.with("target"@, Json::Str(value.target));
        let p = p.with("value"@, Json::Str(value.value));
        p
    }

    fn to_json(&self) -> (r: Value) {
        let mut m = map_new();
        map_insert(&mut m, "target", text_value(self.target.as_str()));
        map_insert(&mut m, "value", text_value(self.value.as_str()));
        object_value(m)
    }
}

#[derive(Debug, Clone, PartialEq, Eq)]
pub struct VolumeInformation {
    /// Output target of the sound.
    /// The following values are defined:
    /// * `speaker` - outputs sound to the speaker(s)
    /// * `headphone` - outputs sound to the headphones
    pub target: String,
    /// Current volume.
    pub volume: usize,
    /// Current mute status.
    pub mute: bool,
    /// Max volume level.
    pub max_volume: usize,
    /// Min volume level.
    pub min_volume: usize,
}

/// The mathematical value of a [`VolumeInformation`].
pub struct VolumeInformationView {
    pub target: Seq<char>,
    pub volume: usize,
    pub mute: bool,
    pub max_volume: usize,
    pub min_volume: usize,
}

impl DeepView for VolumeInformation {
    type V = VolumeInformationView;

    open spec fn deep_view(&self) -> VolumeInformationView {
        VolumeInformationView {
            target: self.target.deep_view(),
            volume: self.volume.deep_view(),
            mute: self.mute.deep_view(),
            max_volume: self.max_volume.deep_view(),
            min_volume: self.min_volume.deep_view(),
        }
    }
}

impl FromJson for VolumeInformation {
    /// An object with the members `target`, `volume`, `mute`, `maxVolume`,
    /// `minVolume`. Other members are ignored. Or an array of the values in
    /// the order `target`, `volume`, `mute`, `maxVolume`, `minVolume`, with
    /// none missing and none beyond them.
    open spec fn decoded(doc: Json) -> Option<VolumeInformationView> {
        match doc.elements() {
            Some(items) => if items.len() <= 5 {
                match (
                    placed::<String>(items, 0),
                    placed::<usize>(items, 1),
                    placed::<bool>(items, 2),
                    placed::<usize>(items, 3),
                    placed::<usize>(items, 4),
                ) {
                    (
                        Some(target),
                        Some(volume),
                        Some(mute),
                        Some(max_volume),
                        Some(min_volume),
                    ) => Some(
                        VolumeInformationView { target, volume, mute, max_volume, min_volume },
                    ),
                    _ => None,
                }
            } else {
                None
            },
            None => match (
                required::<String>(doc, "target"@),
                required::<usize>(doc, "volume"@),
                required::<bool>(doc, "mute"@),
                required::<usize>(doc, "maxVolume"@),
                required::<usize>(doc, "minVolume"@),
            ) {
                (
                    Some(target),
                    Some(volume),
                    Some(mute),
                    Some(max_volume),
                    Some(min_volume),
                ) => Some(
                    VolumeInformationView { target, volume, mute, max_volume, min_volume },
                ),
                _ => None,
            },
        }
    }

    fn from_json(v: &Value) -> (r: Option<VolumeInformation>) {
        match value_as_array(v) {
            Some(items) => {
                if items.len() > 5 {
                    return None;
                }
                let target = element::<String>(items, 0);
                let volume = element::<usize>(items, 1);
                let mute = element::<bool>(items, 2);
                let max_volume = element::<usize>(items, 3);
                let min_volume = element::<usize>(items, 4);
                match (target, volume, mute, max_volume, min_volume) {
                    (
                        Some(target),
                        Some(volume),
                        Some(mute),
                        Some(max_volume),
                        Some(min_volume),
                    ) => Some(
                        VolumeInformation { target, volume, mute, max_volume, min_volume },
                    ),
                    _ => None,
                }
            },
            None => {
                let target = field::<String>(v, "target");
                let volume = field::<usize>(v, "volume");
                let mute = field::<bool>(v, "mute");
                let max_volume = field::<usize>(v, "maxVolume");
                let min_volume = field::<usize>(v, "minVolume");
                match (target, volume, mute, max_volume, min_volume) {
                    (
                        Some(target),
                        Some(volume),
                        Some(mute),
                        Some(max_volume),
                        Some(min_volume),
                    ) => Some(
                        VolumeInformation { target, volume, mute, max_volume, min_volume },
                    ),
                    _ => None,
                }
            },
        }
    }
}

/// Provides access to audio service APIs.
pub struct AudioService<'a>(pub &'a Bravia);

impl<'a> AudioService<'a> {
    pub fn new(bravia: &'a Bravia) -> (r: Self)
        ensures
            r.0 == bravia,
    {
        Self(bravia)
    }

    /// The parameter object of `getSoundSettings`.
    pub open spec fn get_sound_settings_params(target: Option<Seq<char>>) -> Json {
        let p = Json::empty_object();
        let p = p.with("target"@, text_or_null(target));
        p
    }

    /// The call of `getSoundSettings`.
    pub open spec fn get_sound_settings_request(target: Option<Seq<char>>) -> RequestView {
        call(
            "audio"@,
            73,
            "getSoundSettings"@,
            "1.1"@,
            Some(Self::get_sound_settings_params(target)),
            false,
            true,
            RequestGetElementTypeView::first(),
        )
    }

    /// Provides the current settings and supported settings related to the sound configuration items.
    ///
    /// # Arguments
    /// `target`
    /// * `None` - This indicates the settings of all targets.
    ///
    /// # Authentication Level
    /// None
    pub fn get_sound_settings(
        &self,
        target: Option<SoundTarget>,
    ) -> (r: Result<HttpRequest, Error>)
        ensures
            result_view(r) == self.0@.prepared(
                Self::get_sound_settings_request(target.deep_view()),
            ),
    {
        let mut params = map_new();
        map_insert(&mut params, "target", optional_text_value(&target));
        let params_value = object_value(params);
        let body = RequestBodyBuilder::default()
            .id(73)
            .method("getSoundSettings")
            .version(Some("1.1"))
            .params(params_value)
            .build()?;
        RequestBuilder::default()
            .endpoint("audio")
            .body(body)
            .has_result()
            .make(self.0)
    }

    /// Reads the reply to `getSoundSettings`:
    /// the first element of the result.
    pub fn get_sound_settings_reply(&self, outcome: HttpOutcome) -> (r: Result<
        Vec<SoundSettings>,
        Error,
    >)
        ensures
            typed_view(r) == typed::<Vec<SoundSettings>>(
                completion(outcome@, true, RequestGetElementTypeView::first()),
            ),
    {
        typed_reply::<Vec<SoundSettings>>(outcome, true, &RequestGetElementType::Index(0))
    }

    /// The parameter object of `getSpeakerSettings`.
    pub open spec fn get_speaker_settings_params(target: Option<Seq<char>>) -> Json {
        let p = Json::empty_object();
        let p = p.with("target"@, text_or_null(target));
        p
    }

    /// The call of `getSpeakerSettings`.
    pub open spec fn get_speaker_settings_request(target: Option<Seq<char>>) -> RequestView {
        call(
            "audio"@,
            67,
            "getSpeakerSettings"@,
            default_version(),
            Some(Self::get_speaker_settings_params(target)),
            false,
            true,
            RequestGetElementTypeView::first(),
        )
    }

    /// Provides current settings and supported settings related to speaker configuration items.
    ///
    /// # Arguments
    /// `target`
    /// * `None` - This indicates the settings of all targets.
    ///
    /// # Authentication Level
    /// None
    pub fn get_speaker_settings(
        &self,
        target: Option<SpeakerTarget>,
    ) -> (r: Result<HttpRequest, Error>)
        ensures
            result_view(r) == self.0@.prepared(
                Self::get_speaker_settings_request(target.deep_view()),
            ),
    {
        let mut params = map_new();
        map_insert(&mut params, "target", optional_text_value(&target));
        let params_value = object_value(params);
        let body = RequestBodyBuilder::default()
            .id(67)
            .method("getSpeakerSettings")
            .params(params_value)
            .build()?;
        RequestBuilder::default()
            .endpoint("audio")
            .body(body)
            .has_result()
            .make(self.0)
    }

    /// Reads the reply to `getSpeakerSettings`:
    /// the first element of the result.
    pub fn get_speaker_settings_reply(&self, outcome: HttpOutcome) -> (r: Result<
        Vec<SpeakerSettings>,
        Error,
    >)
        ensures
            typed_view(r) == typed::<Vec<SpeakerSettings>>(
                completion(outcome@, true, RequestGetElementTypeView::first()),
            ),
    {
        typed_reply::<Vec<SpeakerSettings>>(outcome, true, &RequestGetElementType::Index(0))
    }

    /// The call of `getVolumeInformation`.
    pub open spec fn get_volume_information_request() -> RequestView {
        call(
            "audio"@,
            33,
            "getVolumeInformation"@,
            default_version(),
            None,
            false,
            true,
            RequestGetElementTypeView::first(),
        )
    }

    /// Provides information about the sound volume (and mute status) of the device.
    ///
    /// # Authentication Level
    /// None
    pub fn get_volume_information(&self) -> (r: Result<HttpRequest, Error>)
        ensures
            result_view(r) == self.0@.prepared(Self::get_volume_information_request()),
    {
        let body = RequestBodyBuilder::default()
            .id(33)
            .method("getVolumeInformation")
            .build()?;
        RequestBuilder::default()
            .endpoint("audio")
            .body(body)
            .has_result()
            .make(self.0)
    }

    /// Reads the reply to `getVolumeInformation`:
    /// the first element of the result.
    pub fn get_volume_information_reply(&self, outcome: HttpOutcome) -> (r: Result<
        Vec<VolumeInformation>,
        Error,
    >)
        ensures
            typed_view(r) == typed::<Vec<VolumeInformation>>(
                completion(outcome@, true, RequestGetElementTypeView::first()),
            ),
    {
        typed_reply::<Vec<VolumeInformation>>(outcome, true, &RequestGetElementType::Index(0))
    }

    /// The parameter object of `setAudioMute`.
    pub open spec fn set_audio_mute_params(status: bool) -> Json {
        let p = Json::empty_object();
        let p = p.with("status"@, Json::Bool(status));
        p
    }

    /// The call of `setAudioMute`.
    pub open spec fn set_audio_mute_request(status: bool) -> RequestView {
        call(
            "audio"@,
            601,
            "setAudioMute"@,
            default_version(),
            Some(Self::set_audio_mute_params(status)),
            true,
            true,
            RequestGetElementTypeView::first(),
        )
    }

    /// Provides the function to change the audio mute status.
    ///
    /// # Arguments
    /// * `status` - Mute status to set.
    ///
    /// # Authentication Level
    /// Generic
    pub fn set_audio_mute(&self, status: bool) -> (r: Result<HttpRequest, Error>)
        ensures
            result_view(r) == self.0@.prepared(Self::set_audio_mute_request(status)),
    {
        let mut params = map_new();
        map_insert(&mut params, "status", bool_value(status));
        let params_value = object_value(params);
        let body = RequestBodyBuilder::default()
            .id(601)
            .method("setAudioMute")
            .params(params_value)
            .build()?;
        RequestBuilder::default()
            .endpoint("audio")
            .body(body)
            .is_protected()
            .has_result()
            .make(self.0)
    }

    /// Reads the reply to `setAudioMute`: success where the result holds a first
    /// element.
    pub fn set_audio_mute_reply(&self, outcome: HttpOutcome) -> (r: Result<(), Error>)
        ensures
            result_view(r) == done(
                completion(outcome@, true, RequestGetElementTypeView::first()),
            ),
    {
        unit_reply(outcome, true, &RequestGetElementType::Index(0))
    }

    /// The parameter object of `setAudioVolume`. It holds the UI setting at
    /// version "1.2" only, and only where the caller gave one.
    pub open spec fn set_audio_volume_params(
        target: Option<Seq<char>>,
        volume: Seq<char>,
        ui: Option<Seq<char>>,
        version: Option<Seq<char>>,
    ) -> Json {
        let p = Json::empty_object();
        let p = p.with("target"@, text_or_null(target));
        let p = p.with("volume"@, Json::Str(volume));
        if version == Some("1.2"@) && ui is Some {
            p.with("ui"@, text_or_null(ui))
        } else {
            p
        }
    }

    /// The call of `setAudioVolume`.
    pub open spec fn set_audio_volume_request(
        target: Option<Seq<char>>,
        volume: Seq<char>,
        ui: Option<Seq<char>>,
        version: Option<Seq<char>>,
    ) -> RequestView {
        call(
            "audio"@,
            98,
            "setAudioVolume"@,
            version_or_default(version),
            Some(Self::set_audio_volume_params(target, volume, ui, version)),
            true,
            false,
            RequestGetElementTypeView::first(),
        )
    }

    /// Provides the function to change the audio volume level.
    ///
    /// # Arguments
    /// * `target` -  Output target of the sound. The following values are defined:
    ///     * `None` - outputs sound to all output equipment of the device.
    ///     If the mute information of all outputs is the same, this value is set.
    ///     * `speaker` - outputs sound to the speaker(s).
    ///     * `headphone` - outputs sound to the headphones.
    /// * `volume` - Volume level to set. The following formats are applied:
    ///     * `N` - N is a numeric string (ex. "25"). The volume is set to level N.
    ///     * `+N` - N is a numeric string (ex. "+14"). The volume is increased by an increment of N.
    ///     * `-N` - N is a numeric string (ex. "-10"). The volume is reduced by an increment of N.
    /// * `ui` - If the UI (volume bar, etc.) should be displayed, set this `on`.
    ///     * Supported with API version 1.2
    ///     <!-- end of the list -->
    ///     Values:
    ///     * `on` - UI is displayed.
    ///     * `off` - UI is not displayed.
    ///     * `None` - Not specified. (depends on the server)
    ///
    /// # Authentication Level
    /// Generic
    pub fn set_audio_volume(
        &self,
        target: Option<String>,
        volume: String,
        ui: Option<String>,
        version: Option<&str>,
    ) -> (r: Result<HttpRequest, Error>)
        ensures
            result_view(r) == self.0@.prepared(
                Self::set_audio_volume_request(
                    target.deep_view(),
                    volume@,
                    ui.deep_view(),
                    version.deep_view(),
                ),
            ),
    {
        let mut params = map_new();
        map_insert(&mut params, "target", optional_text_value(&target));
        map_insert(&mut params, "volume", text_value(volume.as_str()));
        if is_version(version, "1.2") && ui.is_some() {
            map_insert(&mut params, "ui", optional_text_value(&ui));
        }
        let params_value = object_value(params);
        let body = RequestBodyBuilder::default()
            .id(98)
            .method("setAudioVolume")
            .version(version)
            .params(params_value)
            .build()?;
        RequestBuilder::default()
            .endpoint("audio")
            .body(body)
            .is_protected()
            .make(self.0)
    }

    /// Reads the reply to `setAudioVolume`: success, whatever the result holds.
    pub fn set_audio_volume_reply(&self, outcome: HttpOutcome) -> (r: Result<(), Error>)
        ensures
            result_view(r) == done(
                completion(outcome@, false, RequestGetElementTypeView::first()),
            ),
    {
        unit_reply(outcome, false, &RequestGetElementType::Index(0))
    }

    /// The parameter object of `setSoundSettings`.
    pub open spec fn set_sound_settings_params(settings: Seq<SoundSettingsView>) -> Json {
        let p = Json::empty_object();
        let p = p.with("settings"@, Json::Array(encoded_list::<SoundSettings>(settings)));
        p
    }

    /// The call of `setSoundSettings`.
    pub open spec fn set_sound_settings_request(settings: Seq<SoundSettingsView>) -> RequestView {
        call(
            "audio"@,
            5,
            "setSoundSettings"@,
            "1.1"@,
            Some(Self::set_sound_settings_params(settings)),
            true,
            false,
            RequestGetElementTypeView::first(),
        )
    }

    /// Provides the function to change the settings related to sound setting items.
    ///
    /// # Authentication Level
    /// Generic
    pub fn set_sound_settings(
        &self,
        settings: Vec<SoundSettings>,
    ) -> (r: Result<HttpRequest, Error>)
        ensures
            result_view(r) == self.0@.prepared(
                Self::set_sound_settings_request(settings.deep_view()),
            ),
    {
        let mut params = map_new();
        map_insert(&mut params, "settings", list_value(&settings));
        let params_value = object_value(params);
        let body = RequestBodyBuilder::default()
            .id(5)
            .method("setSoundSettings")
            .version(Some("1.1"))
            .params(params_value)
            .build()?;
        RequestBuilder::default()
            .endpoint("audio")
            .body(body)
            .is_protected()
            .make(self.0)
    }

    /// Reads the reply to `setSoundSettings`: success, whatever the result holds.
    pub fn set_sound_settings_reply(&self, outcome: HttpOutcome) -> (r: Result<(), Error>)
        ensures
            result_view(r) == done(
                completion(outcome@, false, RequestGetElementTypeView::first()),
            ),
    {
        unit_reply(outcome, false, &RequestGetElementType::Index(0))
    }

    /// The parameter object of `setSpeakerSettings`.
    pub open spec fn set_speaker_settings_params(settings: Seq<SpeakerSettingsView>) -> Json {
        let p = Json::empty_object();
        let p = p.with("settings"@, Json::Array(encoded_list::<SpeakerSettings>(settings)));
        p
    }

    /// The call of `setSpeakerSettings`.
    pub open spec fn set_speaker_settings_request(
        settings: Seq<SpeakerSettingsView>,
    ) -> RequestView {
        call(
            "audio"@,
            62,
            "setSpeakerSettings"@,
            default_version(),
            Some(Self::set_speaker_settings_params(settings)),
            true,
            false,
            RequestGetElementTypeView::first(),
        )
    }

    /// Provides the function to change the settings related to speaker setting items.
    ///
    /// # Authentication Level
    /// Generic
    pub fn set_speaker_settings(
        &self,
        settings: Vec<SpeakerSettings>,
    ) -> (r: Result<HttpRequest, Error>)
        ensures
            result_view(r) == self.0@.prepared(
                Self::set_speaker_settings_request(settings.deep_view()),
            ),
    {
        let mut params = map_new();
        map_insert(&mut params, "settings", list_value(&settings));
        let params_value = object_value(params);
        let body = RequestBodyBuilder::default()
            .id(62)
            .method("setSpeakerSettings")
            .params(params_value)
            .build()?;
        RequestBuilder::default()
            .endpoint("audio")
            .body(body)
            .is_protected()
            .make(self.0)
    }

    /// Reads the reply to `setSpeakerSettings`: success, whatever the result holds.
    pub fn set_speaker_settings_reply(&self, outcome: HttpOutcome) -> (r: Result<(), Error>)
        ensures
            result_view(r) == done(
                completion(outcome@, false, RequestGetElementTypeView::first()),
            ),
    {
        unit_reply(outcome, false, &RequestGetElementType::Index(0))
    }

}

/// The parameter object of `setAudioVolume` holds the UI setting exactly
/// where the envelope says "1.2" and the caller gave one; target and volume
/// are always there.
pub proof fn lemma_audio_volume_shape_follows_version(
    target: Option<Seq<char>>,
    volume: Seq<char>,
    ui: Option<Seq<char>>,
    version: Option<Seq<char>>,
)
    ensures
        ({
            let body = AudioService::set_audio_volume_request(target, volume, ui, version).body;
            &&& body.params.len() == 1
            &&& body.params[0].member("ui"@) is Some <==> body.version == "1.2"@ && ui is Some
            &&& body.params[0].member("ui"@) is Some ==> body.params[0].member("ui"@) == Some(
                Json::Str(ui->0),
            )
            &&& body.params[0].member("target"@) == Some(text_or_null(target))
            &&& body.params[0].member("volume"@) == Some(Json::Str(volume))
        }),
{
    reveal_strlit("1.0");
    reveal_strlit("1.2");
    reveal_strlit("ui");
    reveal_strlit("target");
    reveal_strlit("volume");
    assert("1.0"@[2] != "1.2"@[2]);
    assert("ui"@.len() == 2 && "target"@.len() == 6 && "volume"@.len() == 6);
    assert("target"@[0] != "volume"@[0]);
}

} // verus!
