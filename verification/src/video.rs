//! APIs that are related to video functions.

use crate::call::call;
use crate::call::done;
use crate::call::optional_text_value;
use crate::call::text_or_null;
use crate::call::unit_reply;
use crate::client::Bravia;
use crate::decode::element;
use crate::encode::encoded_list;
use crate::encode::list_value;
use crate::encode::ToJson;
use crate::error::result_view;
use crate::error::Error;
use crate::json::map_insert;
use crate::json::map_new;
use crate::json::object_value;
use crate::json::text_value;
use crate::json::Json;
use crate::request::default_version;
use crate::request::RequestBodyBuilder;
use crate::request::RequestBuilder;
use crate::request::RequestGetElementType;
use crate::request::RequestGetElementTypeView;
use crate::request::RequestView;
use crate::response::complete;
use crate::response::completion;
use crate::response::value_result;
use crate::transport::HttpOutcome;
use crate::transport::HttpRequest;
use serde_json::Value;
use vstd::prelude::*;

verus! {

#[derive(Debug, Clone, PartialEq, Eq)]
pub struct PictureQualitySettingsRequest {
    /// Target name (UI setting target).\
    /// Please use [get_picture_quality_settings](VideoService::get_picture_quality_settings) to acquire the available targets.
    pub target: Option<String>,
    /// * `value` - The value to set for target name.
    pub value: Option<String>,
}

/// The mathematical value of a [`PictureQualitySettingsRequest`].
pub struct PictureQualitySettingsRequestView {
    pub target: Option<Seq<char>>,
    pub value: Option<Seq<char>>,
}

impl DeepView for PictureQualitySettingsRequest {
    type V = PictureQualitySettingsRequestView;

    open spec fn deep_view(&self) -> PictureQualitySettingsRequestView {
        PictureQualitySettingsRequestView {
            target: self.target.deep_view(),
            value: self.value.deep_view(),
        }
    }
}

impl PictureQualitySettingsRequest {
    pub fn new(target: Option<String>, value: Option<String>) -> (r: Self)
        ensures
            r.target == target,
            r.value == value,
    {
        Self { target, value }
    }
}

impl ToJson for PictureQualitySettingsRequest {
    /// An object with the members `target` and `value`,
    /// each null where there is no value.
    open spec fn encoded(value: PictureQualitySettingsRequestView) -> Json {
        let p = Json::empty_object();
        let p = p.with("target"@, text_or_null(value.target));
        let p = p.with("value"@, text_or_null(value.value));
        p
    }

    fn to_json(&self) -> (r: Value) {
        let mut m = map_new();
        map_insert(&mut m, "target", optional_text_value(&self.target));
        map_insert(&mut m, "value", optional_text_value(&self.value));
        object_value(m)
    }
}

/// Provides access to video service APIs.
pub struct VideoService<'a>(pub &'a Bravia);

impl<'a> VideoService<'a> {
    pub fn new(bravia: &'a Bravia) -> (r: Self)
        ensures
            r.0 == bravia,
    {
        Self(bravia)
    }

    /// The parameter object of `getPictureQualitySettings`.
    pub open spec fn get_picture_quality_settings_params(target: Option<Seq<char>>) -> Json {
        let p = Json::empty_object();
        let p = match target {
            Some(x) => p.with("target"@, Json::Str(x)),
            None => p,
        };
        p
    }

    /// The call of `getPictureQualitySettings`.
    pub open spec fn get_picture_quality_settings_request(
        target: Option<Seq<char>>,
    ) -> RequestView {
        call(
            "video"@,
            52,
            "getPictureQualitySettings"@,
            default_version(),
            Some(Self::get_picture_quality_settings_params(target)),
            false,
            true,
            RequestGetElementTypeView::first(),
        )
    }

    /// Provides current settings and supported settings related to picture quality configuration items.
    ///
    /// # Arguments
    /// * `target` - Target name
    ///     * `color` - Adjust the color saturation level.
    ///     * `brightness` - Adjust the luminance level of the screen.
    ///     * `contrast` - Adjust the picture white level.
    ///     * `sharpness` - Adjust the picture detail.
    ///     * `pictureMode` - Set picture mode.
    ///     * `lightSensor` - Optimize brightness according to ambient light.
    ///     * `colorSpace` - Change the color reproduction range.
    ///     * `colorTemperature` - Adjust the color temperature.
    ///     * `autoPictureMode` - Automatically selects the picture mode based on the viewing content.
    ///     * `hdrMode` - Picture that is suitable for a High Dynamic Range signal.
    ///     * `autoLocalDimming` - Optimizes contrast by adjusting brightness in individual sections of the screen.
    ///     * `xtendedDynamicRange` - Adjust peak luminance for the brightness whites and blackest blacks.
    ///     * `None` - Settings of all targets.
    ///
    /// # Authentication Level
    /// None
    pub fn get_picture_quality_settings(
        &self,
        target: Option<String>,
    ) -> (r: Result<HttpRequest, Error>)
        ensures
            result_view(r) == self.0@.prepared(
                Self::get_picture_quality_settings_request(target.deep_view()),
            ),
    {
        let mut params = map_new();
        if let Some(x) = &target {
            map_insert(&mut params, "target", text_value(x.as_str()));
        }
        let params_value = object_value(params);
        let body = RequestBodyBuilder::default()
            .id(52)
            .method("getPictureQualitySettings")
            .params(params_value)
            .build()?;
        RequestBuilder::default()
            .endpoint("video")
            .body(body)
            .has_result()
            .make(self.0)
    }

    /// Reads the reply to `getPictureQualitySettings`: the first element of the
    /// result, as JSON. The settings hold numbers that need not be whole, so
    /// they are left for the caller to read.
    pub fn get_picture_quality_settings_reply(&self, outcome: HttpOutcome) -> (r: Result<
        Value,
        Error,
    >)
        ensures
            value_result(r) == completion(outcome@, true, RequestGetElementTypeView::first()),
    {
        complete(outcome, true, &RequestGetElementType::Index(0))
    }

    /// The parameter object of `setPictureQualitySettings`.
    pub open spec fn set_picture_quality_settings_params(
        settings: Seq<PictureQualitySettingsRequestView>,
    ) -> Json {
        let p = Json::empty_object();
        let p = p.with(
            "settings"@,
            Json::Array(encoded_list::<PictureQualitySettingsRequest>(settings)),
        );
        p
    }

    /// The call of `setPictureQualitySettings`.
    pub open spec fn set_picture_quality_settings_request(
        settings: Seq<PictureQualitySettingsRequestView>,
    ) -> RequestView {
        call(
            "video"@,
            12,
            "setPictureQualitySettings"@,
            default_version(),
            Some(Self::set_picture_quality_settings_params(settings)),
            true,
            false,
            RequestGetElementTypeView::first(),
        )
    }

    /// Provides a function to change settings related to picture quality setting items.
    ///
    /// # Authentication Level
    /// Generic
    pub fn set_picture_quality_settings(
        &self,
        settings: Vec<PictureQualitySettingsRequest>,
    ) -> (r: Result<HttpRequest, Error>)
        ensures
            result_view(r) == self.0@.prepared(
                Self::set_picture_quality_settings_request(settings.deep_view()),
            ),
    {
        let mut params = map_new();
        map_insert(&mut params, "settings", list_value(&settings));
        let params_value = object_value(params);
        let body = RequestBodyBuilder::default()
            .id(12)
            .method("setPictureQualitySettings")
            .params(params_value)
            .build()?;
        RequestBuilder::default()
            .endpoint("video")
            .body(body)
            .is_protected()
            .make(self.0)
    }

    /// Reads the reply to `setPictureQualitySettings`: success, whatever the result holds.
    pub fn set_picture_quality_settings_reply(&self, outcome: HttpOutcome) -> (r: Result<(), Error>)
        ensures
            result_view(r) == done(
                completion(outcome@, false, RequestGetElementTypeView::first()),
            ),
    {
        unit_reply(outcome, false, &RequestGetElementType::Index(0))
    }

}

} // verus!
