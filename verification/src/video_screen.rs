//! APIs that are related to video screen functions.
//!
//! # Note
//! This API is able to set the value at API call timing,
//!  which might vary depending on the device state. (For example, depending on the "current" input source.)

use crate::call::call;
use crate::call::done;
use crate::call::unit_reply;
use crate::client::Bravia;
use crate::error::result_view;
use crate::error::Error;
use crate::json::map_insert;
use crate::json::map_new;
use crate::json::object_value;
use crate::json::text_value;
use crate::json::Json;
use crate::request::default_version;
use crate::request::RequestBodyBuilder;
use crate::request::RequestBuilder;
use crate::request::RequestGetElementType;
use crate::request::RequestGetElementTypeView;
use crate::request::RequestView;
use crate::response::completion;
use crate::transport::HttpOutcome;
use crate::transport::HttpRequest;
use vstd::prelude::*;

verus! {

/// Provides access to video_screen service APIs.
pub struct VideoScreenService<'a>(pub &'a Bravia);

impl<'a> VideoScreenService<'a> {
    pub fn new(bravia: &'a Bravia) -> (r: Self)
        ensures
            r.0 == bravia,
    {
        Self(bravia)
    }

    /// The parameter object of `setSceneSetting`.
    pub open spec fn set_scene_settings_params(value: Seq<char>) -> Json {
        let p = Json::empty_object();
        let p = p.with("value"@, Json::Str(value));
        p
    }

    /// The call of `setSceneSetting`.
    pub open spec fn set_scene_settings_request(value: Seq<char>) -> RequestView {
        call(
            "videoScreen"@,
            40,
            "setSceneSetting"@,
            default_version(),
            Some(Self::set_scene_settings_params(value)),
            true,
            false,
            RequestGetElementTypeView::first(),
        )
    }

    /// Provides the function to change the current scene setting value.
    ///
    /// # Arguments
    /// * `value` - Scene of the input source.
    ///     * `auto` - Automatically selects the scene based on the viewing content.
    ///     * `auto24pSync` - Automatically selects `Cinema` for 24Hz signal content. Behaves as `Auto` for all other signals.
    ///     * `general` - Turns off scene select for general content.
    ///
    /// # Authentication Level
    /// Generic
    pub fn set_scene_settings(&self, value: String) -> (r: Result<HttpRequest, Error>)
        ensures
            result_view(r) == self.0@.prepared(Self::set_scene_settings_request(value@)),
    {
        let mut params = map_new();
        map_insert(&mut params, "value", text_value(value.as_str()));
        let params_value = object_value(params);
        let body = RequestBodyBuilder::default()
            .id(40)
            .method("setSceneSetting")
            .params(params_value)
            .build()?;
        RequestBuilder::default()
            .endpoint("videoScreen")
            .body(body)
            .is_protected()
            .make(self.0)
    }

    /// Reads the reply to `setSceneSetting`: success, whatever the result holds.
    pub fn set_scene_settings_reply(&self, outcome: HttpOutcome) -> (r: Result<(), Error>)
        ensures
            result_view(r) == done(
                completion(outcome@, false, RequestGetElementTypeView::first()),
            ),
    {
        unit_reply(outcome, false, &RequestGetElementType::Index(0))
    }

}

} // verus!
