//! APIs that launch the application itself and the accompanying manipulations related to specific applications.

use crate::call::call;
use crate::call::done;
use crate::call::is_version;
use crate::call::typed;
use crate::call::typed_reply;
use crate::call::typed_view;
use crate::call::unit_reply;
use crate::call::version_or_default;
use crate::client::Bravia;
use crate::decode::defaulted;
use crate::decode::element;
use crate::decode::element_or;
use crate::decode::field;
use crate::decode::field_or;
use crate::decode::placed;
use crate::decode::placed_or;
use crate::decode::required;
use crate::decode::FromJson;
use crate::error::result_view;
use crate::error::Error;
use crate::json::map_insert;
use crate::json::map_new;
use crate::json::object_value;
use crate::json::text_value;
use crate::json::value_as_array;
use crate::json::Json;
use crate::request::default_version;
use crate::request::RequestBodyBuilder;
use crate::request::RequestBuilder;
use crate::request::RequestGetElementType;
use crate::request::RequestGetElementTypeView;
use crate::request::RequestView;
use crate::response::completion;
use crate::transport::HttpOutcome;
use crate::transport::HttpRequest;
use serde_json::Value;
use vstd::prelude::*;

verus! {

/// Application info.
#[derive(Debug, Clone, PartialEq, Eq)]
pub struct Application {
    /// Application name.
    pub title: String,
    /// Application URI.
    pub uri: String,
    /// URL that indicates the application's icon location.
    /// If this member is skipped, the default is "", which means that there is no icon for the application.
    pub icon: String,
}

/// The mathematical value of a [`Application`].
pub struct ApplicationView {
    pub title: Seq<char>,
    pub uri: Seq<char>,
    pub icon: Seq<char>,
}

impl DeepView for Application {
    type V = ApplicationView;

    open spec fn deep_view(&self) -> ApplicationView {
        ApplicationView {
            title: self.title.deep_view(),
            uri: self.uri.deep_view(),
            icon: self.icon.deep_view(),
        }
    }
}

impl FromJson for Application {
    /// An object with the members `title`, `uri`; `icon` may be left out.
    /// Other members are ignored. Or an array of the values in the order
    /// `title`, `uri`, `icon`, with none beyond them and none missing but, at
    /// its end, `icon`.
    open spec fn decoded(doc: Json) -> Option<ApplicationView> {
        match doc.elements() {
            Some(items) => if items.len() <= 3 {
                match (
                    placed::<String>(items, 0),
                    placed::<String>(items, 1),
                    placed_or::<String>(items, 2, Seq::empty()),
                ) {
                    (Some(title), Some(uri), Some(icon)) => Some(
                        ApplicationView { title, uri, icon },
                    ),
                    _ => None,
                }
            } else {
                None
            },
            None => match (
                required::<String>(doc, "title"@),
                required::<String>(doc, "uri"@),
                defaulted::<String>(doc, "icon"@, Seq::empty()),
            ) {
                (Some(title), Some(uri), Some(icon)) => Some(ApplicationView { title, uri, icon }),
                _ => None,
            },
        }
    }

    fn from_json(v: &Value) -> (r: Option<Application>) {
        match value_as_array(v) {
            Some(items) => {
                if items.len() > 3 {
                    return None;
                }
                let title = element::<String>(items, 0);
                let uri = element::<String>(items, 1);
                let icon = element_or::<String>(items, 2, String::new());
                match (title, uri, icon) {
                    (Some(title), Some(uri), Some(icon)) => Some(Application { title, uri, icon }),
                    _ => None,
                }
            },
            None => {
                let title = field::<String>(v, "title");
                let uri = field::<String>(v, "uri");
                let icon = field_or::<String>(v, "icon", String::new());
                match (title, uri, icon) {
                    (Some(title), Some(uri), Some(icon)) => Some(Application { title, uri, icon }),
                    _ => None,
                }
            },
        }
    }
}

/// Application status.
#[derive(Debug, Clone, PartialEq, Eq)]
pub struct ApplicationStatus {
    /// Application name.\
    /// The following values are defined:
    /// * `textInput` - software keyboard
    /// * `cursorDisplay` - application using a cursor
    /// * `webBrowse` - web browser
    pub name: String,
    /// Application status.\
    /// The following values are defined:
    /// * `off` - application is inactive
    /// * `on` - application is active
    pub status: String,
}

/// The mathematical value of a [`ApplicationStatus`].
pub struct ApplicationStatusView {
    pub name: Seq<char>,
    pub status: Seq<char>,
}

impl DeepView for ApplicationStatus {
    type V = ApplicationStatusView;

    open spec fn deep_view(&self) -> ApplicationStatusView {
        ApplicationStatusView {
            name: self.name.deep_view(),
            status: self.status.deep_view(),
        }
    }
}

impl FromJson for ApplicationStatus {
    /// An object with the members `name`, `status`. Other members are
    /// ignored. Or an array of the values in the order `name`, `status`, with
    /// none missing and none beyond them.
    open spec fn decoded(doc: Json) -> Option<ApplicationStatusView> {
        match doc.elements() {
            Some(items) => if items.len() <= 2 {
                match (
                    placed::<String>(items, 0),
                    placed::<String>(items, 1),
                ) {
                    (Some(name), Some(status)) => Some(ApplicationStatusView { name, status }),
                    _ => None,
                }
            } else {
                None
            },
            None => match (
                required::<String>(doc, "name"@),
                required::<String>(doc, "status"@),
            ) {
                (Some(name), Some(status)) => Some(ApplicationStatusView { name, status }),
                _ => None,
            },
        }
    }

    fn from_json(v: &Value) -> (r: Option<ApplicationStatus>) {
        match value_as_array(v) {
            Some(items) => {
                if items.len() > 2 {
                    return None;
                }
                let name = element::<String>(items, 0);
                let status = element::<String>(items, 1);
                match (name, status) {
                    (Some(name), Some(status)) => Some(ApplicationStatus { name, status }),
                    _ => None,
                }
            },
            None => {
                let name = field::<String>(v, "name");
                let status = field::<String>(v, "status");
                match (name, status) {
                    (Some(name), Some(status)) => Some(ApplicationStatus { name, status }),
                    _ => None,
                }
            },
        }
    }
}

/// WebApp status.
#[derive(Debug, Clone, PartialEq, Eq)]
pub struct WebAppStatus {
    /// WebAppRuntime application status.
    pub active: bool,
    /// The URL of the current webpage to open on WebApp.
    pub url: String,
}

/// The mathematical value of a [`WebAppStatus`].
pub struct WebAppStatusView {
    pub active: bool,
    pub url: Seq<char>,
}

impl DeepView for WebAppStatus {
    type V = WebAppStatusView;

    open spec fn deep_view(&self) -> WebAppStatusView {
        WebAppStatusView {
            active: self.active.deep_view(),
            url: self.url.deep_view(),
        }
    }
}

impl FromJson for WebAppStatus {
    /// An object with the member `active`; `url` may be left out. Other
    /// members are ignored. Or an array of the values in the order `active`,
    /// `url`, with none beyond them and none missing but, at its end, `url`.
    open spec fn decoded(doc: Json) -> Option<WebAppStatusView> {
        match doc.elements() {
            Some(items) => if items.len() <= 2 {
                match (
                    placed::<bool>(items, 0),
                    placed_or::<String>(items, 1, Seq::empty()),
                ) {
                    (Some(active), Some(url)) => Some(WebAppStatusView { active, url }),
                    _ => None,
                }
            } else {
                None
            },
            None => match (
                required::<bool>(doc, "active"@),
                defaulted::<String>(doc, "url"@, Seq::empty()),
            ) {
                (Some(active), Some(url)) => Some(WebAppStatusView { active, url }),
                _ => None,
            },
        }
    }

    fn from_json(v: &Value) -> (r: Option<WebAppStatus>) {
        match value_as_array(v) {
            Some(items) => {
                if items.len() > 2 {
                    return None;
                }
                let active = element::<bool>(items, 0);
                let url = element_or::<String>(items, 1, String::new());
                match (active, url) {
                    (Some(active), Some(url)) => Some(WebAppStatus { active, url }),
                    _ => None,
                }
            },
            None => {
                let active = field::<bool>(v, "active");
                let url = field_or::<String>(v, "url", String::new());
                match (active, url) {
                    (Some(active), Some(url)) => Some(WebAppStatus { active, url }),
                    _ => None,
                }
            },
        }
    }
}

/// Provides access to app_control service APIs.
pub struct AppControlService<'a>(pub &'a Bravia);

impl<'a> AppControlService<'a> {
    pub fn new(bravia: &'a Bravia) -> (r: Self)
        ensures
            r.0 == bravia,
    {
        Self(bravia)
    }

    /// The call of `getApplicationList`.
    pub open spec fn get_application_list_request() -> RequestView {
        call(
            "appControl"@,
            60,
            "getApplicationList"@,
            default_version(),
            None,
            true,
            true,
            RequestGetElementTypeView::first(),
        )
    }

    /// Provides the list of applications that can be launched by [setActiveApp](Self::set_active_app).
    ///
    /// # Authentication Level
    /// Private
    pub fn get_application_list(&self) -> (r: Result<HttpRequest, Error>)
        ensures
            result_view(r) == self.0@.prepared(Self::get_application_list_request()),
    {
        let body = RequestBodyBuilder::default()
            .id(60)
            .method("getApplicationList")
            .build()?;
        RequestBuilder::default()
            .endpoint("appControl")
            .body(body)
            .is_protected()
            .has_result()
            .make(self.0)
    }

    /// Reads the reply to `getApplicationList`:
    /// the first element of the result.
    pub fn get_application_list_reply(&self, outcome: HttpOutcome) -> (r: Result<
        Vec<Application>,
        Error,
    >)
        ensures
            typed_view(r) == typed::<Vec<Application>>(
                completion(outcome@, true, RequestGetElementTypeView::first()),
            ),
    {
        typed_reply::<Vec<Application>>(outcome, true, &RequestGetElementType::Index(0))
    }

    /// The call of `getApplicationStatusList`.
    pub open spec fn get_application_status_list_request() -> RequestView {
        call(
            "appControl"@,
            55,
            "getApplicationStatusList"@,
            default_version(),
            None,
            true,
            true,
            RequestGetElementTypeView::first(),
        )
    }

    /// Provides the status of the application itself or the accompanying status related to a specific application.
    ///
    /// # Authentication Level
    /// None
    pub fn get_application_status_list(&self) -> (r: Result<HttpRequest, Error>)
        ensures
            result_view(r) == self.0@.prepared(Self::get_application_status_list_request()),
    {
        let body = RequestBodyBuilder::default()
            .id(55)
            .method("getApplicationStatusList")
            .build()?;
        RequestBuilder::default()
            .endpoint("appControl")
            .body(body)
            .is_protected()
            .has_result()
            .make(self.0)
    }

    /// Reads the reply to `getApplicationStatusList`:
    /// the first element of the result.
    pub fn get_application_status_list_reply(&self, outcome: HttpOutcome) -> (r: Result<
        Vec<ApplicationStatus>,
        Error,
    >)
        ensures
            typed_view(r) == typed::<Vec<ApplicationStatus>>(
                completion(outcome@, true, RequestGetElementTypeView::first()),
            ),
    {
        typed_reply::<Vec<ApplicationStatus>>(outcome, true, &RequestGetElementType::Index(0))
    }

    /// The parameter object of `getTextForm`.
    pub open spec fn get_text_form_params(enc_key: Option<Seq<char>>) -> Json {
        let p = Json::empty_object();
        let p = match enc_key {
            Some(x) => p.with("encKey"@, Json::Str(x)),
            None => p,
        };
        p
    }

    /// The call of `getTextForm`.
    pub open spec fn get_text_form_request(enc_key: Option<Seq<char>>) -> RequestView {
        call(
            "appControl"@,
            60,
            "getTextForm"@,
            "1.1"@,
            Some(Self::get_text_form_params(enc_key)),
            true,
            true,
            RequestGetElementTypeView::Text("text"@),
        )
    }

    /// Returns the current text input on the field of the software keyboard, if `enc_key` is set this must be encrypted.
    /// This version (1.1) supports encrypted text data transmission.
    ///
    /// # Arguments
    /// * `enc_key` - Encryption key encrypted by the public key.\
    /// The default value is `None` , which means the data is not encrypted.
    ///
    /// # Authentication Level
    /// Private
    pub fn get_text_form(&self, enc_key: Option<String>) -> (r: Result<HttpRequest, Error>)
        ensures
            result_view(r) == self.0@.prepared(Self::get_text_form_request(enc_key.deep_view())),
    {
        let mut params = map_new();
        if let Some(x) = &enc_key {
            map_insert(&mut params, "encKey", text_value(x.as_str()));
        }
        let params_value = object_value(params);
        let body = RequestBodyBuilder::default()
            .id(60)
            .method("getTextForm")
            .version(Some("1.1"))
            .params(params_value)
            .build()?;
        RequestBuilder::default()
            .endpoint("appControl")
            .body(body)
            .is_protected()
            .has_result()
            .get("text".into())
            .make(self.0)
    }

    /// Reads the reply to `getTextForm`:
    /// the member `text` of the first element of the result.
    pub fn get_text_form_reply(&self, outcome: HttpOutcome) -> (r: Result<String, Error>)
        ensures
            typed_view(r) == typed::<String>(
                completion(outcome@, true, RequestGetElementTypeView::Text("text"@)),
            ),
    {
        typed_reply::<String>(outcome, true, &"text".into())
    }

    /// The call of `getWebAppStatus`.
    pub open spec fn get_web_app_status_request() -> RequestView {
        call(
            "appControl"@,
            1,
            "getWebAppStatus"@,
            default_version(),
            None,
            true,
            true,
            RequestGetElementTypeView::first(),
        )
    }

    /// Provides functions to retrieve the status of WebAppRuntime and to retrieve the URL of the current webpage to open on WebApp.
    ///
    /// # Authentication Level
    /// Private
    pub fn get_web_app_status(&self) -> (r: Result<HttpRequest, Error>)
        ensures
            result_view(r) == self.0@.prepared(Self::get_web_app_status_request()),
    {
        let body = RequestBodyBuilder::default()
            .id(1)
            .method("getWebAppStatus")
            .build()?;
        RequestBuilder::default()
            .endpoint("appControl")
            .body(body)
            .is_protected()
            .has_result()
            .make(self.0)
    }

    /// Reads the reply to `getWebAppStatus`:
    /// the first element of the result.
    pub fn get_web_app_status_reply(&self, outcome: HttpOutcome) -> (r: Result<
        WebAppStatus,
        Error,
    >)
        ensures
            typed_view(r) == typed::<WebAppStatus>(
                completion(outcome@, true, RequestGetElementTypeView::first()),
            ),
    {
        typed_reply::<WebAppStatus>(outcome, true, &RequestGetElementType::Index(0))
    }

    /// The parameter object of `setActiveApp`.
    pub open spec fn set_active_app_params(uri: Seq<char>) -> Json {
        let p = Json::empty_object();
        let p = p.with("uri"@, Json::Str(uri));
        p
    }

    /// The call of `setActiveApp`.
    pub open spec fn set_active_app_request(uri: Seq<char>) -> RequestView {
        call(
            "appControl"@,
            601,
            "setActiveApp"@,
            default_version(),
            Some(Self::set_active_app_params(uri)),
            true,
            false,
            RequestGetElementTypeView::first(),
        )
    }

    /// Provides functions to launch an application.
    ///
    /// # Arguments
    /// * `uri` - URI of target application.
    ///     * `localapp://webappruntime?url=target_url` - launch target_url
    ///     * `localapp://webappruntime?manifest=manifest_url` - launch an application in manifest_url
    ///     * `localapp://webappruntime?auid=application_unique_id` - launch the application in auid=application_unique_id in the USB storage
    ///
    /// # Authentication Level
    /// Generic
    pub fn set_active_app(&self, uri: String) -> (r: Result<HttpRequest, Error>)
        ensures
            result_view(r) == self.0@.prepared(Self::set_active_app_request(uri@)),
    {
        let mut params = map_new();
        map_insert(&mut params, "uri", text_value(uri.as_str()));
        let params_value = object_value(params);
        let body = RequestBodyBuilder::default()
            .id(601)
            .method("setActiveApp")
            .params(params_value)
            .build()?;
        RequestBuilder::default()
            .endpoint("appControl")
            .body(body)
            .is_protected()
            .make(self.0)
    }

    /// Reads the reply to `setActiveApp`: success, whatever the result holds.
    pub fn set_active_app_reply(&self, outcome: HttpOutcome) -> (r: Result<(), Error>)
        ensures
            result_view(r) == done(
                completion(outcome@, false, RequestGetElementTypeView::first()),
            ),
    {
        unit_reply(outcome, false, &RequestGetElementType::Index(0))
    }

    /// The parameter of `setTextForm`. Its shape goes with the version: at
    /// "1.1" an object that holds the text and, where there is one, the key;
    /// at any other version, also where the caller names none, the bare text.
    pub open spec fn set_text_form_params(
        text: Seq<char>,
        enc_key: Option<Seq<char>>,
        version: Option<Seq<char>>,
    ) -> Json {
        if version == Some("1.1"@) {
            let p = Json::empty_object();
            let p = match enc_key {
                Some(key) => p.with("encKey"@, Json::Str(key)),
                None => p,
            };
            p.with("text"@, Json::Str(text))
        } else {
            Json::Str(text)
        }
    }

    /// The call of `setTextForm`.
    pub open spec fn set_text_form_request(
        text: Seq<char>,
        enc_key: Option<Seq<char>>,
        version: Option<Seq<char>>,
    ) -> RequestView {
        call(
            "appControl"@,
            601,
            "setTextForm"@,
            version_or_default(version),
            Some(Self::set_text_form_params(text, enc_key, version)),
            true,
            false,
            RequestGetElementTypeView::first(),
        )
    }

    /// Provides the function to input text on the field of the software keyboard.
    ///
    /// # Arguments
    /// * `text` - Text data encoded by UTF8. If `enc_key` is set, this must be encrypted.
    /// * `enc_key` - Encryption key encrypted by the public key.\
    /// The default value is `None`, which means the data is not encrypted.
    ///     * Not supported with API version 1.0
    /// * `version` - API version.
    ///
    /// # Authentication Level
    /// Generic
    pub fn set_text_form(
        &self,
        text: String,
        enc_key: Option<String>,
        version: Option<&str>,
    ) -> (r: Result<HttpRequest, Error>)
        ensures
            result_view(r) == self.0@.prepared(
                Self::set_text_form_request(text@, enc_key.deep_view(), version.deep_view()),
            ),
    {
        let params_value = if is_version(version, "1.1") {
            let mut map = map_new();
            if let Some(enc_key) = &enc_key {
                map_insert(&mut map, "encKey", text_value(enc_key.as_str()));
            }
            map_insert(&mut map, "text", text_value(text.as_str()));
            object_value(map)
        } else {
            text_value(text.as_str())
        };
        let body = RequestBodyBuilder::default()
            .id(601)
            .method("setTextForm")
            .version(version)
            .params(params_value)
            .build()?;
        RequestBuilder::default()
            .endpoint("appControl")
            .body(body)
            .is_protected()
            .make(self.0)
    }

    /// Reads the reply to `setTextForm`: success, whatever the result holds.
    pub fn set_text_form_reply(&self, outcome: HttpOutcome) -> (r: Result<(), Error>)
        ensures
            result_view(r) == done(
                completion(outcome@, false, RequestGetElementTypeView::first()),
            ),
    {
        unit_reply(outcome, false, &RequestGetElementType::Index(0))
    }

    /// The call of `terminateApps`.
    pub open spec fn terminate_apps_request() -> RequestView {
        call(
            "appControl"@,
            55,
            "terminateApps"@,
            default_version(),
            None,
            true,
            false,
            RequestGetElementTypeView::first(),
        )
    }

    /// Provides the function to terminate all applications.
    ///
    /// # Authentication Level
    /// Generic
    pub fn terminate_apps(&self) -> (r: Result<HttpRequest, Error>)
        ensures
            result_view(r) == self.0@.prepared(Self::terminate_apps_request()),
    {
        let body = RequestBodyBuilder::default()
            .id(55)
            .method("terminateApps")
            .build()?;
        RequestBuilder::default()
            .endpoint("appControl")
            .body(body)
            .is_protected()
            .make(self.0)
    }

    /// Reads the reply to `terminateApps`: success, whatever the result holds.
    pub fn terminate_apps_reply(&self, outcome: HttpOutcome) -> (r: Result<(), Error>)
        ensures
            result_view(r) == done(
                completion(outcome@, false, RequestGetElementTypeView::first()),
            ),
    {
        unit_reply(outcome, false, &RequestGetElementType::Index(0))
    }

}

/// The parameter of `setTextForm` has the shape that goes with the version on
/// the wire: an object with the text, and with the key where there is one,
/// exactly where the envelope says "1.1", and the bare text at any other
/// version.
pub proof fn lemma_text_form_shape_follows_version(
    text: Seq<char>,
    enc_key: Option<Seq<char>>,
    version: Option<Seq<char>>,
)
    ensures
        ({
            let body = AppControlService::set_text_form_request(text, enc_key, version).body;
            &&& body.params.len() == 1
            &&& body.version == "1.1"@ <==> body.params[0] is Object
            &&& body.version == "1.1"@ ==> body.params[0].member("text"@) == Some(Json::Str(text))
                && body.params[0].member("encKey"@) == match enc_key {
                Some(key) => Some(Json::Str(key)),
                None => None,
            }
            &&& body.version != "1.1"@ ==> body.params[0] == Json::Str(text)
        }),
{
    reveal_strlit("1.0");
    reveal_strlit("1.1");
    reveal_strlit("text");
    reveal_strlit("encKey");
    assert("1.0"@[2] != "1.1"@[2]);
    assert("text"@.len() != "encKey"@.len());
}

} // verus!
