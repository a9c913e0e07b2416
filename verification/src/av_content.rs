//! APIs related to the control of input and output of the device
//! for AV contents and to the manipulation of AV contents themselves on the device.
//!
//! # Getting content information
//! To get information on the content that a device has,
//! the client needs to know the source of the URI.
//! A client can get the URI of the source by using
//! [getSchemeList](AvContentService::get_scheme_list) and [getSourceList](AvContentService::get_source_list).\
//! \
//! At first, the client gets scheme information with the [getSchemeList](AvContentService::get_scheme_list).
//! Afterward, the client sets this scheme to the `scheme` parameter
//! of [getSourceList](AvContentService::get_source_list) and calls this API to get the URI of the source.\
//! \
//! The client sets the URI of the source to the `uri` parameter of [getContentList](AvContentService::get_content_list)
//! and calls this API to get the content information or browse the content.

use crate::call::call;
use crate::call::done;
use crate::call::is_version;
use crate::call::typed;
use crate::call::typed_reply;
use crate::call::typed_view;
use crate::call::unit_reply;
use crate::call::version_or_default;
use crate::client::Bravia;
use crate::decode::defaulted;
use crate::decode::element;
use crate::decode::element_or;
use crate::decode::field;
use crate::decode::field_or;
use crate::decode::optional;
use crate::decode::optional_field;
use crate::decode::placed;
use crate::decode::placed_or;
use crate::decode::required;
use crate::decode::FromJson;
use crate::error::result_view;
use crate::error::Error;
use crate::json::lemma_walk_is_values_in_order;
use crate::json::map_insert;
use crate::json::map_model;
use crate::json::map_new;
use crate::json::map_values;
use crate::json::object_value;
use crate::json::ref_models;
use crate::json::text_value;
use crate::json::unsigned_value;
use crate::json::values_in_order;
use crate::json::value_as_array;
use crate::json::value_as_object;
use crate::json::value_as_str;
use crate::json::Json;
use crate::request::default_version;
use crate::request::RequestBodyBuilder;
use crate::request::RequestBuilder;
use crate::request::RequestGetElementType;
use crate::request::RequestGetElementTypeView;
use crate::request::RequestView;
use crate::response::complete;
use crate::response::completion;
use crate::transport::HttpOutcome;
use crate::transport::HttpRequest;
use serde_json::Value;
use vstd::prelude::*;
use vstd::string::StringExecFns;

verus! {

#[derive(Debug, Clone, PartialEq, Eq)]
pub struct Content {
    /// URI to identify the content.
    pub uri: String,
    /// Title of this content to be recognized by the user.\
    /// The default value is `None`, this means that there is no title information.
    pub title: Option<String>,
    /// Index of the list.\
    /// This starts with `stIdx` that is indicated in the request.
    /// When this value is -1, this indicates that the content itself is specified by the URI in the request parameter.
    pub index: i32,
}

/// The mathematical value of a [`Content`].
pub struct ContentView {
    pub uri: Seq<char>,
    pub title: Option<Seq<char>>,
    pub index: i32,
}

impl DeepView for Content {
    type V = ContentView;

    open spec fn deep_view(&self) -> ContentView {
        ContentView {
            uri: self.uri.deep_view(),
            title: self.title.deep_view(),
            index: self.index.deep_view(),
        }
    }
}

impl FromJson for Content {
    /// An object with the member `uri`; `title`, `index` may be left out.
    /// Other members are ignored. Or an array of the values in the order
    /// `uri`, `title`, `index`, with none beyond them and none missing but,
    /// at its end, `index`.
    open spec fn decoded(doc: Json) -> Option<ContentView> {
        match doc.elements() {
            Some(items) => if items.len() <= 3 {
                match (
                    placed::<String>(items, 0),
                    placed::<Option<String>>(items, 1),
                    placed_or::<i32>(items, 2, 0),
                ) {
                    (Some(uri), Some(title), Some(index)) => Some(
                        ContentView { uri, title, index },
                    ),
                    _ => None,
                }
            } else {
                None
            },
            None => match (
                required::<String>(doc, "uri"@),
                optional::<String>(doc, "title"@),
                defaulted::<i32>(doc, "index"@, 0),
            ) {
                (Some(uri), Some(title), Some(index)) => Some(ContentView { uri, title, index }),
                _ => None,
            },
        }
    }

    fn from_json(v: &Value) -> (r: Option<Content>) {
        match value_as_array(v) {
            Some(items) => {
                if items.len() > 3 {
                    return None;
                }
                let uri = element::<String>(items, 0);
                let title = element::<Option<String>>(items, 1);
                let index = element_or::<i32>(items, 2, 0);
                match (uri, title, index) {
                    (Some(uri), Some(title), Some(index)) => Some(Content { uri, title, index }),
                    _ => None,
                }
            },
            None => {
                let uri = field::<String>(v, "uri");
                let title = optional_field::<String>(v, "title");
                let index = field_or::<i32>(v, "index", 0);
                match (uri, title, index) {
                    (Some(uri), Some(title), Some(index)) => Some(Content { uri, title, index }),
                    _ => None,
                }
            },
        }
    }
}

#[derive(Debug, Clone, PartialEq, Eq)]
pub struct ExternalInputStatus {
    /// Icon type to give a hint to the application which icon to show for the user.\
    /// The type is indicated by a `meta` URI format and implies that the developers of the client side should prepare some actual images with respect to the meta URI. The following meta URIs are defined.
    /// * `meta:composite` - Composite input
    /// * `meta:svideo` - S-Video input
    /// * `meta:composite_componentd` - Composite and D-Component combined input
    /// * `meta:component` - Component input (Y and Pb/Cb and Pr/Cr connectors)
    /// * `meta:componentd` - D-Component input
    /// * `meta:scart` - SCART input
    /// * `meta:hdmi` - HDMI input
    /// * `meta:dsub15` - D-subminiature 15pin input
    /// * `meta:tuner` - Tuner device is connected.
    /// * `meta:tape` - Tape player device is connected.
    /// * `meta:disc` - Disk player device is connected.
    /// * `meta:complex` - Complex device is connected.
    /// * `meta:avamp` - AV amp device is connected.
    /// * `meta:hometheater` - Home theater device is connected.
    /// * `meta:game` - Game player is connected.
    /// * `meta:camcoder` - Video camera is connected.
    /// * `meta:digitalcamera` - Still camera is connected.
    /// * `meta:pc` - Personal computer is connected.
    /// * `meta:tv` - TV-type CEC device is connected.
    /// * `meta:audiosystem` - Audio system-type CEC device is connected.
    /// * `meta:recordingdevice` - Recording-type CEC device is connected.
    /// * `meta:playbackdevice` - Playback-type CEC device is connected.
    /// * `meta:tunerdevice` - Tuner-type CEC device is connected.
    /// * `meta:wifidisplay` - WiFi Display input
    pub icon: String,
    /// Input connection status.
    pub connection: bool,
    /// Label name of the input set by the user.
    pub label: String,
    /// Name of input.
    pub title: String,
    /// URI to identify the content.
    pub uri: String,
    /// Input signal status.\
    /// Not supported on version 1.0.\
    /// Values:
    /// * `true` - signal is detected.
    /// * `false` - signal is not detected.
    /// * `None` - unknown (Default on version 1.0)
    pub status: Option<String>,
}

/// The mathematical value of a [`ExternalInputStatus`].
pub struct ExternalInputStatusView {
    pub icon: Seq<char>,
    pub connection: bool,
    pub label: Seq<char>,
    pub title: Seq<char>,
    pub uri: Seq<char>,
    pub status: Option<Seq<char>>,
}

impl DeepView for ExternalInputStatus {
    type V = ExternalInputStatusView;

    open spec fn deep_view(&self) -> ExternalInputStatusView {
        ExternalInputStatusView {
            icon: self.icon.deep_view(),
            connection: self.connection.deep_view(),
            label: self.label.deep_view(),
            title: self.title.deep_view(),
            uri: self.uri.deep_view(),
            status: self.status.deep_view(),
        }
    }
}

impl FromJson for ExternalInputStatus {
    /// An object with the members `icon`, `connection`, `label`, `title`,
    /// `uri`; `status` may be left out. Other members are ignored. Or an
    /// array of the values in the order `icon`, `connection`, `label`,
    /// `title`, `uri`, `status`, with none missing and none beyond them.
    open spec fn decoded(doc: Json) -> Option<ExternalInputStatusView> {
        match doc.elements() {
            Some(items) => if items.len() <= 6 {
                match (
                    placed::<String>(items, 0),
                    placed::<bool>(items, 1),
                    placed::<String>(items, 2),
                    placed::<String>(items, 3),
                    placed::<String>(items, 4),
                    placed::<Option<String>>(items, 5),
                ) {
                    (
                        Some(icon),
                        Some(connection),
                        Some(label),
                        Some(title),
                        Some(uri),
                        Some(status),
                    ) => Some(
                        ExternalInputStatusView { icon, connection, label, title, uri, status },
                    ),
                    _ => None,
                }
            } else {
                None
            },
            None => match (
                required::<String>(doc, "icon"@),
                required::<bool>(doc, "connection"@),
                required::<String>(doc, "label"@),
                required::<String>(doc, "title"@),
                required::<String>(doc, "uri"@),
                optional::<String>(doc, "status"@),
            ) {
                (
                    Some(icon),
                    Some(connection),
                    Some(label),
                    Some(title),
                    Some(uri),
                    Some(status),
                ) => Some(
                    ExternalInputStatusView { icon, connection, label, title, uri, status },
                ),
                _ => None,
            },
        }
    }

    fn from_json(v: &Value) -> (r: Option<ExternalInputStatus>) {
        match value_as_array(v) {
            Some(items) => {
                if items.len() > 6 {
                    return None;
                }
                let icon = element::<String>(items, 0);
                let connection = element::<bool>(items, 1);
                let label = element::<String>(items, 2);
                let title = element::<String>(items, 3);
                let uri = element::<String>(items, 4);
                let status = element::<Option<String>>(items, 5);
                match (icon, connection, label, title, uri, status) {
                    (
                        Some(icon),
                        Some(connection),
                        Some(label),
                        Some(title),
                        Some(uri),
                        Some(status),
                    ) => Some(
                        ExternalInputStatus { icon, connection, label, title, uri, status },
                    ),
                    _ => None,
                }
            },
            None => {
                let icon = field::<String>(v, "icon");
                let connection = field::<bool>(v, "connection");
                let label = field::<String>(v, "label");
                let title = field::<String>(v, "title");
                let uri = field::<String>(v, "uri");
                let status = optional_field::<String>(v, "status");
                match (icon, connection, label, title, uri, status) {
                    (
                        Some(icon),
                        Some(connection),
                        Some(label),
                        Some(title),
                        Some(uri),
                        Some(status),
                    ) => Some(
                        ExternalInputStatus { icon, connection, label, title, uri, status },
                    ),
                    _ => None,
                }
            },
        }
    }
}

#[derive(Debug, Clone, PartialEq, Eq)]
pub struct PlayingContentInfo {
    /// Source of the content.
    pub source: String,
    /// Title of this content to be recognized by the user.
    ///
    /// # Note
    /// Use the [getCurrentExternalInputStatus](AvContentService::get_current_external_input_status)
    ///  method to get the label name that a user sets via the UI setting.
    pub title: String,
    /// URI to identify the content.
    pub uri: String,
}

/// The mathematical value of a [`PlayingContentInfo`].
pub struct PlayingContentInfoView {
    pub source: Seq<char>,
    pub title: Seq<char>,
    pub uri: Seq<char>,
}

impl DeepView for PlayingContentInfo {
    type V = PlayingContentInfoView;

    open spec fn deep_view(&self) -> PlayingContentInfoView {
        PlayingContentInfoView {
            source: self.source.deep_view(),
            title: self.title.deep_view(),
            uri: self.uri.deep_view(),
        }
    }
}

impl FromJson for PlayingContentInfo {
    /// An object with the members `source`, `title`, `uri`. Other members are
    /// ignored. Or an array of the values in the order `source`, `title`,
    /// `uri`, with none missing and none beyond them.
    open spec fn decoded(doc: Json) -> Option<PlayingContentInfoView> {
        match doc.elements() {
            Some(items) => if items.len() <= 3 {
                match (
                    placed::<String>(items, 0),
                    placed::<String>(items, 1),
                    placed::<String>(items, 2),
                ) {
                    (Some(source), Some(title), Some(uri)) => Some(
                        PlayingContentInfoView { source, title, uri },
                    ),
                    _ => None,
                }
            } else {
                None
            },
            None => match (
                required::<String>(doc, "source"@),
                required::<String>(doc, "title"@),
                required::<String>(doc, "uri"@),
            ) {
                (Some(source), Some(title), Some(uri)) => Some(
                    PlayingContentInfoView { source, title, uri },
                ),
                _ => None,
            },
        }
    }

    fn from_json(v: &Value) -> (r: Option<PlayingContentInfo>) {
        match value_as_array(v) {
            Some(items) => {
                if items.len() > 3 {
                    return None;
                }
                let source = element::<String>(items, 0);
                let title = element::<String>(items, 1);
                let uri = element::<String>(items, 2);
                match (source, title, uri) {
                    (Some(source), Some(title), Some(uri)) => Some(
                        PlayingContentInfo { source, title, uri },
                    ),
                    _ => None,
                }
            },
            None => {
                let source = field::<String>(v, "source");
                let title = field::<String>(v, "title");
                let uri = field::<String>(v, "uri");
                match (source, title, uri) {
                    (Some(source), Some(title), Some(uri)) => Some(
                        PlayingContentInfo { source, title, uri },
                    ),
                    _ => None,
                }
            },
        }
    }
}

/// The texts of a list of string values, joined in their order; `None` where
/// one of the values is not a string.
pub open spec fn joined(values: Seq<Json>) -> Option<Seq<char>>
    decreases values.len(),
{
    if values.len() == 0 {
        Some(Seq::empty())
    } else {
        match (joined(values.drop_last()), values.last().text()) {
            (Some(front), Some(t)) => Some(front + t),
            _ => None,
        }
    }
}

/// The name that one element of a scheme list or a source list holds: the
/// text of the object's members, joined. The device sends objects with one
/// member, whose text is the name.
#[derive(Debug, Clone, PartialEq, Eq)]
pub struct MemberTexts(pub String);

impl DeepView for MemberTexts {
    type V = Seq<char>;

    open spec fn deep_view(&self) -> Seq<char> {
        self.0@
    }
}

impl FromJson for MemberTexts {
    /// An object whose members are all strings: their texts, joined in
    /// ascending order of the members' names.
    open spec fn decoded(doc: Json) -> Option<Seq<char>> {
        match doc {
            Json::Object(m) => joined(values_in_order(m)),
            _ => None,
        }
    }

    fn from_json(v: &Value) -> (r: Option<MemberTexts>) {
        match value_as_object(v) {
            None => None,
            Some(m) => {
                let values = map_values(m);
                proof {
                    lemma_walk_is_values_in_order(map_model(*m), ref_models(values@));
                }
                match join_texts(&values) {
                    Some(name) => Some(MemberTexts(name)),
                    None => None,
                }
            },
        }
    }
}

/// Joins the texts of a list of string values, in their order.
pub fn join_texts(values: &Vec<&Value>) -> (r: Option<String>)
    ensures
        r.deep_view() == joined(ref_models(values@)),
{
    let ghost docs = ref_models(values@);
    let mut out = String::new();
    let mut i: usize = 0;
    while i < values.len()
        invariant
            i <= values.len(),
            docs == ref_models(values@),
            joined(docs.take(i as int)) == Some(out@),
        decreases values.len() - i,
    {
        proof {
            assert(docs.take(i + 1).drop_last() =~= docs.take(i as int));
            assert(docs.take(i + 1).last() == docs[i as int]);
        }
        match value_as_str(values[i]) {
            Some(t) => {
                out.append(t);
            },
            None => {
                proof {
                    lemma_joined_needs_texts(docs, i as int);
                }
                return None;
            },
        }
        i += 1;
    }
    assert(docs.take(i as int) =~= docs);
    Some(out)
}

/// A list with a value that is not a string has no joined text.
pub proof fn lemma_joined_needs_texts(values: Seq<Json>, at: int)
    requires
        0 <= at < values.len(),
        values[at].text() is None,
    ensures
        joined(values) is None,
    decreases values.len(),
{
    if at < values.len() - 1 {
        lemma_joined_needs_texts(values.drop_last(), at);
    }
}

/// The names in a list of them.
pub fn into_names(items: Vec<MemberTexts>) -> (r: Vec<String>)
    ensures
        r.deep_view() == items.deep_view(),
{
    let mut out: Vec<String> = Vec::new();
    let mut i: usize = 0;
    while i < items.len()
        invariant
            i <= items.len(),
            out.len() == i,
            forall|k: int| 0 <= k < i ==> (#[trigger] out[k])@ == items[k].0@,
        decreases items.len() - i,
    {
        out.push(items[i].0.clone());
        i += 1;
    }
    assert(out.deep_view() =~= items.deep_view());
    out
}

/// Provides access to av_content service APIs.
pub struct AvContentService<'a>(pub &'a Bravia);

impl<'a> AvContentService<'a> {
    pub fn new(bravia: &'a Bravia) -> (r: Self)
        ensures
            r.0 == bravia,
    {
        Self(bravia)
    }

    /// The parameter object of `getContentCount`. It holds the target at
    /// version "1.1" only, and only where the caller gave one.
    pub open spec fn get_content_count_params(
        source: Seq<char>,
        content_type: Option<Seq<char>>,
        target: Option<Seq<char>>,
        version: Option<Seq<char>>,
    ) -> Json {
        let p = Json::empty_object();
        let p = p.with("source"@, Json::Str(source));
        let p = match content_type {
            Some(t) => p.with("type"@, Json::Str(t)),
            None => p,
        };
        match target {
            Some(t) if version == Some("1.1"@) => p.with("target"@, Json::Str(t)),
            _ => p,
        }
    }

    /// The call of `getContentCount`.
    pub open spec fn get_content_count_request(
        source: Seq<char>,
        content_type: Option<Seq<char>>,
        target: Option<Seq<char>>,
        version: Option<Seq<char>>,
    ) -> RequestView {
        call(
            "avContent"@,
            11,
            "getContentCount"@,
            version_or_default(version),
            Some(Self::get_content_count_params(source, content_type, target, version)),
            true,
            true,
            RequestGetElementTypeView::Text("count"@),
        )
    }

    /// Provides the count of contents in the source.
    /// With version 1.1 it's possibile to specify a `target` value.
    ///
    /// # Arguments
    /// * `source` - Source name composed of the URI with a scheme and path.
    /// * `target` - Not available with API version 1.0
    /// * `version` - API version.
    ///
    /// # Authentication Level
    /// Private
    pub fn get_content_count(
        &self,
        source: String,
        content_type: Option<String>,
        target: Option<String>,
        version: Option<&str>,
    ) -> (r: Result<HttpRequest, Error>)
        ensures
            result_view(r) == self.0@.prepared(
                Self::get_content_count_request(
                    source@,
                    content_type.deep_view(),
                    target.deep_view(),
                    version.deep_view(),
                ),
            ),
    {
        let mut params = map_new();
        map_insert(&mut params, "source", text_value(source.as_str()));
        if let Some(t) = &content_type {
            map_insert(&mut params, "type", text_value(t.as_str()));
        }
        if is_version(version, "1.1") {
            if let Some(t) = &target {
                map_insert(&mut params, "target", text_value(t.as_str()));
            }
        }
        let params_value = object_value(params);
        let body = RequestBodyBuilder::default()
            .id(11)
            .method("getContentCount")
            .version(version)
            .params(params_value)
            .build()?;
        RequestBuilder::default()
            .endpoint("avContent")
            .body(body)
            .is_protected()
            .has_result()
            .get("count".into())
            .make(self.0)
    }

    /// Reads the reply to `getContentCount`:
    /// the member `count` of the first element of the result.
    pub fn get_content_count_reply(&self, outcome: HttpOutcome) -> (r: Result<usize, Error>)
        ensures
            typed_view(r) == typed::<usize>(
                completion(outcome@, true, RequestGetElementTypeView::Text("count"@)),
            ),
    {
        typed_reply::<usize>(outcome, true, &"count".into())
    }

    /// The parameter object of `getContentList`.
    pub open spec fn get_content_list_params(
        uri: Option<Seq<char>>,
        st_idx: Option<u32>,
        cnt: Option<u32>,
    ) -> Json {
        let p = Json::empty_object();
        let p = match uri {
            Some(x) => p.with("uri"@, Json::Str(x)),
            None => p,
        };
        let p = match st_idx {
            Some(x) => p.with("stIdx"@, Json::Int(x as int)),
            None => p,
        };
        let p = match cnt {
            Some(x) => p.with("cnt"@, Json::Int(x as int)),
            None => p,
        };
        p
    }

    /// The call of `getContentList`.
    pub open spec fn get_content_list_request(
        uri: Option<Seq<char>>,
        st_idx: Option<u32>,
        cnt: Option<u32>,
    ) -> RequestView {
        call(
            "avContent"@,
            88,
            "getContentList"@,
            "1.5"@,
            Some(Self::get_content_list_params(uri, st_idx, cnt)),
            true,
            true,
            RequestGetElementTypeView::first(),
        )
    }

    /// Provides the list of contents under the URI.\
    /// If the number of contents is too large to be retrieved in a single request,
    /// the `st_idx` and `cnt` parameters should be used to retrieve partial lists.
    /// To get the complete list, multiple requests are to be made by adjusting
    /// the `st_idx` and `cnt` parameters.\
    /// There is a maximum limit on the number of contents that can be retrieved
    /// in a single request. This limit is device specific.
    /// The `cnt` parameter also has the same maximum limit.
    ///
    /// # Arguments
    /// * `uri` - URI to identify the content. `None` means all contents are supported by the device.
    /// * `st_idx` - Start index to get list items. The default value is 0.
    /// * `cnt` - Count of the maximum number of items that can be listed, starting from `stIdx`. The
    /// default value is `50`.
    ///
    /// # Authentication Level
    /// Private
    pub fn get_content_list(
        &self,
        uri: Option<String>,
        st_idx: Option<u32>,
        cnt: Option<u32>,
    ) -> (r: Result<HttpRequest, Error>)
        ensures
            result_view(r) == self.0@.prepared(
                Self::get_content_list_request(uri.deep_view(), st_idx, cnt),
            ),
    {
        let mut params = map_new();
        if let Some(x) = &uri {
            map_insert(&mut params, "uri", text_value(x.as_str()));
        }
        if let Some(x) = st_idx {
            map_insert(&mut params, "stIdx", unsigned_value(x as u64));
        }
        if let Some(x) = cnt {
            map_insert(&mut params, "cnt", unsigned_value(x as u64));
        }
        let params_value = object_value(params);
        let body = RequestBodyBuilder::default()
            .id(88)
            .method("getContentList")
            .version(Some("1.5"))
            .params(params_value)
            .build()?;
        RequestBuilder::default()
            .endpoint("avContent")
            .body(body)
            .is_protected()
            .has_result()
            .make(self.0)
    }

    /// Reads the reply to `getContentList`:
    /// the first element of the result.
    pub fn get_content_list_reply(&self, outcome: HttpOutcome) -> (r: Result<Vec<Content>, Error>)
        ensures
            typed_view(r) == typed::<Vec<Content>>(
                completion(outcome@, true, RequestGetElementTypeView::first()),
            ),
    {
        typed_reply::<Vec<Content>>(outcome, true, &RequestGetElementType::Index(0))
    }

    /// The call of `getCurrentExternalInputsStatus`.
    pub open spec fn get_current_external_input_status_request(
        version: Option<Seq<char>>,
    ) -> RequestView {
        call(
            "avContent"@,
            105,
            "getCurrentExternalInputsStatus"@,
            version_or_default(version),
            None,
            false,
            true,
            RequestGetElementTypeView::first(),
        )
    }

    /// Provides information on the current status of all external input sources of the device.
    ///
    /// # Arguments
    /// * `version` - API version.
    ///
    /// # Authentication Level
    /// None
    pub fn get_current_external_input_status(
        &self,
        version: Option<&str>,
    ) -> (r: Result<HttpRequest, Error>)
        ensures
            result_view(r) == self.0@.prepared(
                Self::get_current_external_input_status_request(version.deep_view()),
            ),
    {
        let body = RequestBodyBuilder::default()
            .id(105)
            .method("getCurrentExternalInputsStatus")
            .version(version)
            .build()?;
        RequestBuilder::default()
            .endpoint("avContent")
            .body(body)
            .has_result()
            .make(self.0)
    }

    /// Reads the reply to `getCurrentExternalInputsStatus`:
    /// the first element of the result.
    pub fn get_current_external_input_status_reply(&self, outcome: HttpOutcome) -> (r: Result<
        Vec<ExternalInputStatus>,
        Error,
    >)
        ensures
            typed_view(r) == typed::<Vec<ExternalInputStatus>>(
                completion(outcome@, true, RequestGetElementTypeView::first()),
            ),
    {
        typed_reply::<Vec<ExternalInputStatus>>(outcome, true, &RequestGetElementType::Index(0))
    }

    /// The call of `getSchemeList`.
    pub open spec fn get_scheme_list_request() -> RequestView {
        call(
            "avContent"@,
            1,
            "getSchemeList"@,
            default_version(),
            None,
            false,
            true,
            RequestGetElementTypeView::first(),
        )
    }

    /// This API provides the list of schemes that the device can handle.
    ///
    /// # Authentication Level
    /// None
    pub fn get_scheme_list(&self) -> (r: Result<HttpRequest, Error>)
        ensures
            result_view(r) == self.0@.prepared(Self::get_scheme_list_request()),
    {
        let body = RequestBodyBuilder::default()
            .id(1)
            .method("getSchemeList")
            .build()?;
        RequestBuilder::default()
            .endpoint("avContent")
            .body(body)
            .has_result()
            .make(self.0)
    }

    /// Reads the reply to `getSchemeList`: the first element of the result, a list of
    /// objects, each of which yields one name.
    pub fn get_scheme_list_reply(&self, outcome: HttpOutcome) -> (r: Result<Vec<String>, Error>)
        ensures
            typed_view(r) == typed::<Vec<MemberTexts>>(
                completion(outcome@, true, RequestGetElementTypeView::first()),
            ),
    {
        match typed_reply::<Vec<MemberTexts>>(outcome, true, &RequestGetElementType::Index(0)) {
            Ok(items) => Ok(into_names(items)),
            Err(e) => Err(e),
        }
    }

    /// The parameter object of `getSourceList`.
    pub open spec fn get_source_list_params(scheme: Seq<char>) -> Json {
        let p = Json::empty_object();
        let p = p.with("scheme"@, Json::Str(scheme));
        p
    }

    /// The call of `getSourceList`.
    pub open spec fn get_source_list_request(scheme: Seq<char>) -> RequestView {
        call(
            "avContent"@,
            1,
            "getSourceList"@,
            default_version(),
            Some(Self::get_source_list_params(scheme)),
            false,
            true,
            RequestGetElementTypeView::first(),
        )
    }

    /// Provides the list of sources in the scheme.
    ///
    /// # Arguments
    /// * `scheme` - Scheme name.
    ///
    /// # Authentication Level
    /// None
    pub fn get_source_list(&self, scheme: String) -> (r: Result<HttpRequest, Error>)
        ensures
            result_view(r) == self.0@.prepared(Self::get_source_list_request(scheme@)),
    {
        let mut params = map_new();
        map_insert(&mut params, "scheme", text_value(scheme.as_str()));
        let params_value = object_value(params);
        let body = RequestBodyBuilder::default()
            .id(1)
            .method("getSourceList")
            .params(params_value)
            .build()?;
        RequestBuilder::default()
            .endpoint("avContent")
            .body(body)
            .has_result()
            .make(self.0)
    }

    /// Reads the reply to `getSourceList`: the first element of the result, a list of
    /// objects, each of which yields one name.
    pub fn get_source_list_reply(&self, outcome: HttpOutcome) -> (r: Result<Vec<String>, Error>)
        ensures
            typed_view(r) == typed::<Vec<MemberTexts>>(
                completion(outcome@, true, RequestGetElementTypeView::first()),
            ),
    {
        match typed_reply::<Vec<MemberTexts>>(outcome, true, &RequestGetElementType::Index(0)) {
            Ok(items) => Ok(into_names(items)),
            Err(e) => Err(e),
        }
    }

    /// The call of `getPlayingContentInfo`.
    pub open spec fn get_playing_content_info_request() -> RequestView {
        call(
            "avContent"@,
            103,
            "getPlayingContentInfo"@,
            default_version(),
            None,
            true,
            true,
            RequestGetElementTypeView::first(),
        )
    }

    /// Provides information of the currently playing content or the currently selected input.
    ///
    /// # Authentication Level
    /// Private
    pub fn get_playing_content_info(&self) -> (r: Result<HttpRequest, Error>)
        ensures
            result_view(r) == self.0@.prepared(Self::get_playing_content_info_request()),
    {
        let body = RequestBodyBuilder::default()
            .id(103)
            .method("getPlayingContentInfo")
            .build()?;
        RequestBuilder::default()
            .endpoint("avContent")
            .body(body)
            .is_protected()
            .has_result()
            .make(self.0)
    }

    /// Reads the reply to `getPlayingContentInfo`:
    /// the first element of the result.
    pub fn get_playing_content_info_reply(&self, outcome: HttpOutcome) -> (r: Result<
        PlayingContentInfo,
        Error,
    >)
        ensures
            typed_view(r) == typed::<PlayingContentInfo>(
                completion(outcome@, true, RequestGetElementTypeView::first()),
            ),
    {
        typed_reply::<PlayingContentInfo>(outcome, true, &RequestGetElementType::Index(0))
    }

    /// The parameter object of `setPlayContent`.
    pub open spec fn set_play_content_params(uri: Seq<char>) -> Json {
        let p = Json::empty_object();
        let p = p.with("uri"@, Json::Str(uri));
        p
    }

    /// The call of `setPlayContent`.
    pub open spec fn set_play_content_request(uri: Seq<char>) -> RequestView {
        call(
            "avContent"@,
            101,
            "setPlayContent"@,
            default_version(),
            Some(Self::set_play_content_params(uri)),
            true,
            false,
            RequestGetElementTypeView::first(),
        )
    }

    /// Provides the function to play content.
    /// With this API, content specified in the request parameter is shown to the user.
    ///
    /// # Arguments
    /// `uri` - URI obtained from [getContentList](AvContentService::get_content_list) API.
    ///
    /// # Authentication Level
    /// Generic
    pub fn set_play_content(&self, uri: String) -> (r: Result<HttpRequest, Error>)
        ensures
            result_view(r) == self.0@.prepared(Self::set_play_content_request(uri@)),
    {
        let mut params = map_new();
        map_insert(&mut params, "uri", text_value(uri.as_str()));
        let params_value = object_value(params);
        let body = RequestBodyBuilder::default()
            .id(101)
            .method("setPlayContent")
            .params(params_value)
            .build()?;
        RequestBuilder::default()
            .endpoint("avContent")
            .body(body)
            .is_protected()
            .make(self.0)
    }

    /// Reads the reply to `setPlayContent`: success, whatever the result holds.
    pub fn set_play_content_reply(&self, outcome: HttpOutcome) -> (r: Result<(), Error>)
        ensures
            result_view(r) == done(
                completion(outcome@, false, RequestGetElementTypeView::first()),
            ),
    {
        unit_reply(outcome, false, &RequestGetElementType::Index(0))
    }

}

/// The parameter object of `getContentCount` holds the target exactly where
/// the envelope says "1.1" and the caller gave one; the source is always
/// there, and the type where the caller gave one.
pub proof fn lemma_content_count_shape_follows_version(
    source: Seq<char>,
    content_type: Option<Seq<char>>,
    target: Option<Seq<char>>,
    version: Option<Seq<char>>,
)
    ensures
        ({
            let body = AvContentService::get_content_count_request(
                source,
                content_type,
                target,
                version,
            ).body;
            &&& body.params.len() == 1
            &&& body.params[0].member("target"@) is Some <==> body.version == "1.1"@
                && target is Some
            &&& body.params[0].member("target"@) is Some ==> body.params[0].member("target"@)
                == Some(Json::Str(target->0))
            &&& body.params[0].member("source"@) == Some(Json::Str(source))
            &&& body.params[0].member("type"@) == match content_type {
                Some(t) => Some(Json::Str(t)),
                None => None,
            }
        }),
{
    reveal_strlit("1.0");
    reveal_strlit("1.1");
    reveal_strlit("source");
    reveal_strlit("type");
    reveal_strlit("target");
    assert("1.0"@[2] != "1.1"@[2]);
    assert("source"@.len() == 6 && "type"@.len() == 4 && "target"@.len() == 6);
    assert("source"@[0] != "target"@[0]);
}

} // verus!
