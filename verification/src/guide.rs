//! Provides an API to get the list of supported services on the server.

use crate::call::call;
use crate::call::text_list_value;
use crate::call::texts;
use crate::client::discovered;
use crate::client::read_discovery;
use crate::client::Bravia;
use crate::decode::element;
use crate::decode::field;
use crate::decode::optional;
use crate::decode::optional_field;
use crate::decode::placed;
use crate::decode::required;
use crate::decode::FromJson;
use crate::error::result_view;
use crate::error::Error;
use crate::error::ErrorView;
use crate::json::map_insert;
use crate::json::map_new;
use crate::json::object_value;
use crate::json::value_as_array;
use crate::json::Json;
use crate::request::default_version;
use crate::request::RequestBodyBuilder;
use crate::request::Request;
use crate::request::RequestBuilder;
use crate::request::RequestGetElementTypeView;
use crate::request::RequestView;
use crate::transport::HttpOutcome;
use crate::transport::HttpRequest;
use serde_json::Value;
use vstd::prelude::*;

verus! {

/// Detail of supported versions of the API.
#[derive(Debug, Clone, PartialEq, Eq)]
pub struct Versions {
    /// Version of the API.
    pub version: String,
    /// Transport for the API,
    /// if there are any exception from that of belonging service.
    pub protocols: Option<Vec<String>>,
    /// Authentication level of the API.
    pub auth_level: Option<String>,
}

/// The mathematical value of a [`Versions`].
pub struct VersionsView {
    pub version: Seq<char>,
    pub protocols: Option<Seq<Seq<char>>>,
    pub auth_level: Option<Seq<char>>,
}

impl DeepView for Versions {
    type V = VersionsView;

    open spec fn deep_view(&self) -> VersionsView {
        VersionsView {
            version: self.version.deep_view(),
            protocols: self.protocols.deep_view(),
            auth_level: self.auth_level.deep_view(),
        }
    }
}

impl FromJson for Versions {
    /// An object with the member `version`; `protocols`, `authLevel` may be
    /// left out. Other members are ignored. Or an array of the values in the
    /// order `version`, `protocols`, `authLevel`, with none missing and none
    /// beyond them.
    open spec fn decoded(doc: Json) -> Option<VersionsView> {
        match doc.elements() {
            Some(items) => if items.len() <= 3 {
                match (
                    placed::<String>(items, 0),
                    placed::<Option<Vec<String>>>(items, 1),
                    placed::<Option<String>>(items, 2),
                ) {
                    (Some(version), Some(protocols), Some(auth_level)) => Some(
                        VersionsView { version, protocols, auth_level },
                    ),
                    _ => None,
                }
            } else {
                None
            },
            None => match (
                required::<String>(doc, "version"@),
                optional::<Vec<String>>(doc, "protocols"@),
                optional::<String>(doc, "authLevel"@),
            ) {
                (Some(version), Some(protocols), Some(auth_level)) => Some(
                    VersionsView { version, protocols, auth_level },
                ),
                _ => None,
            },
        }
    }

    fn from_json(v: &Value) -> (r: Option<Versions>) {
        match value_as_array(v) {
            Some(items) => {
                if items.len() > 3 {
                    return None;
                }
                let version = element::<String>(items, 0);
                let protocols = element::<Option<Vec<String>>>(items, 1);
                let auth_level = element::<Option<String>>(items, 2);
                match (version, protocols, auth_level) {
                    (Some(version), Some(protocols), Some(auth_level)) => Some(
                        Versions { version, protocols, auth_level },
                    ),
                    _ => None,
                }
            },
            None => {
                let version = field::<String>(v, "version");
                let protocols = optional_field::<Vec<String>>(v, "protocols");
                let auth_level = optional_field::<String>(v, "authLevel");
                match (version, protocols, auth_level) {
                    (Some(version), Some(protocols), Some(auth_level)) => Some(
                        Versions { version, protocols, auth_level },
                    ),
                    _ => None,
                }
            },
        }
    }
}

/// Supported APIs.
#[derive(Debug, Clone, PartialEq, Eq)]
pub struct Api {
    /// Name of the API.
    pub name: String,
    pub versions: Vec<Versions>,
}

/// The mathematical value of a [`Api`].
pub struct ApiView {
    pub name: Seq<char>,
    pub versions: Seq<VersionsView>,
}

impl DeepView for Api {
    type V = ApiView;

    open spec fn deep_view(&self) -> ApiView {
        ApiView {
            name: self.name.deep_view(),
            versions: self.versions.deep_view(),
        }
    }
}

impl FromJson for Api {
    /// An object with the members `name`, `versions`. Other members are
    /// ignored. Or an array of the values in the order `name`, `versions`,
    /// with none missing and none beyond them.
    open spec fn decoded(doc: Json) -> Option<ApiView> {
        match doc.elements() {
            Some(items) => if items.len() <= 2 {
                match (
                    placed::<String>(items, 0),
                    placed::<Vec<Versions>>(items, 1),
                ) {
                    (Some(name), Some(versions)) => Some(ApiView { name, versions }),
                    _ => None,
                }
            } else {
                None
            },
            None => match (
                required::<String>(doc, "name"@),
                required::<Vec<Versions>>(doc, "versions"@),
            ) {
                (Some(name), Some(versions)) => Some(ApiView { name, versions }),
                _ => None,
            },
        }
    }

    fn from_json(v: &Value) -> (r: Option<Api>) {
        match value_as_array(v) {
            Some(items) => {
                if items.len() > 2 {
                    return None;
                }
                let name = element::<String>(items, 0);
                let versions = element::<Vec<Versions>>(items, 1);
                match (name, versions) {
                    (Some(name), Some(versions)) => Some(Api { name, versions }),
                    _ => None,
                }
            },
            None => {
                let name = field::<String>(v, "name");
                let versions = field::<Vec<Versions>>(v, "versions");
                match (name, versions) {
                    (Some(name), Some(versions)) => Some(Api { name, versions }),
                    _ => None,
                }
            },
        }
    }
}

/// Supported Notification APIs.
#[derive(Debug, Clone, PartialEq, Eq)]
pub struct Notifications {
    /// Name of the API.
    pub name: String,
    pub versions: Vec<Versions>,
}

/// The mathematical value of a [`Notifications`].
pub struct NotificationsView {
    pub name: Seq<char>,
    pub versions: Seq<VersionsView>,
}

impl DeepView for Notifications {
    type V = NotificationsView;

    open spec fn deep_view(&self) -> NotificationsView {
        NotificationsView {
            name: self.name.deep_view(),
            versions: self.versions.deep_view(),
        }
    }
}

impl FromJson for Notifications {
    /// An object with the members `name`, `versions`. Other members are
    /// ignored. Or an array of the values in the order `name`, `versions`,
    /// with none missing and none beyond them.
    open spec fn decoded(doc: Json) -> Option<NotificationsView> {
        match doc.elements() {
            Some(items) => if items.len() <= 2 {
                match (
                    placed::<String>(items, 0),
                    placed::<Vec<Versions>>(items, 1),
                ) {
                    (Some(name), Some(versions)) => Some(NotificationsView { name, versions }),
                    _ => None,
                }
            } else {
                None
            },
            None => match (
                required::<String>(doc, "name"@),
                required::<Vec<Versions>>(doc, "versions"@),
            ) {
                (Some(name), Some(versions)) => Some(NotificationsView { name, versions }),
                _ => None,
            },
        }
    }

    fn from_json(v: &Value) -> (r: Option<Notifications>) {
        match value_as_array(v) {
            Some(items) => {
                if items.len() > 2 {
                    return None;
                }
                let name = element::<String>(items, 0);
                let versions = element::<Vec<Versions>>(items, 1);
                match (name, versions) {
                    (Some(name), Some(versions)) => Some(Notifications { name, versions }),
                    _ => None,
                }
            },
            None => {
                let name = field::<String>(v, "name");
                let versions = field::<Vec<Versions>>(v, "versions");
                match (name, versions) {
                    (Some(name), Some(versions)) => Some(Notifications { name, versions }),
                    _ => None,
                }
            },
        }
    }
}

/// Data related to the service.
#[derive(Debug, Clone, PartialEq, Eq)]
pub struct ServiceData {
    /// Supported APIs.
    pub apis: Vec<Api>,
    pub notifications: Option<Vec<Notifications>>,
    /// Name of the service.
    pub service: String,
    /// Supported transports.
    pub protocols: Vec<String>,
}

/// The mathematical value of a [`ServiceData`].
pub struct ServiceDataView {
    pub apis: Seq<ApiView>,
    pub notifications: Option<Seq<NotificationsView>>,
    pub service: Seq<char>,
    pub protocols: Seq<Seq<char>>,
}

impl DeepView for ServiceData {
    type V = ServiceDataView;

    open spec fn deep_view(&self) -> ServiceDataView {
        ServiceDataView {
            apis: self.apis.deep_view(),
            notifications: self.notifications.deep_view(),
            service: self.service.deep_view(),
            protocols: self.protocols.deep_view(),
        }
    }
}

impl FromJson for ServiceData {
    /// An object with the members `apis`, `service`, `protocols`;
    /// `notifications` may be left out. Other members are ignored. Or an
    /// array of the values in the order `apis`, `notifications`, `service`,
    /// `protocols`, with none missing and none beyond them.
    open spec fn decoded(doc: Json) -> Option<ServiceDataView> {
        match doc.elements() {
            Some(items) => if items.len() <= 4 {
                match (
                    placed::<Vec<Api>>(items, 0),
                    placed::<Option<Vec<Notifications>>>(items, 1),
                    placed::<String>(items, 2),
                    placed::<Vec<String>>(items, 3),
                ) {
                    (Some(apis), Some(notifications), Some(service), Some(protocols)) => Some(
                        ServiceDataView { apis, notifications, service, protocols },
                    ),
                    _ => None,
                }
            } else {
                None
            },
            None => match (
                required::<Vec<Api>>(doc, "apis"@),
                optional::<Vec<Notifications>>(doc, "notifications"@),
                required::<String>(doc, "service"@),
                required::<Vec<String>>(doc, "protocols"@),
            ) {
                (Some(apis), Some(notifications), Some(service), Some(protocols)) => Some(
                    ServiceDataView { apis, notifications, service, protocols },
                ),
                _ => None,
            },
        }
    }

    fn from_json(v: &Value) -> (r: Option<ServiceData>) {
        match value_as_array(v) {
            Some(items) => {
                if items.len() > 4 {
                    return None;
                }
                let apis = element::<Vec<Api>>(items, 0);
                let notifications = element::<Option<Vec<Notifications>>>(items, 1);
                let service = element::<String>(items, 2);
                let protocols = element::<Vec<String>>(items, 3);
                match (apis, notifications, service, protocols) {
                    (Some(apis), Some(notifications), Some(service), Some(protocols)) => Some(
                        ServiceData { apis, notifications, service, protocols },
                    ),
                    _ => None,
                }
            },
            None => {
                let apis = field::<Vec<Api>>(v, "apis");
                let notifications = optional_field::<Vec<Notifications>>(v, "notifications");
                let service = field::<String>(v, "service");
                let protocols = field::<Vec<String>>(v, "protocols");
                match (apis, notifications, service, protocols) {
                    (Some(apis), Some(notifications), Some(service), Some(protocols)) => Some(
                        ServiceData { apis, notifications, service, protocols },
                    ),
                    _ => None,
                }
            },
        }
    }
}

/// Provides access to guide service APIs.
pub struct GuideService<'a>(pub &'a Bravia);

impl<'a> GuideService<'a> {
    pub fn new(bravia: &'a Bravia) -> (r: Self)
        ensures
            r.0 == bravia,
    {
        Self(bravia)
    }

    /// The parameters of a discovery call: the services asked about, where
    /// the caller names any, and else an empty object, which asks about all.
    pub open spec fn supported_api_info_params(services: Option<Seq<Seq<char>>>) -> Json {
        match services {
            Some(names) => Json::empty_object().with("services"@, Json::Array(texts(names))),
            None => Json::empty_object(),
        }
    }

    /// The discovery call: unprotected, at version "1.0", with the list of
    /// services as its value.
    pub open spec fn supported_api_info_request(services: Option<Seq<Seq<char>>>) -> RequestView {
        call(
            "guide"@,
            5,
            "getSupportedApiInfo"@,
            default_version(),
            Some(Self::supported_api_info_params(services)),
            false,
            true,
            RequestGetElementTypeView::first(),
        )
    }

    /// The discovery call as a request, before any client exists.
    pub fn supported_api_info_call(services: &Option<Vec<String>>) -> (r: Request)
        ensures
            r@ == Self::supported_api_info_request(services.deep_view()),
            r.wf(),
    {
        let mut params = map_new();
        if let Some(services) = services {
            map_insert(&mut params, "services", text_list_value(services));
        }
        let body = RequestBodyBuilder::default()
            .id(5)
            .method("getSupportedApiInfo")
            .params(object_value(params))
            .build();
        let request = RequestBuilder::default()
            .endpoint("guide")
            .body(body.unwrap())
            .has_result()
            .build();
        request.unwrap()
    }

    /// This API provides the supported services and their information.
    /// This API is used in the initialization sequence to dynamically
    /// fetch the service compatibility of the server.
    ///
    /// # Arguments
    /// * `services` - Services to fetch API information.\
    /// None or empty vectors are treated as all services.
    ///
    /// # Authentication Level
    /// None
    pub fn get_supported_api_info(&self, services: Option<Vec<String>>) -> (r: Result<
        HttpRequest,
        Error,
    >)
        ensures
            result_view(r) == self.0@.prepared(
                Self::supported_api_info_request(services.deep_view()),
            ),
    {
        self.0.make_request(&Self::supported_api_info_call(&services))
    }

    /// Reads the reply to a discovery call: the services that the device
    /// reported, all of them and in its order. A reply without any service
    /// is a failure.
    pub fn get_supported_api_info_reply(&self, outcome: HttpOutcome) -> (r: Result<
        Vec<ServiceData>,
        Error,
    >)
        ensures
            match r {
                Ok(s) => discovered(outcome@) == Ok::<Seq<ServiceDataView>, ErrorView>(
                    s.deep_view(),
                ),
                Err(e) => discovered(outcome@) == Err::<Seq<ServiceDataView>, ErrorView>(e@),
            },
    {
        read_discovery(outcome)
    }
}

} // verus!
