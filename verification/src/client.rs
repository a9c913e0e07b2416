//! The client: what it knows about one device, and the two halves of every
//! call, before and after the exchange.

use crate::app_control::AppControlService;
use crate::audio::AudioService;
use crate::av_content::AvContentService;
use crate::capability::offers;
use crate::capability::support_of;
use crate::capability::verdict;
use crate::capability::ApiSupport;
use crate::capability::Support;
use crate::decode::FromJson;
use crate::encryption::EncryptionService;
use crate::error::result_view;
use crate::error::Error;
use crate::error::ErrorView;
use crate::guide::GuideService;
use crate::guide::ServiceData;
use crate::guide::ServiceDataView;
use crate::json::json_text;
use crate::request::Request;
use crate::request::RequestBuilder;
use crate::request::RequestGetElementType;
use crate::request::RequestGetElementTypeView;
use crate::request::RequestView;
use crate::response::complete;
use crate::response::completion;
use crate::response::value_result;
use crate::system::SystemService;
use crate::transport::HttpOutcome;
use crate::transport::HttpOutcomeView;
use crate::transport::HttpRequest;
use crate::transport::HttpRequestView;
use crate::video::VideoService;
use crate::video_screen::VideoScreenService;
use serde_json::Value;
use vstd::prelude::*;
use vstd::string::StringExecFns;

verus! {

/// The API by which a device tells what it supports. It is the one call that
/// is never tested against the cache, which it fills.
pub open spec fn discovery_method() -> Seq<char> {
    "getSupportedApiInfo"@
}

/// The address under which the services of a device live.
pub open spec fn base_url_of(address: Seq<char>) -> Seq<char> {
    address + "/sony/"@
}

/// The first gate of a call: the cache must hold the API of that service at
/// that version. Discovery passes unchecked.
pub open spec fn admitted(support: Support, req: RequestView) -> Result<(), ErrorView> {
    if req.body.method == discovery_method() {
        Ok(())
    } else {
        verdict(support, req.endpoint, req.body.method, req.body.version)
    }
}

/// The second gate of a call: a protected call needs a stored password that
/// is not empty, and carries it; any other call carries the empty text.
pub open spec fn credential(auth: Option<Seq<char>>, is_protected: bool) -> Result<
    Seq<char>,
    ErrorView,
> {
    if is_protected {
        match auth {
            Some(a) if a.len() > 0 => Ok(a),
            _ => Err(ErrorView::BraviaAuthLevelError),
        }
    } else {
        Ok(Seq::empty())
    }
}

/// What is sent for a call, or the failure that keeps it from being sent. The
/// cache is asked first, then the password; only a call that passes both
/// becomes a request, to the service's path below the base address, with the
/// envelope as its body.
pub open spec fn prepared(
    base_url: Seq<char>,
    auth: Option<Seq<char>>,
    support: Support,
    req: RequestView,
) -> Result<HttpRequestView, ErrorView> {
    match admitted(support, req) {
        Err(e) => Err(e),
        Ok(()) => match credential(auth, req.is_protected) {
            Err(e) => Err(e),
            Ok(a) => Ok(
                HttpRequestView {
                    url: base_url + req.endpoint,
                    auth: a,
                    body: json_text(req.body.envelope()),
                },
            ),
        },
    }
}

/// The services that a discovery exchange reports: the first element of the
/// reply's result, read as a list of service descriptions. An empty list is
/// a failure.
pub open spec fn discovered(outcome: HttpOutcomeView) -> Result<Seq<ServiceDataView>, ErrorView> {
    match completion(outcome, true, RequestGetElementTypeView::first()) {
        Err(e) => Err(e),
        Ok(doc) => match Vec::<ServiceData>::decoded(doc) {
            None => Err(ErrorView::DeserializeError("invalid service list"@)),
            Some(services) => if services.len() == 0 {
                Err(ErrorView::MissingValue("apis"@))
            } else {
                Ok(services)
            },
        },
    }
}

/// Reads the outcome of a discovery exchange.
pub fn read_discovery(outcome: HttpOutcome) -> (r: Result<Vec<ServiceData>, Error>)
    ensures
        match r {
            Ok(s) => discovered(outcome@) == Ok::<Seq<ServiceDataView>, ErrorView>(s.deep_view()),
            Err(e) => discovered(outcome@) == Err::<Seq<ServiceDataView>, ErrorView>(e@),
        },
{
    let value = match complete(outcome, true, &RequestGetElementType::Index(0)) {
        Ok(v) => v,
        Err(e) => {
            return Err(e);
        },
    };
    match Vec::<ServiceData>::from_json(&value) {
        None => Err(Error::DeserializeError("invalid service list".to_owned())),
        Some(services) => {
            if services.len() == 0 {
                Err(Error::MissingValue("apis".to_owned()))
            } else {
                Ok(services)
            }
        },
    }
}

/// Applies the two gates and, where the call passes, makes the request.
pub fn prepare(base_url: &str, auth: &Option<String>, support: &ApiSupport, req: &Request) -> (r:
    Result<HttpRequest, Error>)
    ensures
        result_view(r) == prepared(base_url@, auth.deep_view(), support@, req@),
{
    if req.body.method != "getSupportedApiInfo".to_owned() {
        match support.check(
            req.endpoint.as_str(),
            req.body.method.as_str(),
            req.body.version.as_str(),
        ) {
            Ok(()) => {},
            Err(e) => {
                return Err(e);
            },
        }
    }
    let auth_value = if req.is_protected {
        match auth {
            Some(value) => {
                if value.as_str().is_empty() {
                    return Err(Error::BraviaAuthLevelError);
                }
                value.clone()
            },
            None => {
                return Err(Error::BraviaAuthLevelError);
            },
        }
    } else {
        String::new()
    };
    let mut url = base_url.to_owned();
    url.append(req.endpoint.as_str());
    Ok(HttpRequest { url, auth: auth_value, body: req.body.to_text() })
}

/// The request of the discovery exchange: to the guide service below the
/// address, about all services, without a password.
pub open spec fn discovery_request(address: Seq<char>) -> HttpRequestView {
    HttpRequestView {
        url: base_url_of(address) + "guide"@,
        auth: Seq::empty(),
        body: json_text(GuideService::supported_api_info_request(None).body.envelope()),
    }
}

/// A client for one device.
#[derive(Debug, PartialEq, Eq)]
pub struct Bravia {
    base_url: String,
    auth: Option<String>,
    api_support: ApiSupport,
}

/// The mathematical value of a [`Bravia`].
pub struct BraviaView {
    pub base_url: Seq<char>,
    pub auth: Option<Seq<char>>,
    pub support: Support,
}

impl BraviaView {
    /// What this client sends for a call, or the failure that keeps the call
    /// from being sent.
    pub open spec fn prepared(self, req: RequestView) -> Result<HttpRequestView, ErrorView> {
        prepared(self.base_url, self.auth, self.support, req)
    }

    /// The client that a discovery exchange yields, or the failure that
    /// keeps it from being made.
    pub open spec fn connected(
        address: Seq<char>,
        auth: Option<Seq<char>>,
        discovery: HttpOutcomeView,
    ) -> Result<BraviaView, ErrorView> {
        match discovered(discovery) {
            Err(e) => Err(e),
            Ok(services) => Ok(
                BraviaView { base_url: base_url_of(address), auth, support: support_of(services) },
            ),
        }
    }
}

impl View for Bravia {
    type V = BraviaView;

    closed spec fn view(&self) -> BraviaView {
        BraviaView {
            base_url: self.base_url@,
            auth: self.auth.deep_view(),
            support: self.api_support@,
        }
    }
}

impl Bravia {
    /// The request to send to the device at `address` before a client for it
    /// can be made: discovery of all its services.
    pub fn discovery(address: &str) -> (r: HttpRequest)
        ensures
            r@ == discovery_request(address@),
    {
        let mut base_url = address.to_owned();
        base_url.append("/sony/");
        let call = GuideService::supported_api_info_call(&None);
        let sent = prepare(base_url.as_str(), &None, &ApiSupport::new(), &call);
        sent.unwrap()
    }

    /// Makes a client from the outcome of the discovery exchange with the
    /// device at `address`. The client exists only where discovery reported
    /// at least one service; its cache then holds what was reported and is
    /// never changed.
    ///
    /// # Arguments
    /// * `address` - Server address.
    /// * `auth` - Server password.\
    /// Only needed when the API authentication level is not `None`.
    /// * `discovery` - How the exchange of [`Bravia::discovery`] ended.
    pub fn new(address: &str, auth: Option<&str>, discovery: HttpOutcome) -> (r: Result<
        Bravia,
        Error,
    >)
        ensures
            result_view(r) == BraviaView::connected(address@, auth.deep_view(), discovery@),
            r is Ok ==> !(r->Ok_0@.support =~= Map::empty()),
    {
        let services = match read_discovery(discovery) {
            Ok(s) => s,
            Err(e) => {
                return Err(e);
            },
        };
        let mut base_url = address.to_owned();
        base_url.append("/sony/");
        let auth = match auth {
            Some(a) => Some(a.to_owned()),
            None => None,
        };
        let api_support = ApiSupport::from_services(&services);
        proof {
            crate::capability::lemma_support_of_nonempty(services.deep_view());
        }
        Ok(Bravia { base_url, auth, api_support })
    }

    pub fn guide(&self) -> (r: GuideService<'_>)
        ensures
            r.0 == self,
    {
        GuideService::new(self)
    }

    pub fn app_control(&self) -> (r: AppControlService<'_>)
        ensures
            r.0 == self,
    {
        AppControlService::new(self)
    }

    pub fn audio(&self) -> (r: AudioService<'_>)
        ensures
            r.0 == self,
    {
        AudioService::new(self)
    }

    pub fn av_content(&self) -> (r: AvContentService<'_>)
        ensures
            r.0 == self,
    {
        AvContentService::new(self)
    }

    pub fn encryption(&self) -> (r: EncryptionService<'_>)
        ensures
            r.0 == self,
    {
        EncryptionService::new(self)
    }

    pub fn system(&self) -> (r: SystemService<'_>)
        ensures
            r.0 == self,
    {
        SystemService::new(self)
    }

    pub fn video(&self) -> (r: VideoService<'_>)
        ensures
            r.0 == self,
    {
        VideoService::new(self)
    }

    pub fn video_screen(&self) -> (r: VideoScreenService<'_>)
        ensures
            r.0 == self,
    {
        VideoScreenService::new(self)
    }

    /// Checks if the API is supported by checking the cached API level.
    pub fn is_api_supported(&self, service: &str, api: &str, api_level: &str) -> (r: Result<
        (),
        Error,
    >)
        ensures
            result_view(r) == verdict(self@.support, service@, api@, api_level@),
    {
        self.api_support.check(service, api, api_level)
    }

    /// The first half of a call: tests it against the cache and the stored
    /// password, and makes the request to send. Nothing is to be sent for a
    /// call that fails here.
    pub fn make_request(&self, req: &Request) -> (r: Result<HttpRequest, Error>)
        ensures
            result_view(r) == self@.prepared(req@),
    {
        prepare(self.base_url.as_str(), &self.auth, &self.api_support, req)
    }

    /// The second half of a call: what the outcome of the exchange means for
    /// it.
    pub fn read_response(req: &Request, outcome: HttpOutcome) -> (r: Result<Value, Error>)
        ensures
            value_result(r) == completion(outcome@, req@.has_result, req@.get),
    {
        complete(outcome, req.has_result, &req.get)
    }
}

/// A call that the cache does not hold is refused before anything is made to
/// send, with the failure that names what is missing. Discovery is the one
/// call that the cache is not asked about.
pub proof fn lemma_unsupported_call_is_refused(client: BraviaView, req: RequestView)
    requires
        req.body.method != discovery_method(),
        !offers(client.support, req.endpoint, req.body.method, req.body.version),
    ensures
        client.prepared(req) is Err,
        client.prepared(req)->Err_0 == verdict(
            client.support,
            req.endpoint,
            req.body.method,
            req.body.version,
        )->Err_0,
        client.prepared(req)->Err_0 == ErrorView::BraviaApiServiceNotFound || client.prepared(
            req,
        )->Err_0 == ErrorView::BraviaApiNotFound || client.prepared(req)->Err_0
            == ErrorView::BraviaApiLevelError,
{
}

/// Whatever is made to send was found in the cache, or is discovery itself.
pub proof fn lemma_sent_call_is_supported(client: BraviaView, req: RequestView)
    requires
        client.prepared(req) is Ok,
    ensures
        req.body.method == discovery_method() || offers(
            client.support,
            req.endpoint,
            req.body.method,
            req.body.version,
        ),
{
}

/// A client without a password sends no protected call. Where the cache
/// admits the call, the failure is the missing password; where it does not,
/// the cache's refusal comes first.
pub proof fn lemma_protected_call_needs_password(client: BraviaView, req: RequestView)
    requires
        req.is_protected,
        client.auth is None,
    ensures
        client.prepared(req) is Err,
        admitted(client.support, req) is Ok ==> client.prepared(req) == Err::<
            HttpRequestView,
            ErrorView,
        >(ErrorView::BraviaAuthLevelError),
{
}

/// A protected call that is made to send carries the stored password, which
/// is not empty; any other call carries the empty text.
pub proof fn lemma_sent_call_carries_password(client: BraviaView, req: RequestView)
    requires
        client.prepared(req) is Ok,
    ensures
        req.is_protected ==> client.auth == Some(client.prepared(req)->Ok_0.auth)
            && client.prepared(req)->Ok_0.auth.len() > 0,
        !req.is_protected ==> client.prepared(req)->Ok_0.auth.len() == 0,
        client.prepared(req)->Ok_0.url == client.base_url + req.endpoint,
        client.prepared(req)->Ok_0.body == json_text(req.body.envelope()),
{
}

impl RequestBuilder {
    /// Builds the request and takes it through the first half of a call.
    pub fn make(&mut self, bravia: &Bravia) -> (r: Result<HttpRequest, Error>)
        ensures
            result_view(r) == match old(self)@.built() {
                Ok(req) => bravia@.prepared(req),
                Err(e) => Err(e),
            },
            *final(self) == *old(self),
    {
        match self.build() {
            Ok(request) => bravia.make_request(&request),
            Err(e) => Err(e),
        }
    }
}

} // verus!
