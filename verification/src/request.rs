//! The request envelope, the rule by which a result is picked from a reply,
//! and the builders for both.

use crate::error::Error;
use crate::error::ErrorView;
use crate::json::array_value;
use crate::json::map_insert;
use crate::json::map_new;
use crate::json::models;
use crate::json::object_value;
use crate::json::text_value;
use crate::json::unsigned_value;
use crate::json::value_copy;
use crate::json::value_model;
use crate::json::value_text;
use crate::json::json_text;
use crate::json::Json;
use serde_json::Value;
use vstd::prelude::*;

verus! {

/// The version a request carries when the caller names none.
pub open spec fn default_version() -> Seq<char> {
    "1.0"@
}

/// Copies a list of values; the copies hold the same documents.
pub fn copy_values(values: &Vec<Value>) -> (r: Vec<Value>)
    ensures
        models(r@) == models(values@),
{
    let mut out: Vec<Value> = Vec::new();
    let mut i: usize = 0;
    while i < values.len()
        invariant
            i <= values.len(),
            out.len() == i,
            forall|k: int| 0 <= k < i ==> value_model(out[k]) == value_model(values[k]),
        decreases values.len() - i,
    {
        out.push(value_copy(&values[i]));
        i += 1;
    }
    assert(models(out@) =~= models(values@));
    out
}

/// The body of a request: `{"id", "method", "version", "params"}`.
#[derive(Debug, Clone, PartialEq, Eq)]
pub struct RequestBody {
    pub id: usize,
    pub method: String,
    pub version: String,
    /// The parameter object, wrapped in an array: one element, or none.
    pub params: Vec<Value>,
}

/// The mathematical value of a [`RequestBody`].
pub struct RequestBodyView {
    pub id: usize,
    pub method: Seq<char>,
    pub version: Seq<char>,
    pub params: Seq<Json>,
}

impl RequestBodyView {
    /// The JSON object that goes over the wire.
    pub open spec fn envelope(self) -> Json {
        Json::empty_object().with("id"@, Json::Int(self.id as int)).with(
            "method"@,
            Json::Str(self.method),
        ).with("version"@, Json::Str(self.version)).with("params"@, Json::Array(self.params))
    }
}

/// The envelope holds `id`, `method`, `version` and `params`, each as the
/// body has it, and nothing else: the version on the wire is the version of
/// the body, and the parameters are its parameters, in an array.
pub proof fn lemma_envelope_members(body: RequestBodyView)
    ensures
        body.envelope().member("id"@) == Some(Json::Int(body.id as int)),
        body.envelope().member("method"@) == Some(Json::Str(body.method)),
        body.envelope().member("version"@) == Some(Json::Str(body.version)),
        body.envelope().member("params"@) == Some(Json::Array(body.params)),
        forall|name: Seq<char>| #[trigger]
            body.envelope().member(name) is Some ==> name == "id"@ || name == "method"@ || name
                == "version"@ || name == "params"@,
{
    reveal_strlit("id");
    reveal_strlit("method");
    reveal_strlit("version");
    reveal_strlit("params");
    assert("id"@.len() == 2 && "method"@.len() == 6);
    assert("version"@.len() == 7 && "params"@.len() == 6);
    assert("method"@ != "version"@ && "method"@ != "params"@ && "version"@ != "params"@) by {
        assert("method"@[0] != "version"@[0]);
        assert("method"@[0] != "params"@[0]);
        assert("version"@[0] != "params"@[0]);
    }
}

impl View for RequestBody {
    type V = RequestBodyView;

    open spec fn view(&self) -> RequestBodyView {
        RequestBodyView {
            id: self.id,
            method: self.method@,
            version: self.version@,
            params: models(self.params@),
        }
    }
}

impl RequestBody {
    /// The parameters are an array of at most one element.
    pub open spec fn wf(&self) -> bool {
        self.params.len() <= 1
    }

    /// A copy with the same value.
    pub fn duplicate(&self) -> (r: RequestBody)
        ensures
            r@ == self@,
            r.params.len() == self.params.len(),
    {
        let params = copy_values(&self.params);
        assert(params.len() == self.params.len()) by {
            assert(models(params@).len() == models(self.params@).len());
        }
        RequestBody {
            id: self.id,
            method: self.method.clone(),
            version: self.version.clone(),
            params,
        }
    }

    /// The envelope as a JSON value.
    pub fn to_value(&self) -> (r: Value)
        ensures
            value_model(r) == self@.envelope(),
    {
        let mut m = map_new();
        map_insert(&mut m, "id", unsigned_value(self.id as u64));
        map_insert(&mut m, "method", text_value(self.method.as_str()));
        map_insert(&mut m, "version", text_value(self.version.as_str()));
        map_insert(&mut m, "params", array_value(copy_values(&self.params)));
        object_value(m)
    }

    /// The envelope as the JSON text that is sent.
    pub fn to_text(&self) -> (s: String)
        ensures
            s@ == json_text(self@.envelope()),
    {
        let v = self.to_value();
        value_text(&v)
    }
}

/// Collects the fields of a [`RequestBody`] one by one.
#[derive(Debug, Clone, PartialEq, Eq)]
pub struct RequestBodyBuilder {
    pub id: Option<usize>,
    pub method: Option<String>,
    pub version: Option<String>,
    pub params: Option<Vec<Value>>,
}

/// The mathematical value of a [`RequestBodyBuilder`].
pub struct RequestBodyBuilderView {
    pub id: Option<usize>,
    pub method: Option<Seq<char>>,
    pub version: Option<Seq<char>>,
    pub params: Option<Seq<Json>>,
}

impl RequestBodyBuilderView {
    /// What `build` makes of the fields: `id` and `method` are required, in
    /// that order; the version defaults to "1.0" and the parameters to none.
    pub open spec fn built(self) -> Result<RequestBodyView, ErrorView> {
        if self.id is None {
            Err(ErrorView::FieldInitialization("id"@))
        } else if self.method is None {
            Err(ErrorView::FieldInitialization("method"@))
        } else {
            Ok(
                RequestBodyView {
                    id: self.id->0,
                    method: self.method->0,
                    version: match self.version {
                        Some(v) => v,
                        None => default_version(),
                    },
                    params: match self.params {
                        Some(p) => p,
                        None => Seq::empty(),
                    },
                },
            )
        }
    }
}

impl View for RequestBodyBuilder {
    type V = RequestBodyBuilderView;

    open spec fn view(&self) -> RequestBodyBuilderView {
        RequestBodyBuilderView {
            id: self.id,
            method: match self.method {
                Some(m) => Some(m@),
                None => None,
            },
            version: match self.version {
                Some(v) => Some(v@),
                None => None,
            },
            params: match self.params {
                Some(p) => Some(models(p@)),
                None => None,
            },
        }
    }
}

impl Default for RequestBodyBuilder {
    fn default() -> (r: Self)
        ensures
            r@ == (RequestBodyBuilderView { id: None, method: None, version: None, params: None }),
            r.wf(),
    {
        RequestBodyBuilder { id: None, method: None, version: None, params: None }
    }
}

impl RequestBodyBuilder {
    /// Parameters, where set, are an array of at most one element.
    pub open spec fn wf(&self) -> bool {
        match self.params {
            Some(p) => p.len() <= 1,
            None => true,
        }
    }

    /// Sets the request id.
    pub fn id(&mut self, value: usize) -> (r: &mut Self)
        ensures
            r@ == (RequestBodyBuilderView { id: Some(value), ..old(self)@ }),
            r.wf() == old(self).wf(),
            *final(self) == *final(r),
    {
        self.id = Some(value);
        self
    }

    /// Sets the name of the API to call.
    pub fn method(&mut self, value: &str) -> (r: &mut Self)
        ensures
            r@ == (RequestBodyBuilderView { method: Some(value@), ..old(self)@ }),
            r.wf() == old(self).wf(),
            *final(self) == *final(r),
    {
        self.method = Some(value.to_owned());
        self
    }

    /// Sets the version; `None` stands for "1.0".
    pub fn version(&mut self, value: Option<&str>) -> (r: &mut Self)
        ensures
            r@ == (RequestBodyBuilderView {
                version: Some(
                    match value {
                        Some(v) => v@,
                        None => default_version(),
                    },
                ),
                ..old(self)@
            }),
            r.wf() == old(self).wf(),
            *final(self) == *final(r),
    {
        self.version = match value {
            Some(v) => Some(v.to_owned()),
            None => Some("1.0".to_owned()),
        };
        self
    }

    /// Sets the parameter object; it goes into the envelope as the only
    /// element of an array.
    pub fn params(&mut self, values: Value) -> (r: &mut Self)
        ensures
            r@ == (RequestBodyBuilderView {
                params: Some(seq![value_model(values)]),
                ..old(self)@
            }),
            r.wf(),
            *final(self) == *final(r),
    {
        let mut v: Vec<Value> = Vec::new();
        v.push(values);
        assert(models(v@) =~= seq![value_model(values)]);
        self.params = Some(v);
        self
    }

    /// Makes the body, or names the first required field that has no value.
    pub fn build(&self) -> (r: Result<RequestBody, Error>)
        ensures
            crate::error::result_view(r) == self@.built(),
            self.wf() && r is Ok ==> r->Ok_0.wf(),
    {
        let id = match self.id {
            Some(i) => i,
            None => {
                return Err(Error::FieldInitialization("id".to_owned()));
            },
        };
        let method = match &self.method {
            Some(m) => m.clone(),
            None => {
                return Err(Error::FieldInitialization("method".to_owned()));
            },
        };
        let version = match &self.version {
            Some(v) => v.clone(),
            None => "1.0".to_owned(),
        };
        let params = match &self.params {
            Some(p) => {
                let c = copy_values(p);
                assert(c.len() == p.len()) by {
                    assert(models(c@).len() == models(p@).len());
                }
                c
            },
            None => {
                let e: Vec<Value> = Vec::new();
                assert(models(e@) =~= Seq::<Json>::empty());
                e
            },
        };
        Ok(RequestBody { id, method, version, params })
    }
}

/// How the useful value is picked from the `result` array of a reply.
#[derive(Debug, Clone, PartialEq, Eq)]
pub enum RequestGetElementType {
    /// The element at this position of the array.
    Index(usize),
    /// The member of this name in the first element of the array.
    Text(String),
}

/// The mathematical value of a [`RequestGetElementType`].
pub enum RequestGetElementTypeView {
    Index(usize),
    Text(Seq<char>),
}

impl View for RequestGetElementType {
    type V = RequestGetElementTypeView;

    open spec fn view(&self) -> RequestGetElementTypeView {
        match self {
            RequestGetElementType::Index(i) => RequestGetElementTypeView::Index(*i),
            RequestGetElementType::Text(s) => RequestGetElementTypeView::Text(s@),
        }
    }
}

impl RequestGetElementTypeView {
    /// The policy of a request that names none: the first element.
    pub open spec fn first() -> RequestGetElementTypeView {
        RequestGetElementTypeView::Index(0)
    }
}

impl RequestGetElementType {
    /// A copy with the same value.
    pub fn duplicate(&self) -> (r: RequestGetElementType)
        ensures
            r@ == self@,
    {
        match self {
            RequestGetElementType::Index(i) => RequestGetElementType::Index(*i),
            RequestGetElementType::Text(s) => RequestGetElementType::Text(s.clone()),
        }
    }
}

/// A `String` cannot be written down in a specification, so the conversion
/// states its result over the view, in `from`'s own `ensures`.
impl<'a> vstd::std_specs::convert::FromSpecImpl<&'a str> for RequestGetElementType {
    open spec fn obeys_from_spec() -> bool {
        false
    }

    open spec fn from_spec(value: &'a str) -> Self {
        RequestGetElementType::Index(0)
    }
}

impl<'a> From<&'a str> for RequestGetElementType {
    fn from(value: &'a str) -> (r: Self)
        ensures
            r@ == RequestGetElementTypeView::Text(value@),
    {
        RequestGetElementType::Text(value.to_owned())
    }
}

impl vstd::std_specs::convert::FromSpecImpl<usize> for RequestGetElementType {
    open spec fn obeys_from_spec() -> bool {
        true
    }

    open spec fn from_spec(value: usize) -> Self {
        RequestGetElementType::Index(value)
    }
}

impl From<usize> for RequestGetElementType {
    fn from(value: usize) -> (r: Self)
        ensures
            r@ == RequestGetElementTypeView::Index(value),
    {
        RequestGetElementType::Index(value)
    }
}

/// One call, as a call site describes it: where it goes, what it carries,
/// whether it needs the password, whether a value is expected back and how
/// that value is found.
#[derive(Debug, Clone, PartialEq, Eq)]
pub struct Request {
    pub endpoint: String,
    pub body: RequestBody,
    /// Whether the call needs authentication.
    pub is_protected: bool,
    /// Whether the call expects a value in the reply.
    pub has_result: bool,
    pub get: RequestGetElementType,
}

/// The mathematical value of a [`Request`].
pub struct RequestView {
    pub endpoint: Seq<char>,
    pub body: RequestBodyView,
    pub is_protected: bool,
    pub has_result: bool,
    pub get: RequestGetElementTypeView,
}

impl View for Request {
    type V = RequestView;

    open spec fn view(&self) -> RequestView {
        RequestView {
            endpoint: self.endpoint@,
            body: self.body@,
            is_protected: self.is_protected,
            has_result: self.has_result,
            get: self.get@,
        }
    }
}

impl Request {
    /// The body's parameters are an array of at most one element.
    pub open spec fn wf(&self) -> bool {
        self.body.wf()
    }
}

/// Collects the fields of a [`Request`] one by one.
#[derive(Debug, Clone, PartialEq, Eq)]
pub struct RequestBuilder {
    pub endpoint: Option<String>,
    pub body: Option<RequestBody>,
    pub is_protected: Option<bool>,
    pub has_result: Option<bool>,
    pub get: Option<RequestGetElementType>,
}

/// The mathematical value of a [`RequestBuilder`].
pub struct RequestBuilderView {
    pub endpoint: Option<Seq<char>>,
    pub body: Option<RequestBodyView>,
    pub is_protected: Option<bool>,
    pub has_result: Option<bool>,
    pub get: Option<RequestGetElementTypeView>,
}

impl RequestBuilderView {
    /// What `build` makes of the fields: `endpoint` and `body` are required,
    /// in that order; a call is unprotected and expects no result unless
    /// told otherwise, and picks the first element of a result.
    pub open spec fn built(self) -> Result<RequestView, ErrorView> {
        if self.endpoint is None {
            Err(ErrorView::FieldInitialization("endpoint"@))
        } else if self.body is None {
            Err(ErrorView::FieldInitialization("body"@))
        } else {
            Ok(
                RequestView {
                    endpoint: self.endpoint->0,
                    body: self.body->0,
                    is_protected: match self.is_protected {
                        Some(b) => b,
                        None => false,
                    },
                    has_result: match self.has_result {
                        Some(b) => b,
                        None => false,
                    },
                    get: match self.get {
                        Some(g) => g,
                        None => RequestGetElementTypeView::first(),
                    },
                },
            )
        }
    }
}

impl View for RequestBuilder {
    type V = RequestBuilderView;

    open spec fn view(&self) -> RequestBuilderView {
        RequestBuilderView {
            endpoint: match self.endpoint {
                Some(e) => Some(e@),
                None => None,
            },
            body: match self.body {
                Some(b) => Some(b@),
                None => None,
            },
            is_protected: self.is_protected,
            has_result: self.has_result,
            get: match self.get {
                Some(g) => Some(g@),
                None => None,
            },
        }
    }
}

impl Default for RequestBuilder {
    fn default() -> (r: Self)
        ensures
            r@ == (RequestBuilderView {
                endpoint: None,
                body: None,
                is_protected: None,
                has_result: None,
                get: None,
            }),
            r.wf(),
    {
        RequestBuilder {
            endpoint: None,
            body: None,
            is_protected: None,
            has_result: None,
            get: None,
        }
    }
}

impl RequestBuilder {
    /// The body, where set, is well formed.
    pub open spec fn wf(&self) -> bool {
        match self.body {
            Some(b) => b.wf(),
            None => true,
        }
    }

    /// Sets the service the call goes to.
    pub fn endpoint(&mut self, value: &str) -> (r: &mut Self)
        ensures
            r@ == (RequestBuilderView { endpoint: Some(value@), ..old(self)@ }),
            r.wf() == old(self).wf(),
            *final(self) == *final(r),
    {
        self.endpoint = Some(value.to_owned());
        self
    }

    /// Sets the body.
    pub fn body(&mut self, value: RequestBody) -> (r: &mut Self)
        ensures
            r@ == (RequestBuilderView { body: Some(value@), ..old(self)@ }),
            r.wf() == value.wf(),
            *final(self) == *final(r),
    {
        self.body = Some(value);
        self
    }

    /// Marks the call as one that needs the password.
    pub fn is_protected(&mut self) -> (r: &mut Self)
        ensures
            r@ == (RequestBuilderView { is_protected: Some(true), ..old(self)@ }),
            r.wf() == old(self).wf(),
            *final(self) == *final(r),
    {
        self.is_protected = Some(true);
        self
    }

    /// Marks the call as one that expects a value in the reply.
    pub fn has_result(&mut self) -> (r: &mut Self)
        ensures
            r@ == (RequestBuilderView { has_result: Some(true), ..old(self)@ }),
            r.wf() == old(self).wf(),
            *final(self) == *final(r),
    {
        self.has_result = Some(true);
        self
    }

    /// Sets how the value is picked from the result.
    pub fn get(&mut self, value: RequestGetElementType) -> (r: &mut Self)
        ensures
            r@ == (RequestBuilderView { get: Some(value@), ..old(self)@ }),
            r.wf() == old(self).wf(),
            *final(self) == *final(r),
    {
        self.get = Some(value);
        self
    }

    /// Makes the request, or names the first required field that has no
    /// value.
    pub fn build(&self) -> (r: Result<Request, Error>)
        ensures
            crate::error::result_view(r) == self@.built(),
            self.wf() && r is Ok ==> r->Ok_0.wf(),
    {
        let endpoint = match &self.endpoint {
            Some(e) => e.clone(),
            None => {
                return Err(Error::FieldInitialization("endpoint".to_owned()));
            },
        };
        let body = match &self.body {
            Some(b) => b.duplicate(),
            None => {
                return Err(Error::FieldInitialization("body".to_owned()));
            },
        };
        let is_protected = match self.is_protected {
            Some(b) => b,
            None => false,
        };
        let has_result = match self.has_result {
            Some(b) => b,
            None => false,
        };
        let get = match &self.get {
            Some(g) => g.duplicate(),
            None => RequestGetElementType::Index(0),
        };
        Ok(Request { endpoint, body, is_protected, has_result, get })
    }
}

} // verus!
