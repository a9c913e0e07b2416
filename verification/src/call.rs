//! What all call sites share: the shape of a call, JSON values for
//! parameters, and typed reading of a reply.

use crate::decode::FromJson;
use crate::error::Error;
use crate::error::ErrorView;
use crate::json::array_value;
use crate::json::null_value;
use crate::json::text_value;
use crate::json::value_model;
use crate::json::Json;
use crate::request::default_version;
use crate::request::RequestBodyView;
use crate::request::RequestGetElementType;
use crate::request::RequestGetElementTypeView;
use crate::request::RequestView;
use crate::response::complete;
use crate::response::completion;
use crate::transport::HttpOutcome;
use serde_json::Value;
use vstd::prelude::*;

verus! {

/// The version that goes into the envelope: the caller's, or "1.0".
pub open spec fn version_or_default(version: Option<Seq<char>>) -> Seq<char> {
    match version {
        Some(v) => v,
        None => default_version(),
    }
}

/// The parameters of an envelope: the one object in an array, or nothing.
pub open spec fn wrapped(params: Option<Json>) -> Seq<Json> {
    match params {
        Some(p) => seq![p],
        None => Seq::empty(),
    }
}

/// One call as a call site describes it.
pub open spec fn call(
    endpoint: Seq<char>,
    id: usize,
    method: Seq<char>,
    version: Seq<char>,
    params: Option<Json>,
    is_protected: bool,
    has_result: bool,
    get: RequestGetElementTypeView,
) -> RequestView {
    RequestView {
        endpoint,
        body: RequestBodyView { id, method, version, params: wrapped(params) },
        is_protected,
        has_result,
        get,
    }
}

/// Whether two texts are the same.
pub fn same(a: &str, b: &str) -> (r: bool)
    ensures
        r == (a@ == b@),
{
    a.to_owned() == b.to_owned()
}

/// Whether the caller asked for exactly this version.
pub fn is_version(version: Option<&str>, wanted: &str) -> (r: bool)
    ensures
        r == (version.deep_view() == Some(wanted@)),
{
    match version {
        Some(v) => same(v, wanted),
        None => false,
    }
}

/// The string values for a list of texts.
pub open spec fn texts(items: Seq<Seq<char>>) -> Seq<Json> {
    Seq::new(items.len(), |i: int| Json::Str(items[i]))
}

/// A text, or null where there is none.
pub open spec fn text_or_null(text: Option<Seq<char>>) -> Json {
    match text {
        Some(t) => Json::Str(t),
        None => Json::Null,
    }
}

/// The array of string values for a list of texts.
pub fn text_list_value(items: &Vec<String>) -> (r: Value)
    ensures
        value_model(r) == Json::Array(texts(items.deep_view())),
{
    let mut out: Vec<Value> = Vec::new();
    let mut i: usize = 0;
    while i < items.len()
        invariant
            i <= items.len(),
            out.len() == i,
            forall|k: int| 0 <= k < i ==> value_model(out[k]) == Json::Str(items[k]@),
        decreases items.len() - i,
    {
        out.push(text_value(items[i].as_str()));
        i += 1;
    }
    assert(crate::json::models(out@) =~= texts(items.deep_view()));
    array_value(out)
}

/// The string value for a text, or null where there is none.
pub fn optional_text_value(text: &Option<String>) -> (r: Value)
    ensures
        value_model(r) == text_or_null(text.deep_view()),
{
    match text {
        Some(t) => text_value(t.as_str()),
        None => null_value(),
    }
}

/// The mathematical value of an outcome whose success carries a typed value.
pub open spec fn typed_view<T: DeepView>(r: Result<T, Error>) -> Result<T::V, ErrorView> {
    match r {
        Ok(t) => Ok(t.deep_view()),
        Err(e) => Err(e@),
    }
}

/// A call's value read as a `T`: a failure stays what it is, and a value
/// that does not have the shape of `T` is a `DeserializeError`.
pub open spec fn typed<T: FromJson>(value: Result<Json, ErrorView>) -> Result<T::V, ErrorView> {
    match value {
        Err(e) => Err(e),
        Ok(doc) => match T::decoded(doc) {
            Some(t) => Ok(t),
            None => Err(ErrorView::DeserializeError("unexpected shape of the result"@)),
        },
    }
}

/// A call's outcome where the value is of no interest.
pub open spec fn done(value: Result<Json, ErrorView>) -> Result<(), ErrorView> {
    match value {
        Err(e) => Err(e),
        Ok(_) => Ok(()),
    }
}

/// Reads a JSON value as a `T`.
pub fn read_typed<T: FromJson>(value: &Value) -> (r: Result<T, Error>)
    ensures
        typed_view(r) == typed::<T>(Ok(value_model(*value))),
{
    match T::from_json(value) {
        Some(t) => Ok(t),
        None => Err(Error::DeserializeError("unexpected shape of the result".to_owned())),
    }
}

/// Turns the outcome of an exchange into the typed value of a call.
pub fn typed_reply<T: FromJson>(
    outcome: HttpOutcome,
    has_result: bool,
    get: &RequestGetElementType,
) -> (r: Result<T, Error>)
    ensures
        typed_view(r) == typed::<T>(completion(outcome@, has_result, get@)),
{
    match complete(outcome, has_result, get) {
        Ok(value) => read_typed::<T>(&value),
        Err(e) => Err(e),
    }
}

/// Turns the outcome of an exchange into success or failure of a call whose
/// value is of no interest.
pub fn unit_reply(outcome: HttpOutcome, has_result: bool, get: &RequestGetElementType) -> (r:
    Result<(), Error>)
    ensures
        crate::error::result_view(r) == done(completion(outcome@, has_result, get@)),
{
    match complete(outcome, has_result, get) {
        Ok(_) => Ok(()),
        Err(e) => Err(e),
    }
}

} // verus!
