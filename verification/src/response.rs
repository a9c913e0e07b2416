//! What a reply from the device means: picking the result, recognising an
//! error the device reports, and classifying everything else.

use crate::error::BraviaErrorCode;
use crate::error::Error;
use crate::error::ErrorView;
use crate::json::json_parse;
use crate::json::null_value;
use crate::json::parse_value;
use crate::json::value_as_array;
use crate::json::value_as_str;
use crate::json::value_as_u64;
use crate::json::value_copy;
use crate::json::value_item;
use crate::json::value_member;
use crate::json::value_model;
use crate::json::Json;
use crate::request::RequestGetElementType;
use crate::request::RequestGetElementTypeView;
use crate::transport::is_success;
use crate::transport::status_is_success;
use crate::transport::HttpOutcome;
use crate::transport::HttpOutcomeView;
use serde_json::Value;
use vstd::prelude::*;

verus! {

/// The mathematical value of an outcome whose success carries a JSON value.
pub open spec fn value_result(r: Result<Value, Error>) -> Result<Json, ErrorView> {
    match r {
        Ok(v) => Ok(value_model(v)),
        Err(e) => Err(e@),
    }
}

/// What a policy picks from a result: the element at the index, or the named
/// member of the first element.
pub open spec fn picked(result: Json, get: RequestGetElementTypeView) -> Option<Json> {
    match get {
        RequestGetElementTypeView::Index(i) => result.item(i as int),
        RequestGetElementTypeView::Text(name) => match result.item(0) {
            Some(first) => first.member(name),
            None => None,
        },
    }
}

/// The value a policy yields, or `MissingValue` where the result does not
/// hold it.
pub open spec fn extraction(result: Json, get: RequestGetElementTypeView) -> Result<
    Json,
    ErrorView,
> {
    match picked(result, get) {
        Some(v) => Ok(v),
        None => Err(ErrorView::MissingValue("result values"@)),
    }
}

/// Code and message, where the code is a number that fits `usize` and the
/// message is a string.
pub open spec fn code_and_message(code: Option<Json>, message: Option<Json>) -> Option<
    (usize, Seq<char>),
> {
    match (code, message) {
        (Some(c), Some(m)) => match (c.unsigned(), m.text()) {
            (Some(n), Some(t)) if n <= usize::MAX => Some((n as usize, t)),
            _ => None,
        },
        _ => None,
    }
}

/// The error a device reports, as code and message. Devices send it as the
/// object `{"code", "message"}` or as the array `[code, message]`; other
/// members of the object are ignored, and an array must have exactly the two
/// elements.
pub open spec fn device_error(error: Json) -> Option<(usize, Seq<char>)> {
    match error.elements() {
        Some(s) => if s.len() == 2 {
            code_and_message(Some(s[0]), Some(s[1]))
        } else {
            None
        },
        None => code_and_message(error.member("code"@), error.member("message"@)),
    }
}

/// What a parsed reply means for a call. An `error` is looked for first: it
/// is the device's own rejection, whatever else the reply holds. Without an
/// `error`, the call's value is picked from the `result`, or is null where
/// the call expects none, whatever the result holds. A reply with neither is
/// invalid.
pub open spec fn interpretation(
    reply: Json,
    has_result: bool,
    get: RequestGetElementTypeView,
) -> Result<Json, ErrorView> {
    match reply.member("error"@) {
        Some(error) => match device_error(error) {
            Some((code, message)) => Err(ErrorView::BraviaError(code, message)),
            None => Err(ErrorView::DeserializeError("invalid error description"@)),
        },
        None => match reply.member("result"@) {
            Some(result) => if has_result {
                extraction(result, get)
            } else {
                Ok(Json::Null)
            },
            None => Err(ErrorView::InvalidResponse("Missing result and error fields."@)),
        },
    }
}

/// What the outcome of an exchange means for a call: a failed exchange is a
/// network error with its cause; a status outside 200..=299 is a bad status,
/// whatever the body; a body that is not JSON is a network error with the
/// parser's message; any other body is interpreted as a reply.
pub open spec fn completion(
    outcome: HttpOutcomeView,
    has_result: bool,
    get: RequestGetElementTypeView,
) -> Result<Json, ErrorView> {
    match outcome {
        HttpOutcomeView::Failed(cause) => Err(ErrorView::NetworkError(cause)),
        HttpOutcomeView::Response(status, body) => if !is_success(status) {
            Err(ErrorView::BadStatus(status))
        } else {
            match json_parse(body) {
                Err(message) => Err(ErrorView::NetworkError(message)),
                Ok(reply) => interpretation(reply, has_result, get),
            }
        },
    }
}

/// A reply with neither `result` nor `error` is invalid, whatever the call
/// expects.
pub proof fn lemma_reply_with_neither(reply: Json, has_result: bool, get: RequestGetElementTypeView)
    requires
        reply.member("result"@) is None,
        reply.member("error"@) is None,
    ensures
        interpretation(reply, has_result, get) == Err::<Json, ErrorView>(
            ErrorView::InvalidResponse("Missing result and error fields."@),
        ),
{
}

/// A reply with an `error` is a failure, with or without a `result` beside
/// it: the device's own rejection with its code and message, or, where the
/// error cannot be read as such, a `DeserializeError`.
pub proof fn lemma_reply_with_error(reply: Json, has_result: bool, get: RequestGetElementTypeView)
    requires
        reply.member("error"@) is Some,
    ensures
        interpretation(reply, has_result, get) == match device_error(reply.member("error"@)->0) {
            Some((code, message)) => Err::<Json, ErrorView>(ErrorView::BraviaError(code, message)),
            None => Err::<Json, ErrorView>(
                ErrorView::DeserializeError("invalid error description"@),
            ),
        },
{
}

/// A reply with a `result` and no `error` is read by its result: the value
/// that the policy picks, or null where the call expects none.
pub proof fn lemma_reply_with_result(reply: Json, has_result: bool, get: RequestGetElementTypeView)
    requires
        reply.member("error"@) is None,
        reply.member("result"@) is Some,
    ensures
        has_result ==> interpretation(reply, has_result, get) == extraction(
            reply.member("result"@)->0,
            get,
        ),
        !has_result ==> interpretation(reply, has_result, get) == Ok::<Json, ErrorView>(Json::Null),
{
}

/// Picks from the `result` of a reply the value that the policy names.
pub fn extract(result: &Value, get: &RequestGetElementType) -> (r: Result<Value, Error>)
    ensures
        value_result(r) == extraction(value_model(*result), get@),
{
    let found = match get {
        RequestGetElementType::Index(index) => value_item(result, *index),
        RequestGetElementType::Text(name) => match value_item(result, 0) {
            Some(first) => value_member(first, name.as_str()),
            None => None,
        },
    };
    match found {
        Some(v) => Ok(value_copy(v)),
        None => Err(Error::MissingValue("result values".to_owned())),
    }
}

/// Reads the error that a device reports.
pub fn read_device_error(error: &Value) -> (r: Option<BraviaErrorCode>)
    ensures
        match r {
            Some(e) => device_error(value_model(*error)) == Some((e.code, e.message@)),
            None => device_error(value_model(*error)) is None,
        },
{
    let (code, message) = match value_as_array(error) {
        Some(items) => {
            if items.len() != 2 {
                return None;
            }
            (Some(&items[0]), Some(&items[1]))
        },
        None => (value_member(error, "code"), value_member(error, "message")),
    };
    match (code, message) {
        (Some(c), Some(m)) => match (value_as_u64(c), value_as_str(m)) {
            (Some(n), Some(t)) => {
                if n <= usize::MAX as u64 {
                    Some(BraviaErrorCode { code: n as usize, message: t.to_owned() })
                } else {
                    None
                }
            },
            _ => None,
        },
        _ => None,
    }
}

/// Interprets a parsed reply for a call that does or does not expect a
/// value, and picks the value by the policy.
pub fn interpret(reply: &Value, has_result: bool, get: &RequestGetElementType) -> (r: Result<
    Value,
    Error,
>)
    ensures
        value_result(r) == interpretation(value_model(*reply), has_result, get@),
{
    match value_member(reply, "error") {
        Some(error) => match read_device_error(error) {
            Some(e) => Err(Error::BraviaError(e)),
            None => Err(Error::DeserializeError("invalid error description".to_owned())),
        },
        None => match value_member(reply, "result") {
            Some(result) => {
                if has_result {
                    extract(result, get)
                } else {
                    Ok(null_value())
                }
            },
            None => Err(Error::InvalidResponse("Missing result and error fields.".to_owned())),
        },
    }
}

/// Turns the outcome of an exchange into the call's value or its failure.
pub fn complete(outcome: HttpOutcome, has_result: bool, get: &RequestGetElementType) -> (r:
    Result<Value, Error>)
    ensures
        value_result(r) == completion(outcome@, has_result, get@),
{
    match outcome {
        HttpOutcome::Failed(cause) => Err(Error::NetworkError(cause)),
        HttpOutcome::Response(status, body) => {
            if !status_is_success(status) {
                Err(Error::BadStatus(status))
            } else {
                match parse_value(body.as_str()) {
                    Err(message) => Err(Error::NetworkError(message)),
                    Ok(reply) => interpret(&reply, has_result, get),
                }
            }
        },
    }
}

} // verus!
