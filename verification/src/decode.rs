//! Reading typed values out of JSON: which documents have the shape of a
//! type, and the value each of them stands for.

use crate::json::value_as_array;
use crate::json::value_as_bool;
use crate::json::value_as_i64;
use crate::json::value_as_str;
use crate::json::value_as_u64;
use crate::json::value_is_null;
use crate::json::value_member;
use crate::json::value_model;
use crate::json::Json;
use serde_json::Value;
use vstd::prelude::*;

verus! {

/// A type whose values can be read from JSON.
pub trait FromJson: Sized + DeepView {
    /// The value that a document stands for, or `None` where the document
    /// does not have the shape of this type.
    spec fn decoded(doc: Json) -> Option<Self::V>;

    /// Reads a value. It succeeds on exactly the documents that have the
    /// shape of the type.
    fn from_json(v: &Value) -> (r: Option<Self>)
        ensures
            r.deep_view() == Self::decoded(value_model(*v)),
    ;
}

impl FromJson for String {
    /// A string value.
    open spec fn decoded(doc: Json) -> Option<Seq<char>> {
        doc.text()
    }

    fn from_json(v: &Value) -> (r: Option<String>) {
        match value_as_str(v) {
            Some(s) => Some(s.to_owned()),
            None => None,
        }
    }
}

impl FromJson for bool {
    /// A boolean.
    open spec fn decoded(doc: Json) -> Option<bool> {
        doc.truth()
    }

    fn from_json(v: &Value) -> (r: Option<bool>) {
        value_as_bool(v)
    }
}

impl FromJson for usize {
    /// A whole number from 0 to `usize::MAX`.
    open spec fn decoded(doc: Json) -> Option<usize> {
        match doc.unsigned() {
            Some(n) if n <= usize::MAX => Some(n as usize),
            _ => None,
        }
    }

    fn from_json(v: &Value) -> (r: Option<usize>) {
        match value_as_u64(v) {
            Some(n) => {
                if n <= usize::MAX as u64 {
                    Some(n as usize)
                } else {
                    None
                }
            },
            None => None,
        }
    }
}

impl FromJson for i32 {
    /// A whole number from `i32::MIN` to `i32::MAX`.
    open spec fn decoded(doc: Json) -> Option<i32> {
        match doc.signed() {
            Some(n) if i32::MIN <= n <= i32::MAX => Some(n as i32),
            _ => None,
        }
    }

    fn from_json(v: &Value) -> (r: Option<i32>) {
        match value_as_i64(v) {
            Some(n) => {
                if -2147483648 <= n && n <= 2147483647 {
                    Some(n as i32)
                } else {
                    None
                }
            },
            None => None,
        }
    }
}

/// The values that the documents of a list stand for, where each of them has
/// the shape of `T`.
pub open spec fn all_decoded<T: FromJson>(docs: Seq<Json>) -> Option<Seq<T::V>> {
    if forall|i: int| 0 <= i < docs.len() ==> (#[trigger] T::decoded(docs[i])) is Some {
        Some(Seq::new(docs.len(), |i: int| T::decoded(docs[i])->0))
    } else {
        None
    }
}

impl<T: FromJson> FromJson for Vec<T> {
    /// An array whose elements all have the shape of `T`.
    open spec fn decoded(doc: Json) -> Option<Seq<T::V>> {
        match doc.elements() {
            Some(docs) => all_decoded::<T>(docs),
            None => None,
        }
    }

    fn from_json(v: &Value) -> (r: Option<Vec<T>>) {
        match value_as_array(v) {
            None => None,
            Some(items) => {
                let ghost docs = crate::json::models(items@);
                let mut out: Vec<T> = Vec::new();
                let mut i: usize = 0;
                while i < items.len()
                    invariant
                        i <= items.len(),
                        out.len() == i,
                        docs == crate::json::models(items@),
                        value_model(*v).elements() == Some(docs),
                        forall|k: int|
                            0 <= k < i ==> (#[trigger] T::decoded(docs[k])) == Some(
                                out[k].deep_view(),
                            ),
                    decreases items.len() - i,
                {
                    match T::from_json(&items[i]) {
                        None => {
                            assert(T::decoded(docs[i as int]) is None);
                            return None;
                        },
                        Some(t) => {
                            out.push(t);
                        },
                    }
                    i += 1;
                }
                assert(out.deep_view() =~= all_decoded::<T>(docs)->0);
                Some(out)
            },
        }
    }
}

impl<T: FromJson> FromJson for Option<T> {
    /// Null, which stands for no value, or a document with the shape of `T`.
    open spec fn decoded(doc: Json) -> Option<Option<T::V>> {
        if doc == Json::Null {
            Some(None)
        } else {
            match T::decoded(doc) {
                Some(t) => Some(Some(t)),
                None => None,
            }
        }
    }

    fn from_json(v: &Value) -> (r: Option<Option<T>>) {
        if value_is_null(v) {
            Some(None)
        } else {
            match T::from_json(v) {
                Some(t) => Some(Some(t)),
                None => None,
            }
        }
    }
}

/// A member that must be there: what the member of that name stands for.
pub open spec fn required<T: FromJson>(doc: Json, name: Seq<char>) -> Option<T::V> {
    match doc.member(name) {
        Some(m) => T::decoded(m),
        None => None,
    }
}

/// A member that may be left out or be null: both stand for no value.
pub open spec fn optional<T: FromJson>(doc: Json, name: Seq<char>) -> Option<Option<T::V>> {
    match doc.member(name) {
        Some(m) => Option::<T>::decoded(m),
        None => Some(None),
    }
}

/// A member that may be left out: `fallback` then stands in for it.
pub open spec fn defaulted<T: FromJson>(doc: Json, name: Seq<char>, fallback: T::V) -> Option<
    T::V,
> {
    match doc.member(name) {
        Some(m) => T::decoded(m),
        None => Some(fallback),
    }
}

/// A member that must be there under one of two names, and not under both.
pub open spec fn aliased<T: FromJson>(doc: Json, name: Seq<char>, other: Seq<char>) -> Option<
    T::V,
> {
    match (doc.member(name), doc.member(other)) {
        (Some(m), None) => T::decoded(m),
        (None, Some(m)) => T::decoded(m),
        _ => None,
    }
}

/// An element that must be there: what the element at that place stands
/// for.
pub open spec fn placed<T: FromJson>(items: Seq<Json>, at: int) -> Option<T::V> {
    if 0 <= at < items.len() {
        T::decoded(items[at])
    } else {
        None
    }
}

/// An element that the list may end before: `fallback` then stands in for
/// it.
pub open spec fn placed_or<T: FromJson>(items: Seq<Json>, at: int, fallback: T::V) -> Option<
    T::V,
> {
    if 0 <= at < items.len() {
        T::decoded(items[at])
    } else {
        Some(fallback)
    }
}

/// Reads a member that must be there.
pub fn field<T: FromJson>(v: &Value, name: &str) -> (r: Option<T>)
    ensures
        r.deep_view() == required::<T>(value_model(*v), name@),
{
    match value_member(v, name) {
        Some(m) => T::from_json(m),
        None => None,
    }
}

/// Reads a member that may be left out or be null.
pub fn optional_field<T: FromJson>(v: &Value, name: &str) -> (r: Option<Option<T>>)
    ensures
        r.deep_view() == optional::<T>(value_model(*v), name@),
{
    match value_member(v, name) {
        Some(m) => Option::<T>::from_json(m),
        None => Some(None),
    }
}

/// Reads a member that may be left out, with the value that then stands in
/// for it.
pub fn field_or<T: FromJson>(v: &Value, name: &str, fallback: T) -> (r: Option<T>)
    ensures
        r.deep_view() == defaulted::<T>(value_model(*v), name@, fallback.deep_view()),
{
    match value_member(v, name) {
        Some(m) => T::from_json(m),
        None => Some(fallback),
    }
}

/// Reads a member that goes by one of two names.
pub fn aliased_field<T: FromJson>(v: &Value, name: &str, other: &str) -> (r: Option<T>)
    ensures
        r.deep_view() == aliased::<T>(value_model(*v), name@, other@),
{
    match (value_member(v, name), value_member(v, other)) {
        (Some(m), None) => T::from_json(m),
        (None, Some(m)) => T::from_json(m),
        _ => None,
    }
}

/// Reads an element that must be there.
pub fn element<T: FromJson>(items: &Vec<Value>, at: usize) -> (r: Option<T>)
    ensures
        r.deep_view() == placed::<T>(crate::json::models(items@), at as int),
{
    if at < items.len() {
        T::from_json(&items[at])
    } else {
        None
    }
}

/// Reads an element that the list may end before, with the value that then
/// stands in for it.
pub fn element_or<T: FromJson>(items: &Vec<Value>, at: usize, fallback: T) -> (r: Option<T>)
    ensures
        r.deep_view() == placed_or::<T>(
            crate::json::models(items@),
            at as int,
            fallback.deep_view(),
        ),
{
    if at < items.len() {
        T::from_json(&items[at])
    } else {
        Some(fallback)
    }
}

} // verus!
