//! Writing typed values as JSON, for the parameters of a call.

use crate::json::array_value;
use crate::json::models;
use crate::json::value_model;
use crate::json::Json;
use serde_json::Value;
use vstd::prelude::*;

verus! {

/// A type whose values can be written as JSON.
pub trait ToJson: DeepView {
    /// The document that stands for a value.
    spec fn encoded(value: Self::V) -> Json;

    /// Writes the value.
    fn to_json(&self) -> (r: Value)
        ensures
            value_model(r) == Self::encoded(self.deep_view()),
    ;
}

/// The documents that stand for the values of a list, in its order.
pub open spec fn encoded_list<T: ToJson>(items: Seq<T::V>) -> Seq<Json> {
    Seq::new(items.len(), |i: int| T::encoded(items[i]))
}

/// Writes a list as an array, element by element.
pub fn list_value<T: ToJson>(items: &Vec<T>) -> (r: Value)
    ensures
        value_model(r) == Json::Array(encoded_list::<T>(items.deep_view())),
{
    let mut out: Vec<Value> = Vec::new();
    let mut i: usize = 0;
    while i < items.len()
        invariant
            i <= items.len(),
            out.len() == i,
            forall|k: int| 0 <= k < i ==> value_model(out[k]) == T::encoded(items[k].deep_view()),
        decreases items.len() - i,
    {
        out.push(items[i].to_json());
        i += 1;
    }
    assert(models(out@) =~= encoded_list::<T>(items.deep_view()));
    array_value(out)
}

} // verus!
