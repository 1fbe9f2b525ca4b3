use vstd::prelude::*;
use crate::reddit::form::{FieldValue, FormValue};
use crate::reddit::order::{lookup, sorted_by_key};

verus! {

#[verifier::external_type_specification]
#[verifier::external_body]
#[verifier::reject_recursive_types(K)]
#[verifier::reject_recursive_types(V)]
pub struct ExJsonObject<K, V>(serde_json::Map<K, V>);

#[verifier::external_type_specification]
#[verifier::external_body]
pub struct ExJsonValue(serde_json::Value);

/// The entries of a JSON object in the order in which it hands them out,
/// each key with its value: a JSON string or boolean as a text or a flag,
/// any other JSON value as `None`.
pub uninterp spec fn json_object_entries(
    object: serde_json::Map<String, serde_json::Value>,
) -> Seq<(Seq<char>, Option<FieldValue>)>;

/// The model of a value that may be missing.
pub open spec fn option_field(value: Option<FormValue>) -> Option<FieldValue> {
    match value {
        Some(v) => Some(v@),
        None => None,
    }
}

/// `serde_json::Map::new`: an object without entries.
#[verifier::external_body]
pub(crate) fn json_object_new() -> (object: serde_json::Map<String, serde_json::Value>)
    ensures
        json_object_entries(object) == Seq::<(Seq<char>, Option<FieldValue>)>::empty(),
{
    serde_json::Map::new()
}

/// `serde_json::Map::insert`, with a text put in as a JSON string and a
/// flag as a JSON boolean: `key` then holds `value`, every other key keeps
/// its value, and the object hands its entries out in increasing order of
/// their keys, as the `BTreeMap` behind it does (`String`'s order, that of
/// the UTF-8 bytes).
#[verifier::external_body]
pub(crate) fn json_object_insert(
    object: &mut serde_json::Map<String, serde_json::Value>,
    key: String,
    value: FormValue,
)
    ensures
        sorted_by_key(json_object_entries(*final(object))),
        lookup(json_object_entries(*final(object)), key@) == Some(Some(value@)),
        forall|other: Seq<char>|
            other != key@ ==> #[trigger] lookup(json_object_entries(*final(object)), other)
                == lookup(json_object_entries(*old(object)), other),
{
    let value = match value {
        FormValue::Text(s) => serde_json::Value::String(s),
        FormValue::Flag(b) => serde_json::Value::Bool(b),
    };
    object.insert(key, value);
}

/// `serde_json::Map::len`: the number of entries.
#[verifier::external_body]
pub(crate) fn json_object_len(object: &serde_json::Map<String, serde_json::Value>) -> (n: usize)
    ensures
        n == json_object_entries(*object).len(),
{
    object.len()
}

/// `serde_json::Map::keys`: the keys, in the order in which the object
/// hands its entries out.
#[verifier::external_body]
pub(crate) fn json_object_keys(object: &serde_json::Map<String, serde_json::Value>) -> (keys: Vec<
    String,
>)
    ensures
        keys@.len() == json_object_entries(*object).len(),
        forall|i: int| 0 <= i < keys@.len() ==> #[trigger] keys@[i]@ == json_object_entries(
            *object,
        )[i].0,
{
    object.keys().cloned().collect()
}

/// `serde_json::Map::get`: the value of `key`, where it is a JSON string
/// (as a text) or a JSON boolean (as a flag).
#[verifier::external_body]
pub(crate) fn json_object_get(
    object: &serde_json::Map<String, serde_json::Value>,
    key: &str,
) -> (value: Option<FormValue>)
    ensures
        option_field(value) == match lookup(json_object_entries(*object), key@) {
            Some(v) => v,
            None => None,
        },
{
    match object.get(key) {
        Some(serde_json::Value::String(s)) => Some(FormValue::Text(s.clone())),
        Some(serde_json::Value::Bool(b)) => Some(FormValue::Flag(*b)),
        Some(serde_json::Value::Null) => None,
        Some(serde_json::Value::Number(_)) => None,
        Some(serde_json::Value::Array(_)) => None,
        Some(serde_json::Value::Object(_)) => None,
        None => None,
    }
}

/// `Clone` of a `serde_json::Map`: an object with the same entries.
#[verifier::external_body]
pub(crate) fn json_object_clone(object: &serde_json::Map<String, serde_json::Value>) -> (copy:
    serde_json::Map<String, serde_json::Value>)
    ensures
        json_object_entries(copy) == json_object_entries(*object),
{
    object.clone()
}

} // verus!
