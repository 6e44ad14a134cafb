//! The JSON values the dispatcher inspects, and what is assumed of them.
//!
//! Events arrive and results leave as `serde_json::Value`. The verifier
//! cannot look inside one, so this module gives each value a mathematical
//! model, [`Json`], and states in terms of it what is assumed of the few
//! `serde_json` operations the dispatcher uses. Those assumptions are the
//! functions marked `external_body` below; everything else in the crate is
//! proved from them.
use vstd::prelude::*;

verus! {

#[verifier::external_type_specification]
#[verifier::external_body]
pub struct ExValue(serde_json::Value);

#[verifier::external_type_specification]
#[verifier::external_body]
#[verifier::reject_recursive_types(K)]
#[verifier::reject_recursive_types(V)]
pub struct ExMap<K, V>(serde_json::Map<K, V>);

/// Mathematical model of a JSON value. A number carries its value when it is
/// an integer; nothing more is modelled of other numbers.
pub enum Json {
    Null,
    Bool(bool),
    Number(Option<int>),
    Text(Seq<char>),
    Array(Seq<Json>),
    Object(Map<Seq<char>, Json>),
}

/// The JSON value that a `serde_json::Value` holds.
pub uninterp spec fn model_of(v: serde_json::Value) -> Json;

/// The entries that a `serde_json::Map` holds, each value by its model.
pub uninterp spec fn fields_of(m: serde_json::Map<String, serde_json::Value>) -> Map<Seq<char>, Json>;

/// `serde_json::Value::as_str`: hands out the text of a `Value::String` and
/// `None` for every other variant.
#[verifier::external_body]
pub(crate) fn as_text<'a>(v: &'a serde_json::Value) -> (r: Option<&'a str>)
    ensures
        match r {
            Some(s) => model_of(*v) == Json::Text(s@),
            None => !(model_of(*v) is Text),
        },
{
    v.as_str()
}

/// `serde_json::Value::as_object`: hands out the map of a `Value::Object` and
/// `None` for every other variant.
#[verifier::external_body]
pub(crate) fn as_fields<'a>(v: &'a serde_json::Value) -> (r: Option<
    &'a serde_json::Map<String, serde_json::Value>,
>)
    ensures
        match r {
            Some(m) => model_of(*v) == Json::Object(fields_of(*m)),
            None => !(model_of(*v) is Object),
        },
{
    v.as_object()
}

/// `serde_json::Map::get`: the value stored under exactly this key, if there
/// is one.
#[verifier::external_body]
pub(crate) fn lookup<'a>(m: &'a serde_json::Map<String, serde_json::Value>, key: &str) -> (r:
    Option<&'a serde_json::Value>)
    ensures
        match r {
            Some(v) => fields_of(*m).contains_key(key@) && fields_of(*m)[key@] == model_of(*v),
            None => !fields_of(*m).contains_key(key@),
        },
{
    m.get(key)
}

/// The entries of the empty object.
pub open spec fn no_fields() -> Map<Seq<char>, Json> {
    Map::empty()
}

/// `serde_json::Map::new`: a map without entries.
#[verifier::external_body]
pub(crate) fn new_fields() -> (r: serde_json::Map<String, serde_json::Value>)
    ensures
        fields_of(r) == no_fields(),
{
    serde_json::Map::new()
}

/// `serde_json::Map::insert`: stores the value under the key, in place of
/// whatever was stored under it, and leaves the other entries alone.
#[verifier::external_body]
pub(crate) fn set_field(
    m: &mut serde_json::Map<String, serde_json::Value>,
    key: String,
    value: serde_json::Value,
)
    ensures
        fields_of(*final(m)) == fields_of(*old(m)).insert(key@, model_of(value)),
{
    m.insert(key, value);
}

/// `serde_json::Value::from` on `()`: the JSON null.
#[verifier::external_body]
pub(crate) fn null_value() -> (v: serde_json::Value)
    ensures
        model_of(v) == Json::Null,
{
    serde_json::Value::from(())
}

/// `serde_json::Value::from` on a `bool`: the JSON boolean of that value.
#[verifier::external_body]
pub(crate) fn bool_value(b: bool) -> (v: serde_json::Value)
    ensures
        model_of(v) == Json::Bool(b),
{
    serde_json::Value::from(b)
}

/// `serde_json::Value::from` on a `u16`: the JSON number of that value.
#[verifier::external_body]
pub(crate) fn integer_value(n: u16) -> (v: serde_json::Value)
    ensures
        model_of(v) == Json::Number(Some(n as int)),
{
    serde_json::Value::from(n)
}

/// `serde_json::Value::from` on a `&str`: the JSON string with that text.
#[verifier::external_body]
pub(crate) fn text_value(text: &str) -> (v: serde_json::Value)
    ensures
        model_of(v) == Json::Text(text@),
{
    serde_json::Value::from(text)
}

/// `serde_json::Value::from` on a map: the JSON object with its entries.
#[verifier::external_body]
pub(crate) fn object_value(m: serde_json::Map<String, serde_json::Value>) -> (v:
    serde_json::Value)
    ensures
        model_of(v) == Json::Object(fields_of(m)),
{
    serde_json::Value::from(m)
}

/// Whether `value` is present and a JSON string.
pub open spec fn is_text(value: Option<Json>) -> bool {
    value matches Some(v) && v is Text
}

/// Whether `value` is present and a JSON object.
pub open spec fn is_object(value: Option<Json>) -> bool {
    value matches Some(v) && v is Object
}

/// The entry of `fields` under `key`, if there is one.
pub open spec fn field(fields: Map<Seq<char>, Json>, key: Seq<char>) -> Option<Json> {
    if fields.contains_key(key) {
        Some(fields[key])
    } else {
        None
    }
}

} // verus!
