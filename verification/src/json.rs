//! JSON values as the library reads them, and the parsing of JSON text.
use vstd::prelude::*;

verus! {

/// A parsed JSON value. A number is kept as the `u64` it denotes when it is a
/// non-negative integer that fits, and as `None` otherwise.
#[derive(Debug, PartialEq, Eq)]
pub enum JsonValue {
    Null,
    Bool(bool),
    Number(Option<u64>),
    String(String),
    Array(Vec<JsonValue>),
    Object(Vec<(String, JsonValue)>),
}

/// The mathematical value of a [`JsonValue`].
pub enum Json {
    Null,
    Bool(bool),
    Number(Option<u64>),
    Str(Seq<char>),
    Array(Seq<Json>),
    Object(Seq<(Seq<char>, Json)>),
}

pub open spec fn json_view(v: JsonValue) -> Json
    decreases v, 1nat,
{
    match v {
        JsonValue::Null => Json::Null,
        JsonValue::Bool(b) => Json::Bool(b),
        JsonValue::Number(n) => Json::Number(n),
        JsonValue::String(s) => Json::Str(s@),
        JsonValue::Array(items) => Json::Array(json_views(items@)),
        JsonValue::Object(fields) => Json::Object(field_views(fields@)),
    }
}

pub open spec fn json_views(items: Seq<JsonValue>) -> Seq<Json>
    decreases items, 0nat,
{
    if items.len() == 0 {
        Seq::empty()
    } else {
        json_views(items.drop_last()).push(json_view(items.last()))
    }
}

pub open spec fn field_views(fields: Seq<(String, JsonValue)>) -> Seq<(Seq<char>, Json)>
    decreases fields, 0nat,
{
    if fields.len() == 0 {
        Seq::empty()
    } else {
        field_views(fields.drop_last()).push((fields.last().0@, json_view(fields.last().1)))
    }
}

impl View for JsonValue {
    type V = Json;

    open spec fn view(&self) -> Json {
        json_view(*self)
    }
}

pub proof fn lemma_json_views(items: Seq<JsonValue>)
    ensures
        json_views(items).len() == items.len(),
        forall|i: int| 0 <= i < items.len() ==> #[trigger] json_views(items)[i] == json_view(items[i]),
    decreases items.len(),
{
    if items.len() > 0 {
        lemma_json_views(items.drop_last());
        assert forall|i: int| 0 <= i < items.len() implies #[trigger] json_views(items)[i] == json_view(
            items[i],
        ) by {
            if i < items.len() - 1 {
                assert(items.drop_last()[i] == items[i]);
            }
        }
    }
}

pub proof fn lemma_field_views(fields: Seq<(String, JsonValue)>)
    ensures
        field_views(fields).len() == fields.len(),
        forall|i: int|
            0 <= i < fields.len() ==> #[trigger] field_views(fields)[i] == (
                fields[i].0@,
                json_view(fields[i].1),
            ),
    decreases fields.len(),
{
    if fields.len() > 0 {
        lemma_field_views(fields.drop_last());
        assert forall|i: int| 0 <= i < fields.len() implies #[trigger] field_views(fields)[i] == (
            fields[i].0@,
            json_view(fields[i].1),
        ) by {
            if i < fields.len() - 1 {
                assert(fields.drop_last()[i] == fields[i]);
            }
        }
    }
}

/// The value of the first field named `key`, if any.
pub open spec fn field_of(fields: Seq<(Seq<char>, Json)>, key: Seq<char>) -> Option<Json>
    decreases fields.len(),
{
    if fields.len() == 0 {
        None
    } else if fields[0].0 == key {
        Some(fields[0].1)
    } else {
        field_of(fields.drop_first(), key)
    }
}

/// The value of the field `key` of a JSON value: `None` unless the value is an object
/// with such a field.
pub open spec fn get_field(v: Json, key: Seq<char>) -> Option<Json> {
    match v {
        Json::Object(fields) => field_of(fields, key),
        _ => None,
    }
}

/// Returns the value of the first field of `fields` named `key`.
pub fn object_get<'a>(fields: &'a Vec<(String, JsonValue)>, key: &str) -> (res: Option<
    &'a JsonValue,
>)
    ensures
        match res {
            Some(v) => field_of(field_views(fields@), key@) == Some(json_view(*v)),
            None => field_of(field_views(fields@), key@) is None,
        },
{
    proof {
        lemma_field_views(fields@);
        assert(field_views(fields@).skip(0) =~= field_views(fields@));
    }
    let mut i: usize = 0;
    while i < fields.len()
        invariant
            i <= fields.len(),
            field_views(fields@).len() == fields@.len(),
            forall|j: int|
                0 <= j < fields@.len() ==> #[trigger] field_views(fields@)[j] == (
                    fields@[j].0@,
                    json_view(fields@[j].1),
                ),
            field_of(field_views(fields@), key@) == field_of(
                field_views(fields@).skip(i as int),
                key@,
            ),
        decreases fields.len() - i,
    {
        let ghost rest = field_views(fields@).skip(i as int);
        assert(rest[0] == field_views(fields@)[i as int]);
        if crate::text::str_eq(fields[i].0.as_str(), key) {
            return Some(&fields[i].1);
        }
        assert(rest.drop_first() =~= field_views(fields@).skip(i + 1));
        i = i + 1;
    }
    None
}

/// The value of a parse outcome.
pub open spec fn json_result_view(r: Result<JsonValue, String>) -> Result<Json, Seq<char>> {
    match r {
        Ok(v) => Ok(v@),
        Err(e) => Err(e@),
    }
}

/// What `serde_json` makes of JSON text: the parsed value, or the text of its error.
pub uninterp spec fn json_parse(text: Seq<char>) -> Result<Json, Seq<char>>;

#[verifier::external_type_specification]
#[verifier::external_body]
pub struct ExSerdeJsonValue(serde_json::Value);

/// Turns a `serde_json::Value` into the library's value, variant for variant.
#[verifier::external_body]
fn json_from_serde(value: serde_json::Value) -> JsonValue {
    match value {
        serde_json::Value::Null => JsonValue::Null,
        serde_json::Value::Bool(b) => JsonValue::Bool(b),
        serde_json::Value::Number(n) => JsonValue::Number(n.as_u64()),
        serde_json::Value::String(s) => JsonValue::String(s),
        serde_json::Value::Array(items) => JsonValue::Array(
            items.into_iter().map(json_from_serde).collect(),
        ),
        serde_json::Value::Object(fields) => JsonValue::Object(
            fields.into_iter().map(|(k, v)| (k, json_from_serde(v))).collect(),
        ),
    }
}

/// Parses JSON text with `serde_json::from_str::<serde_json::Value>`; an error comes
/// back as its display text. The contract claims only that the outcome is
/// [`json_parse`] of the text.
#[verifier::external_body]
pub fn parse_json(text: &str) -> (res: Result<JsonValue, String>)
    ensures
        match res {
            Ok(v) => json_parse(text@) == Ok::<Json, Seq<char>>(json_view(v)),
            Err(e) => json_parse(text@) == Err::<Json, Seq<char>>(e@),
        },
{
    serde_json::from_str::<serde_json::Value>(text).map(json_from_serde).map_err(|e| e.to_string())
}

} // verus!
