//! Web-search commands: their JSON format, the lenient shapes that are also accepted,
//! and the action that a set of commands is reported as.
use vstd::prelude::*;

use crate::json::field_of;
use crate::json::json_parse;
use crate::json::json_view;
use crate::json::json_views;
use crate::json::lemma_json_views;
use crate::json::object_get;
use crate::json::parse_json;
use crate::json::field_views;
use crate::json::Json;
use crate::json::JsonValue;
use crate::json::json_result_view;
use crate::text::opt_string_view;
use crate::text::str_eq;
use crate::text::trim;
use crate::text::trim_ws;
use crate::urls::parse_url;
use crate::urls::url_parse;

verus! {

/// One search query.
#[derive(Debug, PartialEq, Eq)]
pub struct SearchQuery {
    pub q: String,
    pub recency: Option<u64>,
    pub domains: Option<Vec<String>>,
}

/// A request to open a page, by reference id or URL.
#[derive(Debug, PartialEq, Eq)]
pub struct OpenOperation {
    pub ref_id: String,
}

/// A request to find a pattern in a page, by reference id or URL.
#[derive(Debug, PartialEq, Eq)]
pub struct FindOperation {
    pub ref_id: String,
    pub pattern: String,
}

/// The commands of one web-search tool call.
#[derive(Debug, PartialEq, Eq)]
pub struct SearchCommands {
    pub search_query: Option<Vec<SearchQuery>>,
    pub image_query: Option<Vec<SearchQuery>>,
    pub open: Option<Vec<OpenOperation>>,
    pub find: Option<Vec<FindOperation>>,
}

pub struct QueryModel {
    pub q: Seq<char>,
    pub recency: Option<u64>,
    pub domains: Option<Seq<Seq<char>>>,
}

pub struct OpenModel {
    pub ref_id: Seq<char>,
}

pub struct FindModel {
    pub ref_id: Seq<char>,
    pub pattern: Seq<char>,
}

pub struct CommandsModel {
    pub search_query: Option<Seq<QueryModel>>,
    pub image_query: Option<Seq<QueryModel>>,
    pub open: Option<Seq<OpenModel>>,
    pub find: Option<Seq<FindModel>>,
}

pub open spec fn strings_view(s: Seq<String>) -> Seq<Seq<char>> {
    s.map_values(|y: String| y@)
}

impl View for SearchQuery {
    type V = QueryModel;

    open spec fn view(&self) -> QueryModel {
        QueryModel {
            q: self.q@,
            recency: self.recency,
            domains: match self.domains {
                Some(d) => Some(strings_view(d@)),
                None => None,
            },
        }
    }
}

impl View for OpenOperation {
    type V = OpenModel;

    open spec fn view(&self) -> OpenModel {
        OpenModel { ref_id: self.ref_id@ }
    }
}

impl View for FindOperation {
    type V = FindModel;

    open spec fn view(&self) -> FindModel {
        FindModel { ref_id: self.ref_id@, pattern: self.pattern@ }
    }
}

pub open spec fn queries_view(s: Seq<SearchQuery>) -> Seq<QueryModel> {
    s.map_values(|y: SearchQuery| y@)
}

pub open spec fn opt_queries_view(s: Option<Vec<SearchQuery>>) -> Option<Seq<QueryModel>> {
    match s {
        Some(v) => Some(queries_view(v@)),
        None => None,
    }
}

impl View for SearchCommands {
    type V = CommandsModel;

    open spec fn view(&self) -> CommandsModel {
        CommandsModel {
            search_query: opt_queries_view(self.search_query),
            image_query: opt_queries_view(self.image_query),
            open: match self.open {
                Some(v) => Some(v@.map_values(|y: OpenOperation| y@)),
                None => None,
            },
            find: match self.find {
                Some(v) => Some(v@.map_values(|y: FindOperation| y@)),
                None => None,
            },
        }
    }
}

/// Commands with nothing set.
pub open spec fn no_commands() -> CommandsModel {
    CommandsModel { search_query: None, image_query: None, open: None, find: None }
}

impl Default for SearchCommands {
    fn default() -> (res: Self)
        ensures
            res@ == no_commands(),
    {
        SearchCommands { search_query: None, image_query: None, open: None, find: None }
    }
}

pub proof fn lemma_map_push<A, B>(s: Seq<A>, x: A, f: spec_fn(A) -> B)
    ensures
        s.push(x).map_values(f) == s.map_values(f).push(f(x)),
{
    assert(s.push(x).map_values(f) =~= s.map_values(f).push(f(x)));
}

// ------------------------------------------------------------------------------------
// The JSON format of the commands
// ------------------------------------------------------------------------------------

/// Decodes every element with `f`; fails when one element fails.
pub open spec fn decode_all<T>(items: Seq<Json>, f: spec_fn(Json) -> Option<T>) -> Option<Seq<T>>
    decreases items.len(),
{
    if items.len() == 0 {
        Some(Seq::empty())
    } else {
        match decode_all(items.drop_last(), f) {
            Some(prev) => match f(items.last()) {
                Some(x) => Some(prev.push(x)),
                None => None,
            },
            None => None,
        }
    }
}

/// A field that may be absent or `null`; both leave it unset.
pub open spec fn set_field(fields: Seq<(Seq<char>, Json)>, key: Seq<char>) -> Option<Json> {
    match field_of(fields, key) {
        Some(Json::Null) => None,
        other => other,
    }
}

pub open spec fn decode_string(j: Json) -> Option<Seq<char>> {
    match j {
        Json::Str(s) => Some(s),
        _ => None,
    }
}

pub open spec fn decode_strings(items: Seq<Json>) -> Option<Seq<Seq<char>>> {
    decode_all(items, |j: Json| decode_string(j))
}

/// A query: an object with a string `q`, an optional non-negative integer `recency`
/// and an optional array of strings `domains`; other fields are ignored.
///
/// Sources of these rules: the string `q` and the two optional fields are the query
/// that a bare query string makes (`q` set, `recency` and `domains` unset); fields
/// beyond them are ignored as serde's derive does by default. The types of `recency`
/// and `domains` are not given anywhere in the sources: a count and a list of domain
/// names are this library's choice.
pub open spec fn decode_query(j: Json) -> Option<QueryModel> {
    match j {
        Json::Object(fields) => match field_of(fields, "q"@) {
            Some(Json::Str(q)) => {
                let recency: Option<Option<u64>> = match set_field(fields, "recency"@) {
                    None => Some(None),
                    Some(Json::Number(Some(n))) => Some(Some(n)),
                    _ => None,
                };
                let domains: Option<Option<Seq<Seq<char>>>> = match set_field(fields, "domains"@) {
                    None => Some(None),
                    Some(Json::Array(items)) => match decode_strings(items) {
                        Some(ds) => Some(Some(ds)),
                        None => None,
                    },
                    _ => None,
                };
                match (recency, domains) {
                    (Some(r), Some(d)) => Some(QueryModel { q, recency: r, domains: d }),
                    _ => None,
                }
            },
            _ => None,
        },
        _ => None,
    }
}

pub open spec fn decode_queries(items: Seq<Json>) -> Option<Seq<QueryModel>> {
    decode_all(items, |j: Json| decode_query(j))
}

/// An open operation: an object with a string `ref_id`.
pub open spec fn decode_open(j: Json) -> Option<OpenModel> {
    match j {
        Json::Object(fields) => match field_of(fields, "ref_id"@) {
            Some(Json::Str(r)) => Some(OpenModel { ref_id: r }),
            _ => None,
        },
        _ => None,
    }
}

pub open spec fn decode_opens(items: Seq<Json>) -> Option<Seq<OpenModel>> {
    decode_all(items, |j: Json| decode_open(j))
}

/// A find operation: an object with a string `ref_id` and a string `pattern`.
pub open spec fn decode_find(j: Json) -> Option<FindModel> {
    match j {
        Json::Object(fields) => match (field_of(fields, "ref_id"@), field_of(fields, "pattern"@)) {
            (Some(Json::Str(r)), Some(Json::Str(p))) => Some(FindModel { ref_id: r, pattern: p }),
            _ => None,
        },
        _ => None,
    }
}

pub open spec fn decode_finds(items: Seq<Json>) -> Option<Seq<FindModel>> {
    decode_all(items, |j: Json| decode_find(j))
}

/// An optional list field: `Some(None)` when unset, `Some(Some(xs))` when it is an
/// array whose elements all decode, `None` otherwise.
pub open spec fn decode_list_field<T>(
    fields: Seq<(Seq<char>, Json)>,
    key: Seq<char>,
    list: spec_fn(Seq<Json>) -> Option<Seq<T>>,
) -> Option<Option<Seq<T>>> {
    match set_field(fields, key) {
        None => Some(None),
        Some(Json::Array(items)) => match list(items) {
            Some(xs) => Some(Some(xs)),
            None => None,
        },
        Some(_) => None,
    }
}

/// The names of the fields of commands.
pub open spec fn is_command_field(key: Seq<char>) -> bool {
    key == "search_query"@ || key == "image_query"@ || key == "open"@ || key == "find"@
}

/// Every field of the object is a field of commands.
pub open spec fn only_command_fields(fields: Seq<(Seq<char>, Json)>) -> bool {
    forall|i: int| 0 <= i < fields.len() ==> is_command_field(#[trigger] fields[i].0)
}

/// Commands: an object with no fields but `search_query`, `image_query`, `open` and
/// `find`, each unset or an array of their elements.
///
/// Sources of these rules: the four fields are the ones that the reported action and
/// the lenient shapes read. Other fields are refused: an object with a field `q` is
/// a lenient shape (one query), which is reached only when such an object fails the
/// format of the commands, so the format cannot ignore unknown fields.
pub open spec fn decode_commands(j: Json) -> Option<CommandsModel> {
    match j {
        Json::Object(fields) => if !only_command_fields(fields) {
            None
        } else {
            match (
            decode_list_field(fields, "search_query"@, |items: Seq<Json>| decode_queries(items)),
            decode_list_field(fields, "image_query"@, |items: Seq<Json>| decode_queries(items)),
            decode_list_field(fields, "open"@, |items: Seq<Json>| decode_opens(items)),
            decode_list_field(fields, "find"@, |items: Seq<Json>| decode_finds(items)),
        ) {
            (Some(s), Some(i), Some(o), Some(f)) => Some(
                CommandsModel { search_query: s, image_query: i, open: o, find: f },
            ),
            _ => None,
        }
        },
        _ => None,
    }
}

/// When a prefix fails to decode, the whole sequence fails.
proof fn lemma_decode_all_prefix_none<T>(items: Seq<Json>, k: int, f: spec_fn(Json) -> Option<T>)
    requires
        0 <= k <= items.len(),
        decode_all(items.take(k), f) is None,
    ensures
        decode_all(items, f) is None,
    decreases items.len(),
{
    if items.len() > k {
        assert(items.drop_last().take(k) =~= items.take(k));
        lemma_decode_all_prefix_none(items.drop_last(), k, f);
    } else {
        assert(items.take(k) =~= items);
    }
}
/// Decodes an array of strings.
fn decode_string_list(items: &Vec<JsonValue>) -> (res: Option<Vec<String>>)
    ensures
        match res {
            Some(v) => decode_strings(json_views(items@)) == Some(strings_view(v@)),
            None => decode_strings(json_views(items@)) is None,
        },
{
    proof {
        lemma_json_views(items@);
    }
    let ghost js = json_views(items@);
    let mut out: Vec<String> = Vec::new();
    let mut i: usize = 0;
    assert(js.take(0) =~= Seq::<Json>::empty());
    while i < items.len()
        invariant
            i <= items@.len(),
            js == json_views(items@),
            js.len() == items@.len(),
            forall|k: int| 0 <= k < items@.len() ==> #[trigger] js[k] == json_view(items@[k]),
            decode_strings(js.take(i as int)) == Some(strings_view(out@)),
        decreases items.len() - i,
    {
        assert(js.take(i + 1).drop_last() =~= js.take(i as int));
        assert(js.take(i + 1).last() == json_view(items@[i as int]));
        match &items[i] {
            JsonValue::String(x) => {
                let x = x.clone();
                proof {
                    lemma_map_push(out@, x, |y: String| y@);
                }
                out.push(x);
            },
            _ => {
                proof {
                    lemma_decode_all_prefix_none(js, i + 1, |j: Json| decode_string(j));
                }
                return None;
            },
        }
        i = i + 1;
    }
    assert(js.take(items@.len() as int) =~= js);
    Some(out)
}

pub open spec fn opt_view<T: View>(o: Option<T>) -> Option<T::V> {
    match o {
        Some(x) => Some(x@),
        None => None,
    }
}

/// The value of field `key`, unless it is absent or `null`.
fn set_field_value<'a>(fields: &'a Vec<(String, JsonValue)>, key: &str) -> (res: Option<
    &'a JsonValue,
>)
    ensures
        match res {
            Some(v) => set_field(field_views(fields@), key@) == Some(json_view(*v)),
            None => set_field(field_views(fields@), key@) is None,
        },
{
    match object_get(fields, key) {
        Some(JsonValue::Null) => None,
        other => other,
    }
}

/// Decodes a query in the JSON format of [`decode_query`].
pub fn decode_search_query(value: &JsonValue) -> (res: Option<SearchQuery>)
    ensures
        opt_view(res) == decode_query(value@),
{
    let fields = match value {
        JsonValue::Object(fields) => fields,
        _ => return None,
    };
    let q = match object_get(fields, "q") {
        Some(JsonValue::String(q)) => q.clone(),
        _ => return None,
    };
    let recency = match set_field_value(fields, "recency") {
        None => None,
        Some(JsonValue::Number(Some(n))) => Some(*n),
        _ => return None,
    };
    let domains = match set_field_value(fields, "domains") {
        None => None,
        Some(JsonValue::Array(items)) => match decode_string_list(items) {
            Some(ds) => Some(ds),
            None => return None,
        },
        _ => return None,
    };
    Some(SearchQuery { q, recency, domains })
}

/// Decodes an array of queries.
fn decode_query_list(items: &Vec<JsonValue>) -> (res: Option<Vec<SearchQuery>>)
    ensures
        match res {
            Some(v) => decode_queries(json_views(items@)) == Some(v@.map_values(|y: SearchQuery| y@)),
            None => decode_queries(json_views(items@)) is None,
        },
{
    proof {
        lemma_json_views(items@);
    }
    let ghost js = json_views(items@);
    let mut out: Vec<SearchQuery> = Vec::new();
    let mut i: usize = 0;
    assert(js.take(0) =~= Seq::<Json>::empty());
    while i < items.len()
        invariant
            i <= items@.len(),
            js == json_views(items@),
            js.len() == items@.len(),
            forall|k: int| 0 <= k < items@.len() ==> #[trigger] js[k] == json_view(items@[k]),
            decode_queries(js.take(i as int)) == Some(out@.map_values(|y: SearchQuery| y@)),
        decreases items.len() - i,
    {
        assert(js.take(i + 1).drop_last() =~= js.take(i as int));
        assert(js.take(i + 1).last() == json_view(items@[i as int]));
        match decode_search_query(&items[i]) {
            Some(x) => {
                proof {
                    lemma_map_push(out@, x, |y: SearchQuery| y@);
                }
                out.push(x);
            },
            None => {
                proof {
                    lemma_decode_all_prefix_none(js, i + 1, |j: Json| decode_query(j));
                }
                return None;
            },
        }
        i = i + 1;
    }
    assert(js.take(items@.len() as int) =~= js);
    Some(out)
}

/// Decodes an open operation in the JSON format of [`decode_open`].
fn decode_open_operation(value: &JsonValue) -> (res: Option<OpenOperation>)
    ensures
        opt_view(res) == decode_open(value@),
{
    match value {
        JsonValue::Object(fields) => match object_get(fields, "ref_id") {
            Some(JsonValue::String(r)) => Some(OpenOperation { ref_id: r.clone() }),
            _ => None,
        },
        _ => None,
    }
}

/// Decodes a find operation in the JSON format of [`decode_find`].
fn decode_find_operation(value: &JsonValue) -> (res: Option<FindOperation>)
    ensures
        opt_view(res) == decode_find(value@),
{
    match value {
        JsonValue::Object(fields) => match (object_get(fields, "ref_id"), object_get(fields, "pattern")) {
            (Some(JsonValue::String(r)), Some(JsonValue::String(p))) => Some(
                FindOperation { ref_id: r.clone(), pattern: p.clone() },
            ),
            _ => None,
        },
        _ => None,
    }
}

/// Decodes an array of open operations.
fn decode_open_list(items: &Vec<JsonValue>) -> (res: Option<Vec<OpenOperation>>)
    ensures
        match res {
            Some(v) => decode_opens(json_views(items@)) == Some(v@.map_values(|y: OpenOperation| y@)),
            None => decode_opens(json_views(items@)) is None,
        },
{
    proof {
        lemma_json_views(items@);
    }
    let ghost js = json_views(items@);
    let mut out: Vec<OpenOperation> = Vec::new();
    let mut i: usize = 0;
    assert(js.take(0) =~= Seq::<Json>::empty());
    while i < items.len()
        invariant
            i <= items@.len(),
            js == json_views(items@),
            js.len() == items@.len(),
            forall|k: int| 0 <= k < items@.len() ==> #[trigger] js[k] == json_view(items@[k]),
            decode_opens(js.take(i as int)) == Some(out@.map_values(|y: OpenOperation| y@)),
        decreases items.len() - i,
    {
        assert(js.take(i + 1).drop_last() =~= js.take(i as int));
        assert(js.take(i + 1).last() == json_view(items@[i as int]));
        match decode_open_operation(&items[i]) {
            Some(x) => {
                proof {
                    lemma_map_push(out@, x, |y: OpenOperation| y@);
                }
                out.push(x);
            },
            None => {
                proof {
                    lemma_decode_all_prefix_none(js, i + 1, |j: Json| decode_open(j));
                }
                return None;
            },
        }
        i = i + 1;
    }
    assert(js.take(items@.len() as int) =~= js);
    Some(out)
}

/// Decodes an array of find operations.
fn decode_find_list(items: &Vec<JsonValue>) -> (res: Option<Vec<FindOperation>>)
    ensures
        match res {
            Some(v) => decode_finds(json_views(items@)) == Some(v@.map_values(|y: FindOperation| y@)),
            None => decode_finds(json_views(items@)) is None,
        },
{
    proof {
        lemma_json_views(items@);
    }
    let ghost js = json_views(items@);
    let mut out: Vec<FindOperation> = Vec::new();
    let mut i: usize = 0;
    assert(js.take(0) =~= Seq::<Json>::empty());
    while i < items.len()
        invariant
            i <= items@.len(),
            js == json_views(items@),
            js.len() == items@.len(),
            forall|k: int| 0 <= k < items@.len() ==> #[trigger] js[k] == json_view(items@[k]),
            decode_finds(js.take(i as int)) == Some(out@.map_values(|y: FindOperation| y@)),
        decreases items.len() - i,
    {
        assert(js.take(i + 1).drop_last() =~= js.take(i as int));
        assert(js.take(i + 1).last() == json_view(items@[i as int]));
        match decode_find_operation(&items[i]) {
            Some(x) => {
                proof {
                    lemma_map_push(out@, x, |y: FindOperation| y@);
                }
                out.push(x);
            },
            None => {
                proof {
                    lemma_decode_all_prefix_none(js, i + 1, |j: Json| decode_find(j));
                }
                return None;
            },
        }
        i = i + 1;
    }
    assert(js.take(items@.len() as int) =~= js);
    Some(out)
}

/// Decodes the optional list field `key` (see [`decode_list_field`]).
fn decode_queries_field(fields: &Vec<(String, JsonValue)>, key: &str) -> (res: Option<Option<Vec<SearchQuery>>>)
    ensures
        match res {
            Some(x) => decode_list_field(field_views(fields@), key@, |items: Seq<Json>| decode_queries(items))
                == Some(match x {
                Some(v) => Some(v@.map_values(|y: SearchQuery| y@)),
                None => None,
            }),
            None => decode_list_field(
                field_views(fields@),
                key@,
                |items: Seq<Json>| decode_queries(items),
            ) is None,
        },
{
    match set_field_value(fields, key) {
        None => Some(None),
        Some(JsonValue::Array(items)) => match decode_query_list(items) {
            Some(v) => Some(Some(v)),
            None => None,
        },
        Some(_) => None,
    }
}

/// Decodes the optional list field `key` (see [`decode_list_field`]).
fn decode_opens_field(fields: &Vec<(String, JsonValue)>, key: &str) -> (res: Option<Option<Vec<OpenOperation>>>)
    ensures
        match res {
            Some(x) => decode_list_field(field_views(fields@), key@, |items: Seq<Json>| decode_opens(items))
                == Some(match x {
                Some(v) => Some(v@.map_values(|y: OpenOperation| y@)),
                None => None,
            }),
            None => decode_list_field(
                field_views(fields@),
                key@,
                |items: Seq<Json>| decode_opens(items),
            ) is None,
        },
{
    match set_field_value(fields, key) {
        None => Some(None),
        Some(JsonValue::Array(items)) => match decode_open_list(items) {
            Some(v) => Some(Some(v)),
            None => None,
        },
        Some(_) => None,
    }
}

/// Decodes the optional list field `key` (see [`decode_list_field`]).
fn decode_finds_field(fields: &Vec<(String, JsonValue)>, key: &str) -> (res: Option<Option<Vec<FindOperation>>>)
    ensures
        match res {
            Some(x) => decode_list_field(field_views(fields@), key@, |items: Seq<Json>| decode_finds(items))
                == Some(match x {
                Some(v) => Some(v@.map_values(|y: FindOperation| y@)),
                None => None,
            }),
            None => decode_list_field(
                field_views(fields@),
                key@,
                |items: Seq<Json>| decode_finds(items),
            ) is None,
        },
{
    match set_field_value(fields, key) {
        None => Some(None),
        Some(JsonValue::Array(items)) => match decode_find_list(items) {
            Some(v) => Some(Some(v)),
            None => None,
        },
        Some(_) => None,
    }
}

/// Whether every field is a field of commands.
fn has_only_command_fields(fields: &Vec<(String, JsonValue)>) -> (res: bool)
    ensures
        res == only_command_fields(field_views(fields@)),
{
    proof {
        crate::json::lemma_field_views(fields@);
    }
    let mut i: usize = 0;
    while i < fields.len()
        invariant
            i <= fields@.len(),
            field_views(fields@).len() == fields@.len(),
            forall|k: int|
                0 <= k < fields@.len() ==> #[trigger] field_views(fields@)[k] == (
                    fields@[k].0@,
                    json_view(fields@[k].1),
                ),
            forall|k: int| 0 <= k < i ==> is_command_field(#[trigger] field_views(fields@)[k].0),
        decreases fields.len() - i,
    {
        let key = fields[i].0.as_str();
        let known = str_eq(key, "search_query") || str_eq(key, "image_query") || str_eq(key, "open")
            || str_eq(key, "find");
        if !known {
            assert(!is_command_field(field_views(fields@)[i as int].0));
            return false;
        }
        i = i + 1;
    }
    true
}

/// Decodes commands in the JSON format of [`decode_commands`].
pub fn decode_search_commands(value: &JsonValue) -> (res: Option<SearchCommands>)
    ensures
        opt_view(res) == decode_commands(value@),
{
    let fields = match value {
        JsonValue::Object(fields) => fields,
        _ => return None,
    };
    if !has_only_command_fields(fields) {
        return None;
    }
    let search_query = match decode_queries_field(fields, "search_query") {
        Some(x) => x,
        None => return None,
    };
    let image_query = match decode_queries_field(fields, "image_query") {
        Some(x) => x,
        None => return None,
    };
    let open = match decode_opens_field(fields, "open") {
        Some(x) => x,
        None => return None,
    };
    let find = match decode_finds_field(fields, "find") {
        Some(x) => x,
        None => return None,
    };
    Some(SearchCommands { search_query, image_query, open, find })
}

// ------------------------------------------------------------------------------------
// Lenient shapes
// ------------------------------------------------------------------------------------

/// Arguments that hold neither commands in their JSON format nor one of the lenient
/// shapes. What is reported for them is the error of parsing the arguments as
/// commands with serde (`serde_json::from_str` of the commands type), which the
/// caller supplies: the derive that gives that error cannot run in this library.
#[derive(Debug, Clone, Copy, PartialEq, Eq, Structural)]
pub struct RejectedSearchCommands;

/// The query for a bare query string.
pub open spec fn plain_query(q: Seq<char>) -> QueryModel {
    QueryModel { q, recency: None, domains: None }
}

/// A query given leniently: a bare string, or a query object.
pub open spec fn lenient_query(j: Json) -> Option<QueryModel> {
    match j {
        Json::Str(q) => Some(plain_query(q)),
        _ => decode_query(j),
    }
}

pub open spec fn lenient_queries(items: Seq<Json>) -> Option<Seq<QueryModel>> {
    decode_all(items, |j: Json| lenient_query(j))
}

/// A query field given leniently: unset when absent; an array of lenient queries; or
/// a single lenient query.
pub open spec fn lenient_query_field(fields: Seq<(Seq<char>, Json)>, key: Seq<char>) -> Option<
    Option<Seq<QueryModel>>,
> {
    match field_of(fields, key) {
        None => Some(None),
        Some(Json::Array(items)) => match lenient_queries(items) {
            Some(qs) => Some(Some(qs)),
            None => None,
        },
        Some(v) => match lenient_query(v) {
            Some(q) => Some(Some(seq![q])),
            None => None,
        },
    }
}

/// Commands made of these search queries alone.
pub open spec fn with_search_queries(qs: Seq<QueryModel>) -> CommandsModel {
    CommandsModel { search_query: Some(qs), image_query: None, open: None, find: None }
}

/// The commands that a lenient JSON shape stands for:
/// - a string is one search query;
/// - an array is a list of lenient search queries;
/// - an object with a field `q` is one search query;
/// - another object is commands whose `search_query` and `image_query` may be given
///   leniently.
pub open spec fn lenient_commands(j: Json) -> Option<CommandsModel> {
    match j {
        Json::Str(q) => Some(with_search_queries(seq![plain_query(q)])),
        Json::Array(items) => match lenient_queries(items) {
            Some(qs) => Some(with_search_queries(qs)),
            None => None,
        },
        Json::Object(fields) => if field_of(fields, "q"@) is Some {
            match decode_query(j) {
                Some(q) => Some(with_search_queries(seq![q])),
                None => None,
            }
        } else if !only_command_fields(fields) {
            None
        } else {
            match (
                lenient_query_field(fields, "search_query"@),
                lenient_query_field(fields, "image_query"@),
                decode_list_field(fields, "open"@, |items: Seq<Json>| decode_opens(items)),
                decode_list_field(fields, "find"@, |items: Seq<Json>| decode_finds(items)),
            ) {
                (Some(s), Some(i), Some(o), Some(f)) => Some(
                    CommandsModel { search_query: s, image_query: i, open: o, find: f },
                ),
                _ => None,
            }
        },
        _ => None,
    }
}

/// The commands of parsed JSON: the value in the JSON format of the commands, else a
/// lenient shape of them; none for text that is not JSON, or for JSON that is
/// neither.
pub open spec fn commands_from_json(parsed: Result<Json, Seq<char>>) -> Option<CommandsModel> {
    match parsed {
        Err(_) => None,
        Ok(j) => match decode_commands(j) {
            Some(c) => Some(c),
            None => lenient_commands(j),
        },
    }
}

/// The commands that tool-call arguments stand for: no commands set when the
/// arguments are blank, else those of the JSON that they hold (none when there are
/// none).
pub open spec fn commands_from_arguments(arguments: Seq<char>) -> Option<CommandsModel> {
    if trim_ws(arguments).len() == 0 {
        Some(no_commands())
    } else {
        commands_from_json(json_parse(arguments))
    }
}

pub open spec fn commands_result_view(r: Result<SearchCommands, RejectedSearchCommands>) -> Option<
    CommandsModel,
> {
    match r {
        Ok(c) => Some(c@),
        Err(_) => None,
    }
}

/// The query for a bare query string.
pub fn search_query(query: String) -> (res: SearchQuery)
    ensures
        res@ == plain_query(query@),
{
    SearchQuery { q: query, recency: None, domains: None }
}

/// A query given leniently: a bare string, or a query object.
pub fn search_query_from_value(value: &JsonValue) -> (res: Option<SearchQuery>)
    ensures
        opt_view(res) == lenient_query(value@),
{
    match value {
        JsonValue::String(q) => Some(search_query(q.clone())),
        _ => decode_search_query(value),
    }
}

/// A list of queries given leniently.
pub fn query_values(items: &Vec<JsonValue>) -> (res: Option<Vec<SearchQuery>>)
    ensures
        match res {
            Some(v) => lenient_queries(json_views(items@)) == Some(v@.map_values(|y: SearchQuery| y@)),
            None => lenient_queries(json_views(items@)) is None,
        },
{
    proof {
        lemma_json_views(items@);
    }
    let ghost js = json_views(items@);
    let mut out: Vec<SearchQuery> = Vec::new();
    let mut i: usize = 0;
    assert(js.take(0) =~= Seq::<Json>::empty());
    while i < items.len()
        invariant
            i <= items@.len(),
            js == json_views(items@),
            js.len() == items@.len(),
            forall|k: int| 0 <= k < items@.len() ==> #[trigger] js[k] == json_view(items@[k]),
            lenient_queries(js.take(i as int)) == Some(out@.map_values(|y: SearchQuery| y@)),
        decreases items.len() - i,
    {
        assert(js.take(i + 1).drop_last() =~= js.take(i as int));
        assert(js.take(i + 1).last() == json_view(items@[i as int]));
        match search_query_from_value(&items[i]) {
            Some(x) => {
                proof {
                    lemma_map_push(out@, x, |y: SearchQuery| y@);
                }
                out.push(x);
            },
            None => {
                proof {
                    lemma_decode_all_prefix_none(js, i + 1, |j: Json| lenient_query(j));
                }
                return None;
            },
        }
        i = i + 1;
    }
    assert(js.take(items@.len() as int) =~= js);
    Some(out)
}

/// The query field `field` given leniently (see [`lenient_query_field`]).
pub fn normalize_query_field(fields: &Vec<(String, JsonValue)>, field: &str) -> (res: Option<
    Option<Vec<SearchQuery>>,
>)
    ensures
        match res {
            Some(x) => lenient_query_field(field_views(fields@), field@) == Some(
                opt_queries_view(x),
            ),
            None => lenient_query_field(field_views(fields@), field@) is None,
        },
{
    match object_get(fields, field) {
        None => Some(None),
        Some(JsonValue::Array(items)) => match query_values(items) {
            Some(qs) => Some(Some(qs)),
            None => None,
        },
        Some(value) => match search_query_from_value(value) {
            Some(q) => {
                Some(Some(single_query(q)))
            },
            None => None,
        },
    }
}

/// Commands made of these search queries alone.
fn commands_with_search_queries(qs: Vec<SearchQuery>) -> (res: SearchCommands)
    ensures
        res@ == with_search_queries(queries_view(qs@)),
{
    SearchCommands { search_query: Some(qs), image_query: None, open: None, find: None }
}

fn single_query(q: SearchQuery) -> (res: Vec<SearchQuery>)
    ensures
        queries_view(res@) == seq![q@],
{
    let mut qs: Vec<SearchQuery> = Vec::new();
    qs.push(q);
    proof {
        assert(queries_view(qs@) =~= seq![q@]);
    }
    qs
}

/// The commands that a lenient JSON shape stands for (see [`lenient_commands`]).
pub fn search_commands_from_lenient_value(value: &JsonValue) -> (res: Option<SearchCommands>)
    ensures
        opt_view(res) == lenient_commands(value@),
{
    match value {
        JsonValue::String(q) => Some(
            commands_with_search_queries(single_query(search_query(q.clone()))),
        ),
        JsonValue::Array(items) => match query_values(items) {
            Some(qs) => Some(commands_with_search_queries(qs)),
            None => None,
        },
        JsonValue::Object(fields) => {
            if object_get(fields, "q").is_some() {
                match decode_search_query(value) {
                    Some(q) => Some(commands_with_search_queries(single_query(q))),
                    None => None,
                }
            } else if !has_only_command_fields(fields) {
                None
            } else {
                let search_query = match normalize_query_field(fields, "search_query") {
                    Some(x) => x,
                    None => return None,
                };
                let image_query = match normalize_query_field(fields, "image_query") {
                    Some(x) => x,
                    None => return None,
                };
                let open = match decode_opens_field(fields, "open") {
                    Some(x) => x,
                    None => return None,
                };
                let find = match decode_finds_field(fields, "find") {
                    Some(x) => x,
                    None => return None,
                };
                Some(SearchCommands { search_query, image_query, open, find })
            }
        },
        _ => None,
    }
}

/// The commands that lenient JSON text stands for; `None` when the text is not JSON.
pub fn parse_lenient_search_commands(arguments: &str) -> (res: Option<SearchCommands>)
    ensures
        opt_view(res) == match json_parse(arguments@) {
            Ok(j) => lenient_commands(j),
            Err(_) => None,
        },
{
    match parse_json(arguments) {
        Ok(value) => search_commands_from_lenient_value(&value),
        Err(_) => None,
    }
}

/// The commands of parsed JSON (see [`commands_from_json`]).
pub fn search_commands_from_json(parsed: Result<JsonValue, String>) -> (res: Result<
    SearchCommands,
    RejectedSearchCommands,
>)
    ensures
        commands_result_view(res) == commands_from_json(json_result_view(parsed)),
{
    match parsed {
        Err(_) => Err(RejectedSearchCommands),
        Ok(value) => match decode_search_commands(&value) {
            Some(c) => Ok(c),
            None => match search_commands_from_lenient_value(&value) {
                Some(c) => Ok(c),
                None => Err(RejectedSearchCommands),
            },
        },
    }
}

/// Parses the arguments of a web-search tool call into commands: blank arguments
/// hold no commands; otherwise the JSON they hold must be commands in their JSON
/// format or one of the lenient shapes (see [`commands_from_arguments`]). When it is
/// neither, the error says so, and the caller reports the error of the serde parse of
/// the arguments as commands.
pub fn parse_search_commands(arguments: &str) -> (res: Result<SearchCommands, RejectedSearchCommands>)
    ensures
        commands_result_view(res) == commands_from_arguments(arguments@),
{
    if trim(arguments).unicode_len() == 0 {
        return Ok(SearchCommands::default());
    }
    search_commands_from_json(parse_json(arguments))
}

// ------------------------------------------------------------------------------------
// The reported action
// ------------------------------------------------------------------------------------

/// What a web-search call is reported as doing.
#[derive(Debug, PartialEq, Eq)]
pub enum WebSearchAction {
    Search { query: Option<String>, queries: Option<Vec<String>> },
    OpenPage { url: Option<String> },
    FindInPage { url: Option<String>, pattern: Option<String> },
    Other,
}

pub enum ActionModel {
    Search { query: Option<Seq<char>>, queries: Option<Seq<Seq<char>>> },
    OpenPage { url: Option<Seq<char>> },
    FindInPage { url: Option<Seq<char>>, pattern: Option<Seq<char>> },
    Other,
}

impl View for WebSearchAction {
    type V = ActionModel;

    open spec fn view(&self) -> ActionModel {
        match self {
            WebSearchAction::Search { query, queries } => ActionModel::Search {
                query: opt_string_view(*query),
                queries: match queries {
                    Some(v) => Some(strings_view(v@)),
                    None => None,
                },
            },
            WebSearchAction::OpenPage { url } => ActionModel::OpenPage { url: opt_string_view(*url) },
            WebSearchAction::FindInPage { url, pattern } => ActionModel::FindInPage {
                url: opt_string_view(*url),
                pattern: opt_string_view(*pattern),
            },
            WebSearchAction::Other => ActionModel::Other,
        }
    }
}

/// The action for a list of queries: none for no query, the query for one, all of
/// their texts for several.
pub open spec fn query_action_of(qs: Seq<QueryModel>) -> Option<ActionModel> {
    if qs.len() == 0 {
        None
    } else if qs.len() == 1 {
        Some(ActionModel::Search { query: Some(qs[0].q), queries: None })
    } else {
        Some(ActionModel::Search { query: None, queries: Some(qs.map_values(|q: QueryModel| q.q)) })
    }
}

/// A reference id that parses as a URL is that URL; otherwise there is none.
pub open spec fn literal_url_of(ref_id: Seq<char>) -> Option<Seq<char>> {
    if url_parse(ref_id) is Ok {
        Some(ref_id)
    } else {
        None
    }
}

/// The action reported for commands: the search queries if any, else the image
/// queries if any, else opening the first page when its reference is a URL, else
/// finding the pattern of the first find operation, else another action.
pub open spec fn command_action_of(c: CommandsModel) -> ActionModel {
    let from_search = match c.search_query {
        Some(qs) => query_action_of(qs),
        None => None,
    };
    let from_image = match c.image_query {
        Some(qs) => query_action_of(qs),
        None => None,
    };
    let from_open = match c.open {
        Some(ops) => if ops.len() > 0 {
            match literal_url_of(ops[0].ref_id) {
                Some(url) => Some(ActionModel::OpenPage { url: Some(url) }),
                None => None,
            }
        } else {
            None
        },
        None => None,
    };
    let from_find = match c.find {
        Some(ops) => if ops.len() > 0 {
            Some(
                ActionModel::FindInPage {
                    url: literal_url_of(ops[0].ref_id),
                    pattern: Some(ops[0].pattern),
                },
            )
        } else {
            None
        },
        None => None,
    };
    if let Some(a) = from_search {
        a
    } else if let Some(a) = from_image {
        a
    } else if let Some(a) = from_open {
        a
    } else if let Some(a) = from_find {
        a
    } else {
        ActionModel::Other
    }
}

/// The action for a list of queries (see [`query_action_of`]).
pub fn query_action(queries: &Vec<SearchQuery>) -> (res: Option<WebSearchAction>)
    ensures
        opt_view(res) == query_action_of(queries_view(queries@)),
{
    if queries.len() == 0 {
        return None;
    }
    if queries.len() == 1 {
        return Some(WebSearchAction::Search { query: Some(queries[0].q.clone()), queries: None });
    }
    let mut texts: Vec<String> = Vec::new();
    let mut i: usize = 0;
    while i < queries.len()
        invariant
            i <= queries@.len(),
            strings_view(texts@) == queries_view(queries@).take(i as int).map_values(
                |q: QueryModel| q.q,
            ),
        decreases queries.len() - i,
    {
        let t = queries[i].q.clone();
        proof {
            lemma_map_push(texts@, t, |y: String| y@);
            assert(queries_view(queries@).take(i + 1).map_values(|q: QueryModel| q.q) =~= queries_view(
                queries@,
            ).take(i as int).map_values(|q: QueryModel| q.q).push(t@));
        }
        texts.push(t);
        i = i + 1;
    }
    proof {
        assert(queries_view(queries@).take(queries@.len() as int) =~= queries_view(queries@));
    }
    Some(WebSearchAction::Search { query: None, queries: Some(texts) })
}

/// The URL that a reference id is, once parsed: the reference itself when it parsed.
pub fn literal_url_from_parse(ref_id: &str, parsed: Result<String, String>) -> (res: Option<String>)
    ensures
        opt_string_view(res) == if parsed is Ok {
            Some(ref_id@)
        } else {
            None::<Seq<char>>
        },
{
    if parsed.is_ok() {
        Some(String::from_str(ref_id))
    } else {
        None
    }
}

/// The URL that a reference id is, when it parses as one.
pub fn literal_url(ref_id: &str) -> (res: Option<String>)
    ensures
        opt_string_view(res) == literal_url_of(ref_id@),
{
    literal_url_from_parse(ref_id, parse_url(ref_id))
}

/// The action reported for commands (see [`command_action_of`]).
pub fn command_action(commands: &SearchCommands) -> (res: WebSearchAction)
    ensures
        res@ == command_action_of(commands@),
{
    if let Some(qs) = &commands.search_query {
        if let Some(a) = query_action(qs) {
            return a;
        }
    }
    if let Some(qs) = &commands.image_query {
        if let Some(a) = query_action(qs) {
            return a;
        }
    }
    if let Some(ops) = &commands.open {
        if ops.len() > 0 {
            if let Some(url) = literal_url(ops[0].ref_id.as_str()) {
                return WebSearchAction::OpenPage { url: Some(url) };
            }
        }
    }
    if let Some(ops) = &commands.find {
        if ops.len() > 0 {
            return WebSearchAction::FindInPage {
                url: literal_url(ops[0].ref_id.as_str()),
                pattern: Some(ops[0].pattern.clone()),
            };
        }
    }
    WebSearchAction::Other
}

/// When the search queries hold at least one query, the reported action is the search
/// they make: its only query, or the texts of all of them; whatever the image
/// queries, open and find operations hold.
pub proof fn law_search_queries_decide_the_action(c: CommandsModel)
    requires
        c.search_query matches Some(qs) && qs.len() > 0,
    ensures
        ({
            let qs = c.search_query->0;
            if qs.len() == 1 {
                command_action_of(c) == ActionModel::Search { query: Some(qs[0].q), queries: None }
            } else {
                command_action_of(c) == ActionModel::Search {
                    query: None,
                    queries: Some(Seq::new(qs.len(), |i: int| qs[i].q)),
                }
            }
        }),
{
    let qs = c.search_query->0;
    assert(qs.map_values(|q: QueryModel| q.q) =~= Seq::new(qs.len(), |i: int| qs[i].q));
}

/// Without search queries, image queries decide the action in the same way, whatever
/// the open and find operations hold.
pub proof fn law_image_queries_come_next(c: CommandsModel)
    requires
        c.search_query matches Some(qs) ==> qs.len() == 0,
        c.image_query matches Some(qs) && qs.len() > 0,
    ensures
        ({
            let qs = c.image_query->0;
            if qs.len() == 1 {
                command_action_of(c) == ActionModel::Search { query: Some(qs[0].q), queries: None }
            } else {
                command_action_of(c) == ActionModel::Search {
                    query: None,
                    queries: Some(Seq::new(qs.len(), |i: int| qs[i].q)),
                }
            }
        }),
{
    let qs = c.image_query->0;
    assert(qs.map_values(|q: QueryModel| q.q) =~= Seq::new(qs.len(), |i: int| qs[i].q));
}

/// The commands object with the single field `key` set to `value`.
pub open spec fn single_field_object(key: Seq<char>, value: Json) -> Json {
    Json::Object(seq![(key, value)])
}

/// A lenient query `x` (a bare string or a query object) given as the value of
/// `search_query` means the same as the one-element array `[x]`: both parse to
/// commands whose search queries are that one query, and nothing else set.
pub proof fn law_single_search_query_is_a_one_element_list(x: Json)
    requires
        lenient_query(x) is Some,
    ensures
        commands_from_json(Ok(single_field_object("search_query"@, x))) == commands_from_json(
            Ok(single_field_object("search_query"@, Json::Array(seq![x]))),
        ),
        commands_from_json(Ok(single_field_object("search_query"@, x))) == Some(
            with_search_queries(seq![lenient_query(x)->0]),
        ),
{
    reveal_strlit("search_query");
    reveal_strlit("image_query");
    reveal_strlit("open");
    reveal_strlit("find");
    reveal_strlit("q");
    let key = "search_query"@;
    assert(key.len() == 12);
    assert("q"@.len() == 1);
    assert("image_query"@.len() == 11);
    assert(key != "q"@);
    assert(key != "image_query"@);
    assert(key != "open"@);
    assert(key != "find"@);
    let fields1 = seq![(key, x)];
    let fields2 = seq![(key, Json::Array(seq![x]))];
    assert(fields1[0].0 == key);
    assert(fields1.drop_first() =~= Seq::<(Seq<char>, Json)>::empty());
    assert(fields2.drop_first() =~= Seq::<(Seq<char>, Json)>::empty());
    let none = Seq::<(Seq<char>, Json)>::empty();
    assert(field_of(none, "q"@) is None);
    assert(field_of(none, "image_query"@) is None);
    assert(field_of(none, "open"@) is None);
    assert(field_of(none, "find"@) is None);
    assert(field_of(fields1, key) == Some(x));
    assert(field_of(fields1, "q"@) is None);
    assert(field_of(fields1, "image_query"@) is None);
    assert(field_of(fields1, "open"@) is None);
    assert(field_of(fields1, "find"@) is None);
    assert(field_of(fields2, key) == Some(Json::Array(seq![x])));
    assert(field_of(fields2, "q"@) is None);
    assert(field_of(fields2, "image_query"@) is None);
    assert(field_of(fields2, "open"@) is None);
    assert(field_of(fields2, "find"@) is None);
    assert(only_command_fields(fields1));
    assert(only_command_fields(fields2));
    let one = seq![x];
    assert(one.drop_last() =~= Seq::<Json>::empty());
    assert(one.last() == x);
    assert(decode_all(Seq::<Json>::empty(), |j: Json| lenient_query(j)) == Some(
        Seq::<QueryModel>::empty(),
    ));
    assert(Seq::<QueryModel>::empty().push(lenient_query(x)->0) =~= seq![lenient_query(x)->0]);
    assert(lenient_queries(one) == Some(seq![lenient_query(x)->0]));
    assert(decode_all(Seq::<Json>::empty(), |j: Json| decode_query(j)) == Some(
        Seq::<QueryModel>::empty(),
    ));
    assert(decode_queries(one) == match decode_query(x) {
        Some(q) => Some(Seq::<QueryModel>::empty().push(q)),
        None => None,
    });
    if let Some(q) = decode_query(x) {
        assert(Seq::<QueryModel>::empty().push(q) =~= seq![q]);
    }
}

/// A bare JSON string `s` is the commands with the single search query `s`, with no
/// recency and no domains, and nothing else set.
pub proof fn law_bare_string_is_one_search_query(s: Seq<char>)
    ensures
        commands_from_json(Ok(Json::Str(s))) == Some(
            CommandsModel {
                search_query: Some(seq![QueryModel { q: s, recency: None, domains: None }]),
                image_query: None,
                open: None,
                find: None,
            },
        ),
{
}

/// A JSON array of bare strings is the commands whose search queries are those
/// strings, in order, each with no recency and no domains.
pub proof fn law_array_of_strings_is_search_queries(items: Seq<Seq<char>>)
    ensures
        commands_from_json(Ok(Json::Array(items.map_values(|t: Seq<char>| Json::Str(t))))) == Some(
            CommandsModel {
                search_query: Some(
                    items.map_values(|t: Seq<char>| QueryModel { q: t, recency: None, domains: None }),
                ),
                image_query: None,
                open: None,
                find: None,
            },
        ),
{
    lemma_lenient_strings(items);
}

proof fn lemma_lenient_strings(items: Seq<Seq<char>>)
    ensures
        lenient_queries(items.map_values(|t: Seq<char>| Json::Str(t))) == Some(
            items.map_values(|t: Seq<char>| QueryModel { q: t, recency: None, domains: None }),
        ),
    decreases items.len(),
{
    let js = items.map_values(|t: Seq<char>| Json::Str(t));
    if items.len() == 0 {
        assert(js =~= Seq::<Json>::empty());
        assert(items.map_values(|t: Seq<char>| QueryModel { q: t, recency: None, domains: None })
            =~= Seq::<QueryModel>::empty());
    } else {
        lemma_lenient_strings(items.drop_last());
        assert(js.drop_last() =~= items.drop_last().map_values(|t: Seq<char>| Json::Str(t)));
        assert(items.map_values(|t: Seq<char>| QueryModel { q: t, recency: None, domains: None })
            =~= items.drop_last().map_values(
            |t: Seq<char>| QueryModel { q: t, recency: None, domains: None },
        ).push(QueryModel { q: items.last(), recency: None, domains: None }));
    }
}

/// Arguments made of whitespace alone hold no commands.
pub proof fn law_blank_arguments_hold_no_commands(arguments: Seq<char>)
    requires
        forall|i: int| 0 <= i < arguments.len() ==> crate::text::is_whitespace(#[trigger] arguments[i]),
    ensures
        commands_from_arguments(arguments) == Some(
            CommandsModel { search_query: None, image_query: None, open: None, find: None },
        ),
{
    lemma_all_whitespace_trims_empty(arguments);
}

proof fn lemma_all_whitespace_trims_empty(s: Seq<char>)
    requires
        forall|i: int| 0 <= i < s.len() ==> crate::text::is_whitespace(#[trigger] s[i]),
    ensures
        crate::text::trim_start_ws(s).len() == 0,
    decreases s.len(),
{
    if s.len() > 0 {
        assert(crate::text::is_whitespace(s[0]));
        assert forall|i: int| 0 <= i < s.drop_first().len() implies crate::text::is_whitespace(
            #[trigger] s.drop_first()[i],
        ) by {
            assert(s.drop_first()[i] == s[i + 1]);
        }
        lemma_all_whitespace_trims_empty(s.drop_first());
    }
}

/// With no search or image query, the action comes from the navigation operations:
/// opening the first page when its reference parses as a URL; otherwise finding the
/// first find operation's pattern, with its reference as the URL when it parses as
/// one; otherwise another action.
pub proof fn law_navigation_actions(c: CommandsModel)
    requires
        c.search_query matches Some(qs) ==> qs.len() == 0,
        c.image_query matches Some(qs) ==> qs.len() == 0,
    ensures
        ({
            let open_url = c.open matches Some(ops) && ops.len() > 0 && url_parse(ops[0].ref_id) is Ok;
            let has_find = c.find matches Some(ops) && ops.len() > 0;
            if open_url {
                command_action_of(c) == ActionModel::OpenPage { url: Some(c.open->0[0].ref_id) }
            } else if has_find {
                let op = c.find->0[0];
                command_action_of(c) == ActionModel::FindInPage {
                    url: if url_parse(op.ref_id) is Ok {
                        Some(op.ref_id)
                    } else {
                        None
                    },
                    pattern: Some(op.pattern),
                }
            } else {
                command_action_of(c) == ActionModel::Other
            }
        }),
{
}

/// A query object is decoded from its string `q`: without it nothing decodes; with
/// it, an absent or `null` `recency` and `domains` stay unset, a non-negative integer
/// `recency` is kept, and other fields play no part.
pub proof fn law_query_object_decoding(fields: Seq<(Seq<char>, Json)>)
    ensures
        !(field_of(fields, "q"@) matches Some(Json::Str(_))) ==> decode_query(Json::Object(fields))
            is None,
        (field_of(fields, "q"@) matches Some(Json::Str(_))) && (field_of(fields, "recency"@) is None
            || field_of(fields, "recency"@) == Some(Json::Null)) && (field_of(fields, "domains"@) is None
            || field_of(fields, "domains"@) == Some(Json::Null)) ==> decode_query(
            Json::Object(fields),
        ) == Some(QueryModel { q: field_of(fields, "q"@)->0->Str_0, recency: None, domains: None }),
        forall|n: u64|
            field_of(fields, "recency"@) == Some(Json::Number(Some(n))) && decode_query(
                Json::Object(fields),
            ) is Some ==> decode_query(Json::Object(fields))->0.recency == Some(n),
        field_of(fields, "recency"@) matches Some(Json::Str(_)) ==> decode_query(
            Json::Object(fields),
        ) is None,
{
}

} // verus!
