//! The local web-search broker: its base URL, its search endpoint, and what its
//! replies mean.
use vstd::prelude::*;

use crate::json::get_field;
use crate::json::json_parse;
use crate::json::json_result_view;
use crate::json::object_get;
use crate::json::parse_json;
use crate::json::Json;
use crate::json::JsonValue;
use crate::text::concat_str;
use crate::text::ends_with;
use crate::text::has_suffix;
use crate::text::is_whitespace;
use crate::text::lemma_trim_end_char_prefix;
use crate::text::lemma_trim_end_ws_prefix;
use crate::text::lemma_trim_start_ws_first;
use crate::text::lemma_trim_ws_noop;
use crate::text::trim_start_ws;
use crate::text::opt_string_view;
use crate::text::result_view;
use crate::text::trim;
use crate::text::trim_end_char;
use crate::text::trim_end_matches_char;
use crate::text::trim_ws;
use crate::urls::parse_url;
use crate::urls::url_parse;

verus! {

/// Environment variable that names the broker URL.
pub const CODEX_LOCAL_SEARCH_URL_ENV: &'static str = "CODEX_WEB_SEARCH_LOCAL_URL";

/// Environment variable that names the broker URL when the first one is unset.
pub const UMBRA_SEARCHD_URL_ENV: &'static str = "UMBRA_SEARCHD_URL";

/// Broker URL used when neither environment variable is set.
pub const DEFAULT_LOCAL_SEARCH_URL: &'static str = "http://127.0.0.1:8765";

/// Path of the search endpoint below the broker URL.
pub const SEARCH_PATH: &'static str = "/search";

/// Prefix of the error for a broker URL that does not parse.
pub const INVALID_URL_ERROR: &'static str = "invalid local web search broker URL: ";

/// Prefix of the error for a request that could not be sent.
pub const REQUEST_FAILED_ERROR: &'static str = "local web search broker request failed: ";

/// Prefix of the error for a response body that could not be read.
pub const READ_FAILED_ERROR: &'static str = "local web search broker response read failed: ";

/// Prefix of the error for a reply whose status is not a success.
pub const BAD_STATUS_ERROR: &'static str = "local web search broker returned ";

/// Prefix of the error for a reply body that is not JSON.
pub const INVALID_JSON_ERROR: &'static str = "local web search broker returned invalid JSON: ";

/// Error for a reply without a string field `output`.
pub const MISSING_OUTPUT_ERROR: &'static str =
    "local web search broker JSON missing string field `output`";

/// Field of the broker's JSON reply that holds the search output.
pub const OUTPUT_FIELD: &'static str = "output";

/// Number of body characters that an error for a bad status quotes.
pub const QUOTED_BODY_CHARS: usize = 500;

/// A web-search backend that posts requests to a local broker.
#[derive(Clone, Debug, Eq, PartialEq)]
pub struct LocalSearchBackend {
    base_url: String,
}

impl View for LocalSearchBackend {
    type V = Seq<char>;

    /// The configured base URL.
    closed spec fn view(&self) -> Seq<char> {
        self.base_url@
    }
}

/// The base URL read from the environment: the first variable that is set, else the
/// default.
pub open spec fn configured_base_url(codex_url: Option<Seq<char>>, umbra_url: Option<Seq<char>>) -> Seq<
    char,
> {
    match codex_url {
        Some(u) => u,
        None => match umbra_url {
            Some(u) => u,
            None => DEFAULT_LOCAL_SEARCH_URL@,
        },
    }
}

/// The endpoint text for a base URL: trimmed of whitespace and of trailing slashes,
/// then given the `/search` path unless it already ends with it.
pub open spec fn endpoint_text(base_url: Seq<char>) -> Seq<char> {
    let trimmed = trim_end_char(trim_ws(base_url), '/');
    if has_suffix(trimmed, SEARCH_PATH@) {
        trimmed
    } else {
        trimmed + SEARCH_PATH@
    }
}

/// What becomes of the parsed endpoint: the URL, or the parse error behind the
/// invalid-URL prefix.
pub open spec fn endpoint_from_parse(parsed: Result<Seq<char>, Seq<char>>) -> Result<
    Seq<char>,
    Seq<char>,
> {
    match parsed {
        Ok(u) => Ok(u),
        Err(e) => Err(INVALID_URL_ERROR@ + e),
    }
}

/// The search endpoint of a base URL.
pub open spec fn search_endpoint_of(base_url: Seq<char>) -> Result<Seq<char>, Seq<char>> {
    endpoint_from_parse(url_parse(endpoint_text(base_url)))
}

impl LocalSearchBackend {
    /// The backend for the URL named by the environment, given the values of
    /// `CODEX_WEB_SEARCH_LOCAL_URL` and `UMBRA_SEARCHD_URL` (`None` where unset).
    pub fn from_env_values(codex_url: Option<String>, umbra_url: Option<String>) -> (res: Self)
        ensures
            res@ == configured_base_url(opt_string_view(codex_url), opt_string_view(umbra_url)),
    {
        let base_url = match codex_url {
            Some(u) => u,
            None => match umbra_url {
                Some(u) => u,
                None => String::from_str(DEFAULT_LOCAL_SEARCH_URL),
            },
        };
        LocalSearchBackend { base_url }
    }

    /// The backend for the broker at `base_url`.
    pub fn new(base_url: &str) -> (res: Self)
        ensures
            res@ == base_url@,
    {
        LocalSearchBackend { base_url: String::from_str(base_url) }
    }

    /// The configured base URL.
    pub fn base_url(&self) -> (res: &str)
        ensures
            res@ == self@,
    {
        self.base_url.as_str()
    }

    /// The URL that search requests are posted to.
    pub fn search_endpoint(&self) -> (res: Result<String, String>)
        ensures
            result_view(res) == search_endpoint_of(self@),
    {
        search_endpoint(self.base_url.as_str())
    }
}

/// The text of the search endpoint for `base_url`, before it is parsed.
pub fn search_endpoint_text(base_url: &str) -> (res: String)
    ensures
        res@ == endpoint_text(base_url@),
{
    let trimmed = trim_end_matches_char(trim(base_url), '/');
    if ends_with(trimmed, SEARCH_PATH) {
        String::from_str(trimmed)
    } else {
        concat_str(trimmed, SEARCH_PATH)
    }
}

/// The endpoint once parsed: the URL, or the parse error behind the invalid-URL prefix.
pub fn endpoint_from_parsed(parsed: Result<String, String>) -> (res: Result<String, String>)
    ensures
        result_view(res) == endpoint_from_parse(result_view(parsed)),
{
    match parsed {
        Ok(u) => Ok(u),
        Err(e) => Err(concat_str(INVALID_URL_ERROR, e.as_str())),
    }
}

/// The search endpoint for `base_url`: the trimmed URL with the `/search` path, parsed.
pub fn search_endpoint(base_url: &str) -> (res: Result<String, String>)
    ensures
        result_view(res) == search_endpoint_of(base_url@),
{
    let text = search_endpoint_text(base_url);
    endpoint_from_parsed(parse_url(text.as_str()))
}

/// The search output held by a JSON reply: its string field `output`.
pub open spec fn output_field(v: Json) -> Option<Seq<char>> {
    match get_field(v, OUTPUT_FIELD@) {
        Some(Json::Str(s)) => Some(s),
        _ => None,
    }
}

/// The outcome for a parsed reply body: the `output` string, the parse error behind
/// the invalid-JSON prefix, or the missing-output error.
pub open spec fn output_from_parse(parsed: Result<Json, Seq<char>>) -> Result<Seq<char>, Seq<char>> {
    match parsed {
        Err(e) => Err(INVALID_JSON_ERROR@ + e),
        Ok(v) => match output_field(v) {
            Some(s) => Ok(s),
            None => Err(MISSING_OUTPUT_ERROR@),
        },
    }
}

/// The outcome for a reply body once parsed as JSON.
pub fn output_from_json(parsed: Result<JsonValue, String>) -> (res: Result<String, String>)
    ensures
        result_view(res) == output_from_parse(json_result_view(parsed)),
{
    match parsed {
        Err(e) => Err(concat_str(INVALID_JSON_ERROR, e.as_str())),
        Ok(v) => {
            let output = match &v {
                JsonValue::Object(fields) => match object_get(fields, OUTPUT_FIELD) {
                    Some(JsonValue::String(s)) => Some(s.clone()),
                    _ => None,
                },
                _ => None,
            };
            match output {
                Some(s) => Ok(s),
                None => Err(String::from_str(MISSING_OUTPUT_ERROR)),
            }
        },
    }
}

/// The search output of a reply body: the string field `output` of its JSON.
pub fn output_from_response_body(body: &str) -> (res: Result<String, String>)
    ensures
        result_view(res) == output_from_parse(json_parse(body@)),
{
    output_from_json(parse_json(body))
}

/// What came of posting a search request to the broker.
pub enum BrokerReply {
    /// The request could not be sent; the transport's error text.
    RequestFailed(String),
    /// The response body could not be read; the transport's error text.
    ReadFailed(String),
    /// A response came back with this status and body.
    Received { success: bool, status: String, body: String },
}

/// At most the first `QUOTED_BODY_CHARS` characters of `body`.
pub open spec fn quoted_body(body: Seq<char>) -> Seq<char> {
    if body.len() <= QUOTED_BODY_CHARS {
        body
    } else {
        body.take(QUOTED_BODY_CHARS as int)
    }
}

/// The outcome of a search exchange: transport failures and non-success statuses
/// become errors that name them (a bad status quotes the start of the body); a
/// successful reply yields the output of its body.
pub open spec fn search_outcome_of(reply: BrokerReply) -> Result<Seq<char>, Seq<char>> {
    match reply {
        BrokerReply::RequestFailed(e) => Err(REQUEST_FAILED_ERROR@ + e@),
        BrokerReply::ReadFailed(e) => Err(READ_FAILED_ERROR@ + e@),
        BrokerReply::Received { success, status, body } => if !success {
            Err(BAD_STATUS_ERROR@ + status@ + ": "@ + quoted_body(body@))
        } else {
            output_from_parse(json_parse(body@))
        },
    }
}

/// The outcome of a search exchange with the broker.
pub fn search_outcome(reply: BrokerReply) -> (res: Result<String, String>)
    ensures
        result_view(res) == search_outcome_of(reply),
{
    match reply {
        BrokerReply::RequestFailed(e) => Err(concat_str(REQUEST_FAILED_ERROR, e.as_str())),
        BrokerReply::ReadFailed(e) => Err(concat_str(READ_FAILED_ERROR, e.as_str())),
        BrokerReply::Received { success, status, body } => {
            if !success {
                let n = body.as_str().unicode_len();
                let k = if n <= QUOTED_BODY_CHARS {
                    n
                } else {
                    QUOTED_BODY_CHARS
                };
                let quoted = body.as_str().substring_char(0, k);
                let mut msg = concat_str(BAD_STATUS_ERROR, status.as_str());
                msg.append(": ");
                msg.append(quoted);
                proof {
                    assert(body@.subrange(0, n as int) =~= body@);
                }
                Err(msg)
            } else {
                output_from_response_body(body.as_str())
            }
        },
    }
}

/// The endpoint text always ends with the `/search` path, and computing the endpoint
/// text of an endpoint text gives it back unchanged: a base URL that already names
/// the search endpoint names the same endpoint.
pub proof fn law_endpoint_text_is_idempotent(base_url: Seq<char>)
    ensures
        has_suffix(endpoint_text(base_url), SEARCH_PATH@),
        endpoint_text(endpoint_text(base_url)) == endpoint_text(base_url),
{
    reveal_strlit("/search");
    let start = trim_start_ws(base_url);
    let t = trim_end_char(trim_ws(base_url), '/');
    lemma_trim_start_ws_first(base_url);
    lemma_trim_end_ws_prefix(start);
    lemma_trim_end_char_prefix(trim_ws(base_url), '/');
    if t.len() > 0 {
        assert(t[0] == trim_ws(base_url)[0]);
        assert(trim_ws(base_url)[0] == start[0]);
    }
    let e = endpoint_text(base_url);
    assert(SEARCH_PATH@.len() == 7);
    assert(SEARCH_PATH@[6] == 'h');
    assert(SEARCH_PATH@[0] == '/');
    if has_suffix(t, SEARCH_PATH@) {
        assert(t.subrange(t.len() - 7, t.len() as int)[6] == t.last());
    } else {
        assert(e.subrange(e.len() - SEARCH_PATH@.len(), e.len() as int) =~= SEARCH_PATH@);
        if t.len() > 0 {
            assert(e[0] == t[0]);
        }
    }
    assert(e.last() == 'h');
    assert(!is_whitespace(e[0]));
    assert(!is_whitespace('h'));
    lemma_trim_ws_noop(e);
}

/// A reply body that parses to a JSON object whose field `output` is the string `s`
/// yields `s`, whatever other fields the object holds.
pub proof fn law_output_is_the_output_field(fields: Seq<(Seq<char>, Json)>, s: Seq<char>)
    requires
        crate::json::field_of(fields, OUTPUT_FIELD@) == Some(Json::Str(s)),
    ensures
        output_from_parse(Ok(Json::Object(fields))) == Ok::<Seq<char>, Seq<char>>(s),
{
}

/// A reply body that is not JSON is reported with the parser's error behind the
/// invalid-JSON prefix; JSON that is not an object, or an object without a string
/// field `output`, is reported as missing its output.
pub proof fn law_output_errors(parsed: Result<Json, Seq<char>>)
    ensures
        parsed matches Err(e) ==> output_from_parse(parsed) == Err::<Seq<char>, Seq<char>>(
            INVALID_JSON_ERROR@ + e,
        ),
        parsed matches Ok(v) ==> (!(v matches Json::Object(fields) && crate::json::field_of(
            fields,
            OUTPUT_FIELD@,
        ) matches Some(Json::Str(_))) ==> output_from_parse(parsed) == Err::<Seq<char>, Seq<char>>(
            MISSING_OUTPUT_ERROR@,
        )),
{
}

/// A transport failure or a status that is not a success never yields output: the
/// error names the failure, and for a bad status it quotes the status and the first
/// characters of the body, at most `QUOTED_BODY_CHARS` of them.
pub proof fn law_failed_exchanges_are_errors(reply: BrokerReply)
    ensures
        reply matches BrokerReply::RequestFailed(e) ==> search_outcome_of(reply) == Err::<
            Seq<char>,
            Seq<char>,
        >(REQUEST_FAILED_ERROR@ + e@),
        reply matches BrokerReply::ReadFailed(e) ==> search_outcome_of(reply) == Err::<
            Seq<char>,
            Seq<char>,
        >(READ_FAILED_ERROR@ + e@),
        reply matches BrokerReply::Received { success, status, body } ==> (!success ==> {
            &&& search_outcome_of(reply) matches Err(msg)
            &&& exists|quoted: Seq<char>|
                {
                    &&& quoted.len() <= QUOTED_BODY_CHARS
                    &&& quoted.len() == body@.len() || quoted.len() == QUOTED_BODY_CHARS
                    &&& quoted == body@.take(quoted.len() as int)
                    &&& search_outcome_of(reply) == Err::<Seq<char>, Seq<char>>(
                        BAD_STATUS_ERROR@ + status@ + ": "@ + quoted,
                    )
                }
        }),
{
    if let BrokerReply::Received { success, status, body } = reply {
        if !success {
            let quoted = quoted_body(body@);
            if body@.len() <= QUOTED_BODY_CHARS {
                assert(body@.take(body@.len() as int) =~= body@);
            }
            assert(quoted == body@.take(quoted.len() as int));
        }
    }
}

/// Whitespace before or after a base URL does not change its endpoint.
pub proof fn law_endpoint_ignores_surrounding_whitespace(base_url: Seq<char>, c: char)
    requires
        is_whitespace(c),
    ensures
        endpoint_text(seq![c] + base_url) == endpoint_text(base_url),
        endpoint_text(base_url.push(c)) == endpoint_text(base_url),
{
    let front = seq![c] + base_url;
    assert(front[0] == c);
    assert(front.drop_first() =~= base_url);
    crate::text::lemma_trim_start_ws_push(base_url, c);
    if trim_start_ws(base_url).len() > 0 {
        crate::text::lemma_trim_end_ws_push(trim_start_ws(base_url), c);
    }
}

/// A slash after a base URL that starts and ends with something other than
/// whitespace does not change its endpoint.
pub proof fn law_endpoint_ignores_trailing_slash(base_url: Seq<char>)
    requires
        base_url.len() > 0,
        !is_whitespace(base_url[0]),
        !is_whitespace(base_url.last()),
    ensures
        endpoint_text(base_url.push('/')) == endpoint_text(base_url),
{
    let b = base_url.push('/');
    assert(b[0] == base_url[0]);
    assert(!is_whitespace('/'));
    lemma_trim_ws_noop(b);
    lemma_trim_ws_noop(base_url);
    assert(b.drop_last() =~= base_url);
}

/// A base URL that starts and ends with something other than whitespace and does not
/// end with a slash is its own endpoint when it ends with `/search`, and otherwise
/// gets `/search` appended.
pub proof fn law_endpoint_of_clean_base(base_url: Seq<char>)
    requires
        base_url.len() > 0,
        !is_whitespace(base_url[0]),
        !is_whitespace(base_url.last()),
        base_url.last() != '/',
    ensures
        base_url.len() >= 7 && base_url.subrange(base_url.len() - 7, base_url.len() as int)
            == "/search"@ ==> endpoint_text(base_url) == base_url,
        !(base_url.len() >= 7 && base_url.subrange(base_url.len() - 7, base_url.len() as int)
            == "/search"@) ==> endpoint_text(base_url) == base_url + "/search"@,
{
    reveal_strlit("/search");
    lemma_trim_ws_noop(base_url);
    assert(SEARCH_PATH@ == "/search"@);
}

} // verus!
