//! The MCP server's JSON-RPC side: which request gets which answer, how tool
//! arguments are read, and the shape of every reply. Running a tool is left
//! to the caller, which hands the tool's output back to [`tool_response`].
use vstd::prelude::*;

use crate::error::{error_text, kind_code, ErrorV, GrokSearchError};
use crate::json::{
    items_view, juint, lemma_items_view, members_view, push_item, push_member, Json, JsonV, NumV,
};
use crate::model::{sources_view, strings_view, Source, SourceV, WebSearchInput, WebSearchInputV};
use crate::text::{cat, owned, str_eq, trim, trim_ws};

verus! {

// ---------------------------------------------------------------------------
// Reading arguments
// ---------------------------------------------------------------------------

/// The string at `key` of an object.
pub open spec fn str_at(v: JsonV, key: Seq<char>) -> Option<Seq<char>> {
    match v.get(key) {
        Some(JsonV::Str(s)) => Some(s),
        _ => None,
    }
}

/// The non-negative integer at `key` of an object.
pub open spec fn u64_at(v: JsonV, key: Seq<char>) -> Option<u64> {
    match v.get(key) {
        Some(x) => x.as_u64(),
        None => None,
    }
}

/// The boolean at `key` of an object.
pub open spec fn bool_at(v: JsonV, key: Seq<char>) -> Option<bool> {
    match v.get(key) {
        Some(x) => x.as_bool(),
        None => None,
    }
}

/// The string elements of an array, trimmed, without the blank ones.
pub open spec fn string_items(items: Seq<JsonV>) -> Seq<Seq<char>>
    decreases items.len(),
{
    if items.len() == 0 {
        Seq::empty()
    } else {
        let rest = string_items(items.drop_last());
        match items.last() {
            JsonV::Str(s) => if trim_ws(s).len() > 0 {
                rest.push(trim_ws(s))
            } else {
                rest
            },
            _ => rest,
        }
    }
}

/// The strings of an optional array value; nothing for anything else.
pub open spec fn string_array(v: Option<JsonV>) -> Seq<Seq<char>> {
    match v {
        Some(JsonV::Array(items)) => string_items(items),
        _ => Seq::empty(),
    }
}

fn get_str<'a>(v: &'a Json, key: &str) -> (r: Option<&'a str>)
    ensures
        match r {
            Some(s) => str_at(v@, key@) == Some(s@),
            None => str_at(v@, key@) is None,
        },
{
    match v.get(key) {
        Some(x) => x.as_str(),
        None => None,
    }
}

fn get_u64(v: &Json, key: &str) -> (r: Option<u64>)
    ensures
        r == u64_at(v@, key@),
{
    match v.get(key) {
        Some(x) => x.as_u64(),
        None => None,
    }
}

fn get_bool(v: &Json, key: &str) -> (r: Option<bool>)
    ensures
        r == bool_at(v@, key@),
{
    match v.get(key) {
        Some(x) => x.as_bool(),
        None => None,
    }
}

fn opt_owned(s: Option<&str>) -> (r: Option<String>)
    ensures
        crate::config::opt_str(r) == match s {
            Some(x) => Some(x@),
            None => None::<Seq<char>>,
        },
{
    match s {
        Some(x) => Some(owned(x)),
        None => None,
    }
}

/// The trimmed, non-blank strings of an array argument.
pub fn parse_string_array(value: Option<&Json>) -> (r: Vec<String>)
    ensures
        strings_view(r@) == string_array(crate::json::opt_view(value)),
{
    let mut out: Vec<String> = Vec::new();
    if let Some(v) = value {
        if let Some(items) = v.as_array() {
            proof {
                lemma_items_view(items@);
            }
            let ghost iv = items_view(items@);
            let mut i: usize = 0;
            while i < items.len()
                invariant
                    i <= items@.len(),
                    iv.len() == items@.len(),
                    forall|k: int| 0 <= k < items@.len() ==> #[trigger] iv[k] == items@[k]@,
                    strings_view(out@) == string_items(iv.take(i as int)),
                decreases items@.len() - i,
            {
                assert(iv.take(i + 1).drop_last() =~= iv.take(i as int));
                assert(iv.take(i + 1).last() == items@[i as int]@);
                if let Some(s) = items[i].as_str() {
                    let t = trim(s);
                    if !t.as_str().is_empty() {
                        let ghost before = out@;
                        out.push(t);
                        assert(strings_view(out@) =~= strings_view(before).push(out@.last()@));
                    }
                }
                i += 1;
            }
            assert(iv.take(iv.len() as int) =~= iv);
        }
    }
    out
}

// ---------------------------------------------------------------------------
// Tool calls
// ---------------------------------------------------------------------------

/// A tool invocation with its arguments read.
#[derive(Debug)]
pub enum ToolCall {
    Doctor,
    WebSearch(WebSearchInput),
    GetSources(String),
    /// A URL and an optional positive character cap.
    WebFetch(String, Option<usize>),
    /// A URL and the number of results wanted.
    WebMap(String, usize),
}

/// The view of a tool invocation.
pub enum ToolCallV {
    Doctor,
    WebSearch(WebSearchInputV),
    GetSources(Seq<char>),
    WebFetch(Seq<char>, Option<usize>),
    WebMap(Seq<char>, usize),
}

impl View for ToolCall {
    type V = ToolCallV;

    open spec fn view(&self) -> ToolCallV {
        match self {
            ToolCall::Doctor => ToolCallV::Doctor,
            ToolCall::WebSearch(i) => ToolCallV::WebSearch(i@),
            ToolCall::GetSources(s) => ToolCallV::GetSources(s@),
            ToolCall::WebFetch(u, m) => ToolCallV::WebFetch(u@, *m),
            ToolCall::WebMap(u, n) => ToolCallV::WebMap(u@, *n),
        }
    }
}

/// The `web_search` arguments read from `args`, given its query.
pub open spec fn spec_search_input(query: Seq<char>, args: JsonV) -> WebSearchInputV {
    WebSearchInputV {
        query: query,
        platform: str_at(args, "platform"@),
        model: str_at(args, "model"@),
        extra_sources: match u64_at(args, "extra_sources"@) {
            Some(n) => Some(n as usize),
            None => None,
        },
        recency_days: match u64_at(args, "recency_days"@) {
            Some(n) => if (n as u32) > 0 {
                Some(n as u32)
            } else {
                None
            },
            None => None,
        },
        include_domains: string_array(args.get("include_domains"@)),
        exclude_domains: string_array(args.get("exclude_domains"@)),
        include_content: bool_at(args, "include_content"@),
    }
}

/// The invocation that a tool name and its arguments ask for, or the error
/// that answers them: a required argument that is missing or not a string,
/// or a tool that does not exist.
pub open spec fn spec_tool_call(name: Seq<char>, args: JsonV) -> Result<ToolCallV, ErrorV> {
    if name == "doctor"@ {
        Ok(ToolCallV::Doctor)
    } else if name == "web_search"@ {
        match str_at(args, "query"@) {
            Some(q) => Ok(ToolCallV::WebSearch(spec_search_input(q, args))),
            None => Err(ErrorV::InvalidParams("web_search.query is required"@)),
        }
    } else if name == "get_sources"@ {
        match str_at(args, "session_id"@) {
            Some(s) => Ok(ToolCallV::GetSources(s)),
            None => Err(ErrorV::InvalidParams("get_sources.session_id is required"@)),
        }
    } else if name == "web_fetch"@ {
        match str_at(args, "url"@) {
            Some(u) => Ok(
                ToolCallV::WebFetch(
                    u,
                    match u64_at(args, "max_chars"@) {
                        Some(n) => if (n as usize) > 0 {
                            Some(n as usize)
                        } else {
                            None
                        },
                        None => None,
                    },
                ),
            ),
            None => Err(ErrorV::InvalidParams("web_fetch.url is required"@)),
        }
    } else if name == "web_map"@ {
        match str_at(args, "url"@) {
            Some(u) => Ok(
                ToolCallV::WebMap(
                    u,
                    match u64_at(args, "max_results"@) {
                        Some(n) => n as usize,
                        None => 10,
                    },
                ),
            ),
            None => Err(ErrorV::InvalidParams("web_map.url is required"@)),
        }
    } else {
        Err(ErrorV::NotFound("unknown tool: "@ + name))
    }
}

fn web_search_input(query: &str, args: &Json) -> (r: WebSearchInput)
    ensures
        r@ == spec_search_input(query@, args@),
{
    let recency_days = match get_u64(args, "recency_days") {
        Some(n) => {
            let d = n as u32;
            if d > 0 {
                Some(d)
            } else {
                None
            }
        },
        None => None,
    };
    WebSearchInput {
        query: owned(query),
        platform: opt_owned(get_str(args, "platform")),
        model: opt_owned(get_str(args, "model")),
        extra_sources: match get_u64(args, "extra_sources") {
            Some(n) => Some(n as usize),
            None => None,
        },
        recency_days,
        include_domains: parse_string_array(args.get("include_domains")),
        exclude_domains: parse_string_array(args.get("exclude_domains")),
        include_content: get_bool(args, "include_content"),
    }
}

fn invalid(msg: &str) -> (e: GrokSearchError)
    ensures
        e@ == ErrorV::InvalidParams(msg@),
{
    GrokSearchError::InvalidParams(owned(msg))
}

/// Reads the arguments of a tool call.
pub fn parse_tool_call(name: &str, args: &Json) -> (r: Result<ToolCall, GrokSearchError>)
    ensures
        match r {
            Ok(c) => spec_tool_call(name@, args@) == Ok::<ToolCallV, ErrorV>(c@),
            Err(e) => spec_tool_call(name@, args@) == Err::<ToolCallV, ErrorV>(e@),
        },
{
    if str_eq(name, "doctor") {
        Ok(ToolCall::Doctor)
    } else if str_eq(name, "web_search") {
        match get_str(args, "query") {
            Some(q) => Ok(ToolCall::WebSearch(web_search_input(q, args))),
            None => Err(invalid("web_search.query is required")),
        }
    } else if str_eq(name, "get_sources") {
        match get_str(args, "session_id") {
            Some(s) => Ok(ToolCall::GetSources(owned(s))),
            None => Err(invalid("get_sources.session_id is required")),
        }
    } else if str_eq(name, "web_fetch") {
        match get_str(args, "url") {
            Some(u) => {
                let max_chars = match get_u64(args, "max_chars") {
                    Some(n) => {
                        let m = n as usize;
                        if m > 0 {
                            Some(m)
                        } else {
                            None
                        }
                    },
                    None => None,
                };
                Ok(ToolCall::WebFetch(owned(u), max_chars))
            },
            None => Err(invalid("web_fetch.url is required")),
        }
    } else if str_eq(name, "web_map") {
        match get_str(args, "url") {
            Some(u) => {
                let max_results = match get_u64(args, "max_results") {
                    Some(n) => n as usize,
                    None => 10,
                };
                Ok(ToolCall::WebMap(owned(u), max_results))
            },
            None => Err(invalid("web_map.url is required")),
        }
    } else {
        Err(GrokSearchError::NotFound(cat("unknown tool: ", name)))
    }
}


// ---------------------------------------------------------------------------
// Replies
// ---------------------------------------------------------------------------

/// The view of a JSON integer as the serializer stores it.
pub open spec fn jint(n: i64) -> JsonV {
    if n >= 0 {
        juint(n as u64)
    } else {
        JsonV::Num(NumV::NegInt(n))
    }
}

/// `{"jsonrpc": "2.0", "id": id, "result": result}`.
pub open spec fn spec_success(id: JsonV, result: JsonV) -> JsonV {
    JsonV::Object(seq![("jsonrpc"@, JsonV::Str("2.0"@)), ("id"@, id), ("result"@, result)])
}

/// `{"jsonrpc": "2.0", "id": id, "error": {"code": code, "message": message}}`.
pub open spec fn spec_error_response(id: JsonV, code: i64, message: Seq<char>) -> JsonV {
    JsonV::Object(
        seq![
            ("jsonrpc"@, JsonV::Str("2.0"@)),
            ("id"@, id),
            (
                "error"@,
                JsonV::Object(seq![("code"@, jint(code)), ("message"@, JsonV::Str(message))]),
            ),
        ],
    )
}

/// A JSON-RPC success response.
pub fn success_response(id: Json, result: Json) -> (r: Json)
    ensures
        r@ == spec_success(id@, result@),
{
    let ghost (iv, rv) = (id@, result@);
    let mut m: Vec<(String, Json)> = Vec::new();
    push_member(&mut m, "jsonrpc", Json::string("2.0"));
    push_member(&mut m, "id", id);
    push_member(&mut m, "result", result);
    assert(members_view(m@) =~= seq![
        ("jsonrpc"@, JsonV::Str("2.0"@)),
        ("id"@, iv),
        ("result"@, rv),
    ]);
    Json::Object(m)
}

/// A JSON-RPC error response.
pub fn error_response(id: Json, code: i64, message: String) -> (r: Json)
    ensures
        r@ == spec_error_response(id@, code, message@),
{
    let ghost (iv, mv) = (id@, message@);
    let mut e: Vec<(String, Json)> = Vec::new();
    push_member(&mut e, "code", Json::integer(code));
    push_member(&mut e, "message", Json::Str(message));
    assert(members_view(e@) =~= seq![("code"@, jint(code)), ("message"@, JsonV::Str(mv))]);
    let ghost ev = members_view(e@);
    let mut m: Vec<(String, Json)> = Vec::new();
    push_member(&mut m, "jsonrpc", Json::string("2.0"));
    push_member(&mut m, "id", id);
    push_member(&mut m, "error", Json::Object(e));
    assert(members_view(m@) =~= seq![
        ("jsonrpc"@, JsonV::Str("2.0"@)),
        ("id"@, iv),
        ("error"@, JsonV::Object(ev)),
    ]);
    Json::Object(m)
}

/// The error response for an error: its code and its text.
pub open spec fn spec_error_reply(id: JsonV, e: ErrorV) -> JsonV {
    spec_error_response(id, kind_code(e) as i64, error_text(e))
}

/// Answers a request with an error.
pub fn error_reply(id: Json, err: &GrokSearchError) -> (r: Json)
    ensures
        r@ == spec_error_reply(id@, err@),
{
    let code = err.code();
    error_response(id, code as i64, err.message())
}

/// The result of a tool call: the output as text, and as structured content.
pub open spec fn spec_tool_result(result: JsonV, text: Seq<char>) -> JsonV {
    JsonV::Object(
        seq![
            (
                "content"@,
                JsonV::Array(
                    seq![
                        JsonV::Object(
                            seq![("type"@, JsonV::Str("text"@)), ("text"@, JsonV::Str(text))],
                        ),
                    ],
                ),
            ),
            ("structuredContent"@, result),
        ],
    )
}

/// The response to a tool call that produced `result`; `text` is the
/// compact JSON text of `result`.
pub fn tool_response(id: Json, result: Json, text: String) -> (r: Json)
    ensures
        r@ == spec_success(id@, spec_tool_result(result@, text@)),
{
    let ghost (rv, tv) = (result@, text@);
    let mut part: Vec<(String, Json)> = Vec::new();
    push_member(&mut part, "type", Json::string("text"));
    push_member(&mut part, "text", Json::Str(text));
    assert(members_view(part@) =~= seq![("type"@, JsonV::Str("text"@)), ("text"@, JsonV::Str(tv))]);
    let ghost pv = JsonV::Object(members_view(part@));
    let mut content: Vec<Json> = Vec::new();
    push_item(&mut content, Json::Object(part));
    assert(items_view(content@) =~= seq![pv]);
    let ghost cv = items_view(content@);
    let mut out: Vec<(String, Json)> = Vec::new();
    push_member(&mut out, "content", Json::Array(content));
    push_member(&mut out, "structuredContent", result);
    assert(members_view(out@) =~= seq![("content"@, JsonV::Array(cv)), ("structuredContent"@, rv)]);
    success_response(id, Json::Object(out))
}

/// The `initialize` result for a server of version `version`.
pub open spec fn spec_initialize_result(version: Seq<char>) -> JsonV {
    JsonV::Object(
        seq![
            ("protocolVersion"@, JsonV::Str("2024-11-05"@)),
            (
                "serverInfo"@,
                JsonV::Object(
                    seq![("name"@, JsonV::Str("grok-search-rs"@)), ("version"@, JsonV::Str(version))],
                ),
            ),
            ("capabilities"@, JsonV::Object(seq![("tools"@, JsonV::Object(Seq::empty()))])),
        ],
    )
}

pub fn initialize_result(version: &str) -> (r: Json)
    ensures
        r@ == spec_initialize_result(version@),
{
    let mut info: Vec<(String, Json)> = Vec::new();
    push_member(&mut info, "name", Json::string("grok-search-rs"));
    push_member(&mut info, "version", Json::string(version));
    assert(members_view(info@) =~= seq![
        ("name"@, JsonV::Str("grok-search-rs"@)),
        ("version"@, JsonV::Str(version@)),
    ]);
    let ghost infov = members_view(info@);
    let mut caps: Vec<(String, Json)> = Vec::new();
    let empty: Vec<(String, Json)> = Vec::new();
    assert(members_view(empty@) =~= Seq::<(Seq<char>, JsonV)>::empty());
    push_member(&mut caps, "tools", Json::Object(empty));
    assert(members_view(caps@) =~= seq![("tools"@, JsonV::Object(Seq::empty()))]);
    let ghost capsv = members_view(caps@);
    let mut m: Vec<(String, Json)> = Vec::new();
    push_member(&mut m, "protocolVersion", Json::string("2024-11-05"));
    push_member(&mut m, "serverInfo", Json::Object(info));
    push_member(&mut m, "capabilities", Json::Object(caps));
    assert(members_view(m@) =~= seq![
        ("protocolVersion"@, JsonV::Str("2024-11-05"@)),
        ("serverInfo"@, JsonV::Object(infov)),
        ("capabilities"@, JsonV::Object(capsv)),
    ]);
    Json::Object(m)
}

/// One source in the `web_map` output: its URL and provider only.
pub open spec fn map_entry(s: SourceV) -> JsonV {
    JsonV::Object(seq![("url"@, JsonV::Str(s.url)), ("provider"@, JsonV::Str(s.provider))])
}

/// The `web_map` output: the URL, how many sources, and the sources.
pub open spec fn spec_web_map_output(url: Seq<char>, sources: Seq<SourceV>) -> JsonV {
    JsonV::Object(
        seq![
            ("url"@, JsonV::Str(url)),
            ("sources_count"@, juint(sources.len() as u64)),
            ("sources"@, JsonV::Array(sources.map_values(|s: SourceV| map_entry(s)))),
        ],
    )
}

pub fn web_map_output(url: &str, sources: &Vec<Source>) -> (r: Json)
    ensures
        r@ == spec_web_map_output(url@, sources_view(sources@)),
{
    let ghost sv = sources_view(sources@);
    let mut items: Vec<Json> = Vec::new();
    let mut i: usize = 0;
    while i < sources.len()
        invariant
            i <= sources@.len(),
            sv == sources_view(sources@),
            items_view(items@) == sv.take(i as int).map_values(|s: SourceV| map_entry(s)),
        decreases sources@.len() - i,
    {
        let mut m: Vec<(String, Json)> = Vec::new();
        push_member(&mut m, "url", Json::string(sources[i].url.as_str()));
        push_member(&mut m, "provider", Json::string(sources[i].provider.as_str()));
        assert(sv[i as int] == crate::model::source_view(sources@[i as int]));
        assert(members_view(m@) =~= seq![
            ("url"@, JsonV::Str(sv[i as int].url)),
            ("provider"@, JsonV::Str(sv[i as int].provider)),
        ]);
        let ghost before = items_view(items@);
        push_item(&mut items, Json::Object(m));
        assert(items_view(items@) =~= sv.take(i + 1).map_values(|s: SourceV| map_entry(s)));
        i += 1;
    }
    assert(sv.take(sources@.len() as int) =~= sv);
    let n = sources.len();
    let mut m: Vec<(String, Json)> = Vec::new();
    push_member(&mut m, "url", Json::string(url));
    push_member(&mut m, "sources_count", Json::uint(n as u64));
    let ghost itv = items_view(items@);
    push_member(&mut m, "sources", Json::Array(items));
    assert(members_view(m@) =~= seq![
        ("url"@, JsonV::Str(url@)),
        ("sources_count"@, juint(n as u64)),
        ("sources"@, JsonV::Array(itv)),
    ]);
    Json::Object(m)
}


// ---------------------------------------------------------------------------
// The tool list
// ---------------------------------------------------------------------------

/// `{"type": t}`.
pub open spec fn spec_typed(t: Seq<char>) -> JsonV {
    JsonV::Object(seq![("type"@, JsonV::Str(t))])
}

/// An integer property with a minimum and, optionally, a description.
pub open spec fn spec_int_prop(min: u64, desc: Option<Seq<char>>) -> JsonV {
    match desc {
        Some(d) => JsonV::Object(
            seq![
                ("type"@, JsonV::Str("integer"@)),
                ("minimum"@, juint(min)),
                ("description"@, JsonV::Str(d)),
            ],
        ),
        None => JsonV::Object(seq![("type"@, JsonV::Str("integer"@)), ("minimum"@, juint(min))]),
    }
}

/// A property holding an array of strings.
pub open spec fn spec_strings_prop(desc: Seq<char>) -> JsonV {
    JsonV::Object(
        seq![
            ("type"@, JsonV::Str("array"@)),
            ("items"@, spec_typed("string"@)),
            ("description"@, JsonV::Str(desc)),
        ],
    )
}

/// A boolean property that defaults to true.
pub open spec fn spec_flag_prop(desc: Seq<char>) -> JsonV {
    JsonV::Object(
        seq![
            ("type"@, JsonV::Str("boolean"@)),
            ("default"@, JsonV::Bool(true)),
            ("description"@, JsonV::Str(desc)),
        ],
    )
}

/// A tool entry: name, description and an object input schema with an
/// optional required argument.
pub open spec fn spec_tool(
    name: Seq<char>,
    desc: Seq<char>,
    required: Option<Seq<char>>,
    props: Seq<(Seq<char>, JsonV)>,
) -> JsonV {
    let schema = match required {
        Some(r) => JsonV::Object(
            seq![
                ("type"@, JsonV::Str("object"@)),
                ("required"@, JsonV::Array(seq![JsonV::Str(r)])),
                ("properties"@, JsonV::Object(props)),
            ],
        ),
        None => JsonV::Object(
            seq![("type"@, JsonV::Str("object"@)), ("properties"@, JsonV::Object(props))],
        ),
    };
    JsonV::Object(
        seq![("name"@, JsonV::Str(name)), ("description"@, JsonV::Str(desc)), ("inputSchema"@, schema)],
    )
}

/// The five tools the server offers, with the guidance that routes a client
/// between them.
pub open spec fn spec_tools_list() -> JsonV {
    let web_search = spec_tool(
        "web_search"@,
        "Use for discovery — when you don't have a specific URL and need to find information, debug an error, research a topic, or track down an issue or news item. Returns an AI-synthesised answer plus a source list; pass include_content=true (default) to inline the full source text via the resolve_content pipeline. If you already know the exact page URL, use web_fetch instead."@,
        Some("query"@),
        seq![
            ("query"@, spec_typed("string"@)),
            ("platform"@, spec_typed("string"@)),
            ("model"@, spec_typed("string"@)),
            ("extra_sources"@, spec_int_prop(0, Some("Optional supplemental source count. Tavily is primary; Firecrawl is fallback. If omitted, GROK_SEARCH_EXTRA_SOURCES is used."@))),
            ("recency_days"@, spec_int_prop(1, Some("Restrict supplemental results to sources published within the last N days. Forwarded to Tavily as days+topic=news; also hinted to Grok prompt."@))),
            ("include_domains"@, spec_strings_prop("Only return supplemental results from these domains. Tavily honors strictly; Grok receives as soft preference."@)),
            ("exclude_domains"@, spec_strings_prop("Suppress supplemental results from these domains. Tavily honors strictly; Grok receives as soft instruction."@)),
            ("include_content"@, spec_flag_prop("Inline source content via the resolve_content pipeline. Default true. Pass false to get summary + source-list only (legacy behavior, no content field in sources)."@)),
        ],
    );
    let get_sources = spec_tool(
        "get_sources"@,
        "Return cached sources from a previous web_search call by session_id. Use to re-examine sources already retrieved without issuing a new search — it reuses the prior session and runs no new search or fetch."@,
        Some("session_id"@),
        seq![("session_id"@, spec_typed("string"@))],
    );
    let web_fetch = spec_tool(
        "web_fetch"@,
        "Use when you already have a specific URL and want to read a single page in depth. GitHub issue/PR, StackOverflow (StackExchange), arXiv, and Wikipedia URLs are automatically parsed into structured, de-noised Markdown ready to feed an LLM; all other pages fall back to generic extraction. Returns {url, content, original_length, truncated, source_type, fallback_reason?}. If you don't have a URL yet and need to discover sources, use web_search instead."@,
        Some("url"@),
        seq![("url"@, spec_typed("string"@)), ("max_chars"@, spec_int_prop(1, Some("Optional character cap on returned content. Falls back to GROK_SEARCH_FETCH_MAX_CHARS, otherwise unlimited."@)))],
    );
    let web_map = spec_tool(
        "web_map"@,
        "Map/discover URLs through Tavily Map."@,
        Some("url"@),
        seq![("url"@, spec_typed("string"@)), ("max_results"@, spec_int_prop(1, None))],
    );
    let doctor = spec_tool("doctor"@, "Diagnostic probe: live connectivity check for Grok, Tavily, and Firecrawl backends, plus masked configuration. Use to verify the server is wired up and reachable."@, None, Seq::empty());
    JsonV::Object(
        seq![("tools"@, JsonV::Array(seq![web_search, get_sources, web_fetch, web_map, doctor]))],
    )
}

fn typed(t: &str) -> (r: Json)
    ensures
        r@ == spec_typed(t@),
{
    let mut m: Vec<(String, Json)> = Vec::new();
    push_member(&mut m, "type", Json::string(t));
    assert(members_view(m@) =~= seq![("type"@, JsonV::Str(t@))]);
    Json::Object(m)
}

fn int_prop(min: u64, desc: Option<&str>) -> (r: Json)
    ensures
        r@ == spec_int_prop(
            min,
            match desc {
                Some(d) => Some(d@),
                None => None::<Seq<char>>,
            },
        ),
{
    let mut m: Vec<(String, Json)> = Vec::new();
    push_member(&mut m, "type", Json::string("integer"));
    push_member(&mut m, "minimum", Json::uint(min));
    match desc {
        Some(d) => {
            push_member(&mut m, "description", Json::string(d));
            assert(members_view(m@) =~= seq![
                ("type"@, JsonV::Str("integer"@)),
                ("minimum"@, juint(min)),
                ("description"@, JsonV::Str(d@)),
            ]);
        },
        None => {
            assert(members_view(m@) =~= seq![
                ("type"@, JsonV::Str("integer"@)),
                ("minimum"@, juint(min)),
            ]);
        },
    }
    Json::Object(m)
}

fn strings_prop(desc: &str) -> (r: Json)
    ensures
        r@ == spec_strings_prop(desc@),
{
    let mut m: Vec<(String, Json)> = Vec::new();
    push_member(&mut m, "type", Json::string("array"));
    push_member(&mut m, "items", typed("string"));
    push_member(&mut m, "description", Json::string(desc));
    assert(members_view(m@) =~= seq![
        ("type"@, JsonV::Str("array"@)),
        ("items"@, spec_typed("string"@)),
        ("description"@, JsonV::Str(desc@)),
    ]);
    Json::Object(m)
}

fn flag_prop(desc: &str) -> (r: Json)
    ensures
        r@ == spec_flag_prop(desc@),
{
    let mut m: Vec<(String, Json)> = Vec::new();
    push_member(&mut m, "type", Json::string("boolean"));
    push_member(&mut m, "default", Json::Bool(true));
    push_member(&mut m, "description", Json::string(desc));
    assert(members_view(m@) =~= seq![
        ("type"@, JsonV::Str("boolean"@)),
        ("default"@, JsonV::Bool(true)),
        ("description"@, JsonV::Str(desc@)),
    ]);
    Json::Object(m)
}

fn tool(name: &str, desc: &str, required: Option<&str>, props: Vec<(String, Json)>) -> (r: Json)
    ensures
        r@ == spec_tool(
            name@,
            desc@,
            match required {
                Some(x) => Some(x@),
                None => None::<Seq<char>>,
            },
            members_view(props@),
        ),
{
    let ghost pv = members_view(props@);
    let mut schema: Vec<(String, Json)> = Vec::new();
    push_member(&mut schema, "type", Json::string("object"));
    match required {
        Some(x) => {
            let mut req: Vec<Json> = Vec::new();
            push_item(&mut req, Json::string(x));
            assert(items_view(req@) =~= seq![JsonV::Str(x@)]);
            push_member(&mut schema, "required", Json::Array(req));
            push_member(&mut schema, "properties", Json::Object(props));
            assert(members_view(schema@) =~= seq![
                ("type"@, JsonV::Str("object"@)),
                ("required"@, JsonV::Array(seq![JsonV::Str(x@)])),
                ("properties"@, JsonV::Object(pv)),
            ]);
        },
        None => {
            push_member(&mut schema, "properties", Json::Object(props));
            assert(members_view(schema@) =~= seq![
                ("type"@, JsonV::Str("object"@)),
                ("properties"@, JsonV::Object(pv)),
            ]);
        },
    }
    let ghost sv = members_view(schema@);
    let mut m: Vec<(String, Json)> = Vec::new();
    push_member(&mut m, "name", Json::string(name));
    push_member(&mut m, "description", Json::string(desc));
    push_member(&mut m, "inputSchema", Json::Object(schema));
    assert(members_view(m@) =~= seq![
        ("name"@, JsonV::Str(name@)),
        ("description"@, JsonV::Str(desc@)),
        ("inputSchema"@, JsonV::Object(sv)),
    ]);
    Json::Object(m)
}

fn web_search_tool() -> (r: Json)
    ensures
        r@ == spec_tools_list()->Object_0[0].1->Array_0[0],
{
    let mut p: Vec<(String, Json)> = Vec::new();
    push_member(&mut p, "query", typed("string"));
    push_member(&mut p, "platform", typed("string"));
    push_member(&mut p, "model", typed("string"));
    push_member(&mut p, "extra_sources", int_prop(0, Some("Optional supplemental source count. Tavily is primary; Firecrawl is fallback. If omitted, GROK_SEARCH_EXTRA_SOURCES is used.")));
    push_member(&mut p, "recency_days", int_prop(1, Some("Restrict supplemental results to sources published within the last N days. Forwarded to Tavily as days+topic=news; also hinted to Grok prompt.")));
    push_member(&mut p, "include_domains", strings_prop("Only return supplemental results from these domains. Tavily honors strictly; Grok receives as soft preference."));
    push_member(&mut p, "exclude_domains", strings_prop("Suppress supplemental results from these domains. Tavily honors strictly; Grok receives as soft instruction."));
    push_member(&mut p, "include_content", flag_prop("Inline source content via the resolve_content pipeline. Default true. Pass false to get summary + source-list only (legacy behavior, no content field in sources)."));
    assert(members_view(p@) =~= seq![
        ("query"@, spec_typed("string"@)),
        ("platform"@, spec_typed("string"@)),
        ("model"@, spec_typed("string"@)),
        ("extra_sources"@, spec_int_prop(0, Some("Optional supplemental source count. Tavily is primary; Firecrawl is fallback. If omitted, GROK_SEARCH_EXTRA_SOURCES is used."@))),
        ("recency_days"@, spec_int_prop(1, Some("Restrict supplemental results to sources published within the last N days. Forwarded to Tavily as days+topic=news; also hinted to Grok prompt."@))),
        ("include_domains"@, spec_strings_prop("Only return supplemental results from these domains. Tavily honors strictly; Grok receives as soft preference."@)),
        ("exclude_domains"@, spec_strings_prop("Suppress supplemental results from these domains. Tavily honors strictly; Grok receives as soft instruction."@)),
        ("include_content"@, spec_flag_prop("Inline source content via the resolve_content pipeline. Default true. Pass false to get summary + source-list only (legacy behavior, no content field in sources)."@)),
    ]);
    tool("web_search", "Use for discovery — when you don't have a specific URL and need to find information, debug an error, research a topic, or track down an issue or news item. Returns an AI-synthesised answer plus a source list; pass include_content=true (default) to inline the full source text via the resolve_content pipeline. If you already know the exact page URL, use web_fetch instead.", Some("query"), p)
}

/// The tools the server offers.
pub fn tools_list() -> (r: Json)
    ensures
        r@ == spec_tools_list(),
{
    let mut tools: Vec<Json> = Vec::new();
    push_item(&mut tools, web_search_tool());
    let mut p: Vec<(String, Json)> = Vec::new();
    push_member(&mut p, "session_id", typed("string"));
    assert(members_view(p@) =~= seq![("session_id"@, spec_typed("string"@))]);
    push_item(&mut tools, tool("get_sources", "Return cached sources from a previous web_search call by session_id. Use to re-examine sources already retrieved without issuing a new search — it reuses the prior session and runs no new search or fetch.", Some("session_id"), p));
    let mut p: Vec<(String, Json)> = Vec::new();
    push_member(&mut p, "url", typed("string"));
    push_member(&mut p, "max_chars", int_prop(1, Some("Optional character cap on returned content. Falls back to GROK_SEARCH_FETCH_MAX_CHARS, otherwise unlimited.")));
    assert(members_view(p@) =~= seq![
        ("url"@, spec_typed("string"@)),
        ("max_chars"@, spec_int_prop(1, Some("Optional character cap on returned content. Falls back to GROK_SEARCH_FETCH_MAX_CHARS, otherwise unlimited."@))),
    ]);
    push_item(&mut tools, tool("web_fetch", "Use when you already have a specific URL and want to read a single page in depth. GitHub issue/PR, StackOverflow (StackExchange), arXiv, and Wikipedia URLs are automatically parsed into structured, de-noised Markdown ready to feed an LLM; all other pages fall back to generic extraction. Returns {url, content, original_length, truncated, source_type, fallback_reason?}. If you don't have a URL yet and need to discover sources, use web_search instead.", Some("url"), p));
    let mut p: Vec<(String, Json)> = Vec::new();
    push_member(&mut p, "url", typed("string"));
    push_member(&mut p, "max_results", int_prop(1, None));
    assert(members_view(p@) =~= seq![
        ("url"@, spec_typed("string"@)),
        ("max_results"@, spec_int_prop(1, None)),
    ]);
    push_item(&mut tools, tool("web_map", "Map/discover URLs through Tavily Map.", Some("url"), p));
    let p: Vec<(String, Json)> = Vec::new();
    assert(members_view(p@) =~= Seq::<(Seq<char>, JsonV)>::empty());
    push_item(&mut tools, tool("doctor", "Diagnostic probe: live connectivity check for Grok, Tavily, and Firecrawl backends, plus masked configuration. Use to verify the server is wired up and reachable.", None, p));
    let ghost tv = items_view(tools@);
    let mut m: Vec<(String, Json)> = Vec::new();
    push_member(&mut m, "tools", Json::Array(tools));
    let ghost l = spec_tools_list()->Object_0[0].1->Array_0;
    assert(tv =~= l);
    assert(members_view(m@) =~= seq![("tools"@, JsonV::Array(tv))]);
    Json::Object(m)
}


// ---------------------------------------------------------------------------
// Requests
// ---------------------------------------------------------------------------

/// What a message asks of the server.
#[derive(Debug)]
pub enum Handled {
    /// A notification: nothing is sent back.
    Notification,
    /// The complete response to send.
    Response(Json),
    /// A tool to run for the request with this id; its output is answered
    /// with [`tool_response`], its failure with [`error_reply`].
    Tool(Json, ToolCall),
}

/// The view of what a message asks.
pub enum HandledV {
    Notification,
    Response(JsonV),
    Tool(JsonV, ToolCallV),
}

impl View for Handled {
    type V = HandledV;

    open spec fn view(&self) -> HandledV {
        match self {
            Handled::Notification => HandledV::Notification,
            Handled::Response(r) => HandledV::Response(r@),
            Handled::Tool(id, c) => HandledV::Tool(id@, c@),
        }
    }
}

/// The id of a request, `null` when it has none.
pub open spec fn request_id(request: JsonV) -> JsonV {
    match request.get("id"@) {
        Some(v) => v,
        None => JsonV::Null,
    }
}

/// The empty object.
pub open spec fn empty_object() -> JsonV {
    JsonV::Object(Seq::empty())
}

/// What a request is answered with, or the error it fails with.
pub open spec fn spec_dispatch(request: JsonV, version: Seq<char>) -> Result<HandledV, ErrorV> {
    let id = request_id(request);
    match str_at(request, "method"@) {
        None => Err(ErrorV::InvalidParams("missing method"@)),
        Some(m) => if m == "initialize"@ {
            Ok(HandledV::Response(spec_success(id, spec_initialize_result(version))))
        } else if m == "ping"@ {
            Ok(HandledV::Response(spec_success(id, empty_object())))
        } else if m == "tools/list"@ {
            Ok(HandledV::Response(spec_success(id, spec_tools_list())))
        } else if m == "tools/call"@ {
            let params = match request.get("params"@) {
                Some(p) => p,
                None => empty_object(),
            };
            match str_at(params, "name"@) {
                None => Err(ErrorV::InvalidParams("missing tool name"@)),
                Some(name) => {
                    let args = match params.get("arguments"@) {
                        Some(a) => a,
                        None => empty_object(),
                    };
                    match spec_tool_call(name, args) {
                        Ok(c) => Ok(HandledV::Tool(id, c)),
                        Err(e) => Err(e),
                    }
                },
            }
        } else {
            Err(ErrorV::NotFound("unsupported method: "@ + m))
        },
    }
}

/// What a message is answered with: nothing for a notification (a message
/// without an id); otherwise the dispatch, with an error turned into an
/// error response to the same id.
pub open spec fn spec_handle(request: JsonV, version: Seq<char>) -> HandledV {
    if request.get("id"@) is None {
        HandledV::Notification
    } else {
        match spec_dispatch(request, version) {
            Ok(h) => h,
            Err(e) => HandledV::Response(spec_error_reply(request_id(request), e)),
        }
    }
}

fn id_of(request: &Json) -> (r: Json)
    ensures
        r@ == request_id(request@),
{
    match request.get("id") {
        Some(v) => v.duplicate(),
        None => Json::Null,
    }
}

fn member_or_empty<'a>(v: &'a Json, key: &str, empty: &'a Json) -> (r: &'a Json)
    requires
        empty@ == empty_object(),
    ensures
        r@ == match v@.get(key@) {
            Some(p) => p,
            None => empty_object(),
        },
{
    match v.get(key) {
        Some(p) => p,
        None => empty,
    }
}

/// Dispatches a request: a response for the methods answered here, a tool
/// invocation for `tools/call`, or the error the request fails with.
pub fn handle_request(request: &Json, version: &str) -> (r: Result<Handled, GrokSearchError>)
    ensures
        match r {
            Ok(h) => spec_dispatch(request@, version@) == Ok::<HandledV, ErrorV>(h@),
            Err(e) => spec_dispatch(request@, version@) == Err::<HandledV, ErrorV>(e@),
        },
{
    let id = id_of(request);
    let method = match get_str(request, "method") {
        Some(m) => m,
        None => {
            return Err(invalid("missing method"));
        },
    };
    if str_eq(method, "initialize") {
        Ok(Handled::Response(success_response(id, initialize_result(version))))
    } else if str_eq(method, "ping") {
        let e: Vec<(String, Json)> = Vec::new();
        assert(members_view(e@) =~= Seq::<(Seq<char>, JsonV)>::empty());
        Ok(Handled::Response(success_response(id, Json::Object(e))))
    } else if str_eq(method, "tools/list") {
        Ok(Handled::Response(success_response(id, tools_list())))
    } else if str_eq(method, "tools/call") {
        let e: Vec<(String, Json)> = Vec::new();
        assert(members_view(e@) =~= Seq::<(Seq<char>, JsonV)>::empty());
        let empty = Json::Object(e);
        let params = member_or_empty(request, "params", &empty);
        let name = match get_str(params, "name") {
            Some(n) => n,
            None => {
                return Err(invalid("missing tool name"));
            },
        };
        let args = member_or_empty(params, "arguments", &empty);
        match parse_tool_call(name, args) {
            Ok(c) => Ok(Handled::Tool(id, c)),
            Err(e) => Err(e),
        }
    } else {
        Err(GrokSearchError::NotFound(cat("unsupported method: ", method)))
    }
}

/// Handles one message: notifications get nothing; a failed request gets
/// an error response with the request's id.
pub fn handle_message(request: &Json, version: &str) -> (r: Handled)
    ensures
        r@ == spec_handle(request@, version@),
{
    if request.get("id").is_none() {
        return Handled::Notification;
    }
    match handle_request(request, version) {
        Ok(h) => h,
        Err(e) => Handled::Response(error_reply(id_of(request), &e)),
    }
}

/// A message without an id is a notification and is never answered; every
/// other message is answered, and an answer that is a response carries the
/// request's id.
pub proof fn law_notifications_get_no_reply(request: JsonV, version: Seq<char>)
    ensures
        request.get("id"@) is None <==> spec_handle(request, version) is Notification,
        spec_handle(request, version) matches HandledV::Response(resp) ==> resp.get("id"@) == Some(
            request_id(request),
        ),
        spec_handle(request, version) matches HandledV::Tool(id, _) ==> id == request_id(request),
{
    lemma_replies_carry_id();
}

proof fn lemma_replies_carry_id()
    ensures
        forall|id: JsonV, r: JsonV| #[trigger] spec_success(id, r).get("id"@) == Some(id),
        forall|id: JsonV, c: i64, m: Seq<char>| #[trigger]
            spec_error_response(id, c, m).get("id"@) == Some(id),
{
    reveal_strlit("jsonrpc");
    reveal_strlit("id");
    reveal_with_fuel(crate::json::member_index, 4);
    assert("jsonrpc"@ != "id"@) by {
        assert("jsonrpc"@.len() != "id"@.len());
    }
    assert forall|id: JsonV, r: JsonV| #[trigger] spec_success(id, r).get("id"@) == Some(id) by {
        let m = seq![("jsonrpc"@, JsonV::Str("2.0"@)), ("id"@, id), ("result"@, r)];
        assert(m.drop_last().drop_last() =~= seq![("jsonrpc"@, JsonV::Str("2.0"@))]);
        assert(m.drop_last().drop_last().drop_last() =~= Seq::<(Seq<char>, JsonV)>::empty());
        assert(crate::json::member_index(m.drop_last(), "id"@) == Some(1int));
    }
    assert forall|id: JsonV, c: i64, msg: Seq<char>| #[trigger]
        spec_error_response(id, c, msg).get("id"@) == Some(id) by {
        let e = JsonV::Object(seq![("code"@, jint(c)), ("message"@, JsonV::Str(msg))]);
        let m = seq![("jsonrpc"@, JsonV::Str("2.0"@)), ("id"@, id), ("error"@, e)];
        assert(m.drop_last().drop_last() =~= seq![("jsonrpc"@, JsonV::Str("2.0"@))]);
        assert(m.drop_last().drop_last().drop_last() =~= Seq::<(Seq<char>, JsonV)>::empty());
        assert(crate::json::member_index(m.drop_last(), "id"@) == Some(1int));
    }
}

} // verus!
