//! Configuration: defaults, the optional config file and environment
//! variables, merged with environment over file over defaults.
use vstd::prelude::*;
use vstd::string::StringSliceAdditionalSpecFns;

use crate::text::{
    append, ascii_lower, bool_to_string, decimal, has_suffix, owned, parse_u64,
    parse_unsigned, parse_usize, str_eq, strip_suffix, to_ascii_lowercase, trim, trim_end_char,
    trim_end_matches, trim_ws, u64_to_string, usize_to_string, ends_with, is_ws, trim_start_ws,
    trim_end_ws, lemma_decimal_parses,
};

verus! {

broadcast use vstd::utf8::group_utf8_lib;

/// Which upstream API shape the search provider speaks.
#[derive(Debug, Clone, Copy, PartialEq, Eq, Structural)]
pub enum Transport {
    Responses,
    ChatCompletions,
}

/// How the Grok provider authenticates.
#[derive(Debug, Clone, Copy, PartialEq, Eq, Structural)]
pub enum AuthMode {
    ApiKey,
    OAuth,
}

/// The effective configuration. Paths are held as text and the request
/// timeout as whole seconds.
#[derive(Debug, PartialEq, Eq)]
pub struct Config {
    pub grok_api_url: String,
    pub grok_api_key: Option<String>,
    pub grok_auth_mode: AuthMode,
    pub grok_auth_file: Option<String>,
    pub grok_model: String,
    pub web_search_enabled: bool,
    pub x_search_enabled: bool,
    pub tavily_api_url: String,
    pub tavily_api_key: Option<String>,
    pub tavily_enabled: bool,
    pub firecrawl_api_url: String,
    pub firecrawl_api_key: Option<String>,
    pub firecrawl_enabled: bool,
    pub default_extra_sources: usize,
    pub fallback_sources: usize,
    pub fetch_max_chars: Option<usize>,
    pub cache_size: usize,
    pub timeout_secs: u64,
    pub openai_compatible_api_url: Option<String>,
    pub openai_compatible_api_key: Option<String>,
    pub openai_compatible_model: Option<String>,
    pub transport: Transport,
    pub github_token: Option<String>,
    pub source_max_answers: usize,
    pub source_max_comments: usize,
    pub enrich_concurrency: usize,
    pub enrich_max_chars: usize,
    pub max_inline_sources: usize,
    pub response_max_chars: usize,
}

/// The mathematical view of a [`Config`].
pub struct ConfigV {
    pub grok_api_url: Seq<char>,
    pub grok_api_key: Option<Seq<char>>,
    pub grok_auth_mode: AuthMode,
    pub grok_auth_file: Option<Seq<char>>,
    pub grok_model: Seq<char>,
    pub web_search_enabled: bool,
    pub x_search_enabled: bool,
    pub tavily_api_url: Seq<char>,
    pub tavily_api_key: Option<Seq<char>>,
    pub tavily_enabled: bool,
    pub firecrawl_api_url: Seq<char>,
    pub firecrawl_api_key: Option<Seq<char>>,
    pub firecrawl_enabled: bool,
    pub default_extra_sources: usize,
    pub fallback_sources: usize,
    pub fetch_max_chars: Option<usize>,
    pub cache_size: usize,
    pub timeout_secs: u64,
    pub openai_compatible_api_url: Option<Seq<char>>,
    pub openai_compatible_api_key: Option<Seq<char>>,
    pub openai_compatible_model: Option<Seq<char>>,
    pub transport: Transport,
    pub github_token: Option<Seq<char>>,
    pub source_max_answers: usize,
    pub source_max_comments: usize,
    pub enrich_concurrency: usize,
    pub enrich_max_chars: usize,
    pub max_inline_sources: usize,
    pub response_max_chars: usize,
}

/// The view of an optional string.
pub open spec fn opt_str(o: Option<String>) -> Option<Seq<char>> {
    match o {
        Some(s) => Some(s@),
        None => None,
    }
}

impl View for Config {
    type V = ConfigV;

    open spec fn view(&self) -> ConfigV {
        ConfigV {
            grok_api_url: self.grok_api_url@,
            grok_api_key: opt_str(self.grok_api_key),
            grok_auth_mode: self.grok_auth_mode,
            grok_auth_file: opt_str(self.grok_auth_file),
            grok_model: self.grok_model@,
            web_search_enabled: self.web_search_enabled,
            x_search_enabled: self.x_search_enabled,
            tavily_api_url: self.tavily_api_url@,
            tavily_api_key: opt_str(self.tavily_api_key),
            tavily_enabled: self.tavily_enabled,
            firecrawl_api_url: self.firecrawl_api_url@,
            firecrawl_api_key: opt_str(self.firecrawl_api_key),
            firecrawl_enabled: self.firecrawl_enabled,
            default_extra_sources: self.default_extra_sources,
            fallback_sources: self.fallback_sources,
            fetch_max_chars: self.fetch_max_chars,
            cache_size: self.cache_size,
            timeout_secs: self.timeout_secs,
            openai_compatible_api_url: opt_str(self.openai_compatible_api_url),
            openai_compatible_api_key: opt_str(self.openai_compatible_api_key),
            openai_compatible_model: opt_str(self.openai_compatible_model),
            transport: self.transport,
            github_token: opt_str(self.github_token),
            source_max_answers: self.source_max_answers,
            source_max_comments: self.source_max_comments,
            enrich_concurrency: self.enrich_concurrency,
            enrich_max_chars: self.enrich_max_chars,
            max_inline_sources: self.max_inline_sources,
            response_max_chars: self.response_max_chars,
        }
    }
}

// ---------------------------------------------------------------------------
// The environment as a list of key/value pairs
// ---------------------------------------------------------------------------

/// The value bound to `key`: later pairs override earlier ones, as when the
/// pairs are collected into a map.
pub open spec fn env_lookup(e: Seq<(String, String)>, key: Seq<char>) -> Option<Seq<char>>
    decreases e.len(),
{
    if e.len() == 0 {
        None
    } else if e.last().0@ == key {
        Some(e.last().1@)
    } else {
        env_lookup(e.drop_last(), key)
    }
}

/// The value bound to `key`, or `default`.
pub open spec fn env_get_or(l: spec_fn(Seq<char>) -> Option<Seq<char>>, key: Seq<char>, default: Seq<char>) -> Seq<
    char,
> {
    match l(key) {
        Some(v) => v,
        None => default,
    }
}

/// The value bound to `key` when it is not empty.
pub open spec fn env_nonempty(l: spec_fn(Seq<char>) -> Option<Seq<char>>, key: Seq<char>) -> Option<Seq<char>> {
    match l(key) {
        Some(v) => if v.len() > 0 {
            Some(v)
        } else {
            None
        },
        None => None,
    }
}

/// Truthy spellings of a flag, in any ASCII case.
pub open spec fn bool_lit(v: Seq<char>) -> bool {
    let l = ascii_lower(v);
    l == "1"@ || l == "true"@ || l == "yes"@
}

pub open spec fn env_bool(l: spec_fn(Seq<char>) -> Option<Seq<char>>, key: Seq<char>, default: bool) -> bool {
    match l(key) {
        Some(v) => bool_lit(v),
        None => default,
    }
}

/// A count read from the environment; unparsable values give the default.
pub open spec fn env_usize(l: spec_fn(Seq<char>) -> Option<Seq<char>>, key: Seq<char>, default: usize) -> usize {
    match l(key) {
        Some(v) => match parse_unsigned(v, usize::MAX as nat) {
            Some(n) => n as usize,
            None => default,
        },
        None => default,
    }
}

/// A positive `u64` read from the environment; zero and unparsable values
/// give the default.
pub open spec fn env_pos_u64(l: spec_fn(Seq<char>) -> Option<Seq<char>>, key: Seq<char>, default: u64) -> u64 {
    match l(key) {
        Some(v) => match parse_unsigned(v, u64::MAX as nat) {
            Some(n) => if n > 0 {
                n as u64
            } else {
                default
            },
            None => default,
        },
        None => default,
    }
}

/// A positive count when one is given.
pub open spec fn env_opt_pos_usize(l: spec_fn(Seq<char>) -> Option<Seq<char>>, key: Seq<char>) -> Option<usize> {
    match l(key) {
        Some(v) => match parse_unsigned(v, usize::MAX as nat) {
            Some(n) => if n > 0 {
                Some(n as usize)
            } else {
                None
            },
            None => None,
        },
        None => None,
    }
}

/// `GROK_SEARCH_AUTH_MODE`: `oauth` (trimmed, any ASCII case) selects OAuth;
/// everything else, including unknown values, selects the API key.
pub open spec fn spec_auth_mode(l: spec_fn(Seq<char>) -> Option<Seq<char>>) -> AuthMode {
    match l("GROK_SEARCH_AUTH_MODE"@) {
        Some(v) => if ascii_lower(trim_ws(v)) == "oauth"@ {
            AuthMode::OAuth
        } else {
            AuthMode::ApiKey
        },
        None => AuthMode::ApiKey,
    }
}

/// The transport selection rules: OAuth and a Grok key pick Responses;
/// otherwise both OpenAI-compatible URL and key pick ChatCompletions;
/// otherwise Responses.
pub open spec fn spec_transport(l: spec_fn(Seq<char>) -> Option<Seq<char>>, mode: AuthMode) -> Transport {
    if mode == AuthMode::OAuth {
        Transport::Responses
    } else if env_nonempty(l, "GROK_SEARCH_API_KEY"@) is Some {
        Transport::Responses
    } else if env_nonempty(l, "OPENAI_COMPATIBLE_API_URL"@) is Some && env_nonempty(
        l,
        "OPENAI_COMPATIBLE_API_KEY"@,
    ) is Some {
        Transport::ChatCompletions
    } else {
        Transport::Responses
    }
}

/// `url` with surrounding whitespace and trailing slashes removed.
pub open spec fn plain_base(url: Seq<char>) -> Seq<char> {
    trim_end_char(trim_ws(url), '/')
}

/// Removes `suffix` and any slashes before it, when `v` ends with `suffix`.
pub open spec fn strip_endpoint(v: Seq<char>, suffix: Seq<char>) -> Seq<char> {
    if has_suffix(v, suffix) {
        trim_end_char(v.subrange(0, v.len() - suffix.len()), '/')
    } else {
        v
    }
}

/// A base URL converged on its `/v1` form: a root, a `/v1` base or a full
/// `/chat/completions` or `/responses` endpoint all give the same result.
pub open spec fn v1_base(url: Seq<char>) -> Seq<char> {
    let v = strip_endpoint(strip_endpoint(plain_base(url), "/chat/completions"@), "/responses"@);
    if has_suffix(v, "/v1"@) {
        v
    } else {
        v + "/v1"@
    }
}

pub open spec fn clamp(n: usize, lo: usize, hi: usize) -> usize {
    if n < lo {
        lo
    } else if n > hi {
        hi
    } else {
        n
    }
}

/// The lookup function of a list of pairs.
pub open spec fn lookup_fn(e: Seq<(String, String)>) -> spec_fn(Seq<char>) -> Option<Seq<char>> {
    |k: Seq<char>| env_lookup(e, k)
}

/// The configuration that a key lookup describes.
pub open spec fn spec_config(l: spec_fn(Seq<char>) -> Option<Seq<char>>) -> ConfigV {
    let mode = spec_auth_mode(l);
    ConfigV {
        grok_api_url: v1_base(env_get_or(l, "GROK_SEARCH_URL"@, "https://api.x.ai"@)),
        grok_api_key: l("GROK_SEARCH_API_KEY"@),
        grok_auth_mode: mode,
        grok_auth_file: env_nonempty(l, "GROK_SEARCH_AUTH_FILE"@),
        grok_model: env_get_or(l, "GROK_SEARCH_MODEL"@, "grok-4-1-fast-reasoning"@),
        web_search_enabled: env_bool(l, "GROK_SEARCH_WEB_SEARCH"@, true),
        x_search_enabled: env_bool(l, "GROK_SEARCH_X_SEARCH"@, false),
        tavily_api_url: plain_base(env_get_or(l, "TAVILY_API_URL"@, "https://api.tavily.com"@)),
        tavily_api_key: l("TAVILY_API_KEY"@),
        tavily_enabled: env_bool(l, "TAVILY_ENABLED"@, true),
        firecrawl_api_url: v1_base(
            env_get_or(l, "FIRECRAWL_API_URL"@, "https://api.firecrawl.dev"@),
        ),
        firecrawl_api_key: l("FIRECRAWL_API_KEY"@),
        firecrawl_enabled: env_bool(l, "FIRECRAWL_ENABLED"@, true),
        default_extra_sources: env_usize(l, "GROK_SEARCH_EXTRA_SOURCES"@, 3),
        fallback_sources: env_usize(l, "GROK_SEARCH_FALLBACK_SOURCES"@, 5),
        fetch_max_chars: env_opt_pos_usize(l, "GROK_SEARCH_FETCH_MAX_CHARS"@),
        cache_size: env_usize(l, "GROK_SEARCH_CACHE_SIZE"@, 256),
        timeout_secs: env_pos_u64(l, "GROK_SEARCH_TIMEOUT_SECONDS"@, 60),
        openai_compatible_api_url: env_nonempty(l, "OPENAI_COMPATIBLE_API_URL"@),
        openai_compatible_api_key: env_nonempty(l, "OPENAI_COMPATIBLE_API_KEY"@),
        openai_compatible_model: env_nonempty(l, "OPENAI_COMPATIBLE_MODEL"@),
        transport: spec_transport(l, mode),
        github_token: env_nonempty(l, "GITHUB_TOKEN"@),
        source_max_answers: env_usize(l, "GROK_SEARCH_SOURCE_MAX_ANSWERS"@, 5),
        source_max_comments: env_usize(l, "GROK_SEARCH_SOURCE_MAX_COMMENTS"@, 30),
        enrich_concurrency: clamp(env_usize(l, "GROK_SEARCH_ENRICH_CONCURRENCY"@, 3), 1, 5),
        enrich_max_chars: env_usize(l, "GROK_SEARCH_ENRICH_MAX_CHARS"@, 15000),
        max_inline_sources: env_usize(l, "GROK_SEARCH_MAX_INLINE_SOURCES"@, 5),
        response_max_chars: env_usize(l, "GROK_SEARCH_RESPONSE_MAX_CHARS"@, 60000),
    }
}

/// The value bound to `key` (`HashMap::get` on the collected pairs).
pub fn lookup(env: &Vec<(String, String)>, key: &str) -> (r: Option<String>)
    ensures
        opt_str(r) == env_lookup(env@, key@),
{
    let mut i: usize = env.len();
    assert(env@.take(env@.len() as int) =~= env@);
    while i > 0
        invariant
            i <= env@.len(),
            env_lookup(env@, key@) == env_lookup(env@.take(i as int), key@),
        decreases i,
    {
        assert(env@.take(i as int).last() == env@[i - 1]);
        assert(env@.take(i as int).drop_last() =~= env@.take(i - 1));
        if str_eq(env[i - 1].0.as_str(), key) {
            return Some(env[i - 1].1.clone());
        }
        i -= 1;
    }
    None
}

fn get(env: &Vec<(String, String)>, key: &str, default: &str) -> (r: String)
    ensures
        r@ == env_get_or(lookup_fn(env@), key@, default@),
{
    match lookup(env, key) {
        Some(v) => v,
        None => owned(default),
    }
}

fn nonempty(env: &Vec<(String, String)>, key: &str) -> (r: Option<String>)
    ensures
        opt_str(r) == env_nonempty(lookup_fn(env@), key@),
{
    match lookup(env, key) {
        Some(v) => if v.as_str().is_empty() {
            None
        } else {
            Some(v)
        },
        None => None,
    }
}

/// Whether a flag value is truthy: `1`, `true` or `yes` in any ASCII case.
pub fn bool_literal(value: &str) -> (r: bool)
    ensures
        r == bool_lit(value@),
{
    let l = to_ascii_lowercase(value);
    let r = str_eq(l.as_str(), "1") || str_eq(l.as_str(), "true") || str_eq(l.as_str(), "yes");
    r
}

fn bool_value(env: &Vec<(String, String)>, key: &str, default: bool) -> (r: bool)
    ensures
        r == env_bool(lookup_fn(env@), key@, default),
{
    match lookup(env, key) {
        Some(v) => bool_literal(v.as_str()),
        None => default,
    }
}

fn usize_value(env: &Vec<(String, String)>, key: &str, default: usize) -> (r: usize)
    ensures
        r == env_usize(lookup_fn(env@), key@, default),
{
    match lookup(env, key) {
        Some(v) => match parse_usize(v.as_str()) {
            Some(n) => n,
            None => default,
        },
        None => default,
    }
}

fn u64_value(env: &Vec<(String, String)>, key: &str, default: u64) -> (r: u64)
    ensures
        r == env_pos_u64(lookup_fn(env@), key@, default),
{
    match lookup(env, key) {
        Some(v) => match parse_u64(v.as_str()) {
            Some(n) => if n > 0 {
                n
            } else {
                default
            },
            None => default,
        },
        None => default,
    }
}

fn optional_positive_usize(env: &Vec<(String, String)>, key: &str) -> (r: Option<usize>)
    ensures
        r == env_opt_pos_usize(lookup_fn(env@), key@),
{
    match lookup(env, key) {
        Some(v) => match parse_usize(v.as_str()) {
            Some(n) => if n > 0 {
                Some(n)
            } else {
                None
            },
            None => None,
        },
        None => None,
    }
}

/// The authentication mode the environment selects: `oauth` (trimmed, any
/// ASCII case) selects OAuth; absent, empty, `api_key` and unknown values
/// select the API key.
pub fn auth_mode_value(env: &Vec<(String, String)>) -> (r: AuthMode)
    ensures
        r == spec_auth_mode(lookup_fn(env@)),
{
    match lookup(env, "GROK_SEARCH_AUTH_MODE") {
        Some(v) => {
            let t = trim(v.as_str());
            let l = to_ascii_lowercase(t.as_str());
            if str_eq(l.as_str(), "oauth") {
                AuthMode::OAuth
            } else {
                AuthMode::ApiKey
            }
        },
        None => AuthMode::ApiKey,
    }
}

/// The trimmed value of `GROK_SEARCH_AUTH_MODE` when it names no known mode
/// (neither `api_key`, empty, nor `oauth`, in any ASCII case), which falls
/// back to the API key and is worth a warning.
pub open spec fn spec_auth_fallback(l: spec_fn(Seq<char>) -> Option<Seq<char>>) -> Option<Seq<char>> {
    match l("GROK_SEARCH_AUTH_MODE"@) {
        Some(v) => {
            let t = trim_ws(v);
            let lw = ascii_lower(t);
            if lw == "api_key"@ || lw.len() == 0 || lw == "oauth"@ {
                None
            } else {
                Some(t)
            }
        },
        None => None,
    }
}

/// The unknown authentication mode that the environment sets, if any; the
/// caller warns that it falls back to the API key.
pub fn auth_mode_fallback(env: &Vec<(String, String)>) -> (r: Option<String>)
    ensures
        opt_str(r) == spec_auth_fallback(lookup_fn(env@)),
        r is Some ==> spec_auth_mode(lookup_fn(env@)) == AuthMode::ApiKey,
{
    match lookup(env, "GROK_SEARCH_AUTH_MODE") {
        Some(v) => {
            let t = trim(v.as_str());
            let l = to_ascii_lowercase(t.as_str());
            if str_eq(l.as_str(), "api_key") || l.as_str().is_empty() || str_eq(l.as_str(), "oauth") {
                None
            } else {
                Some(t)
            }
        },
        None => None,
    }
}

/// The transport for an environment and authentication mode: OAuth and a
/// non-empty Grok key pick Responses; otherwise a non-empty OpenAI-compatible
/// URL and key pick chat completions; otherwise Responses.
pub fn decide_transport(env: &Vec<(String, String)>, auth_mode: AuthMode) -> (r: Transport)
    ensures
        r == spec_transport(lookup_fn(env@), auth_mode),
{
    if auth_mode == AuthMode::OAuth {
        return Transport::Responses;
    }
    let grok_key_set = nonempty(env, "GROK_SEARCH_API_KEY").is_some();
    let compat_url_set = nonempty(env, "OPENAI_COMPATIBLE_API_URL").is_some();
    let compat_key_set = nonempty(env, "OPENAI_COMPATIBLE_API_KEY").is_some();
    if grok_key_set {
        return Transport::Responses;
    }
    if compat_url_set && compat_key_set {
        return Transport::ChatCompletions;
    }
    Transport::Responses
}

/// Removes surrounding whitespace and trailing slashes.
pub fn normalize_plain_base(url: &str) -> (r: String)
    ensures
        r@ == plain_base(url@),
{
    let t = trim(url);
    trim_end_matches(t.as_str(), '/')
}

fn strip_endpoint_suffix(v: String, suffix: &str) -> (r: String)
    ensures
        r@ == strip_endpoint(v@, suffix@),
{
    match strip_suffix(v.as_str(), suffix) {
        Some(rest) => trim_end_matches(rest.as_str(), '/'),
        None => v,
    }
}

/// Converges a root, `/v1` or full-endpoint URL on its `/v1` base.
pub fn normalize_v1_base(url: &str) -> (r: String)
    ensures
        r@ == v1_base(url@),
{
    let value = normalize_plain_base(url);
    let value = strip_endpoint_suffix(value, "/chat/completions");
    let mut value = strip_endpoint_suffix(value, "/responses");
    if !ends_with(value.as_str(), "/v1") {
        append(&mut value, "/v1");
    }
    value
}

impl Config {
    /// The configuration an environment map describes. Later pairs override
    /// earlier ones for the same key.
    pub fn from_env_map(vars: Vec<(String, String)>) -> (c: Config)
        ensures
            c@ == spec_config(lookup_fn(vars@)),
    {
        let map = &vars;
        let grok_auth_mode = auth_mode_value(map);
        let u = get(map, "GROK_SEARCH_URL", "https://api.x.ai");
        let t = get(map, "TAVILY_API_URL", "https://api.tavily.com");
        let f = get(map, "FIRECRAWL_API_URL", "https://api.firecrawl.dev");
        let concurrency = usize_value(map, "GROK_SEARCH_ENRICH_CONCURRENCY", 3);
        let concurrency = if concurrency < 1 {
            1
        } else if concurrency > 5 {
            5
        } else {
            concurrency
        };
        Config {
            grok_api_url: normalize_v1_base(u.as_str()),
            grok_api_key: lookup(map, "GROK_SEARCH_API_KEY"),
            grok_auth_mode,
            grok_auth_file: nonempty(map, "GROK_SEARCH_AUTH_FILE"),
            grok_model: get(map, "GROK_SEARCH_MODEL", "grok-4-1-fast-reasoning"),
            web_search_enabled: bool_value(map, "GROK_SEARCH_WEB_SEARCH", true),
            x_search_enabled: bool_value(map, "GROK_SEARCH_X_SEARCH", false),
            tavily_api_url: normalize_plain_base(t.as_str()),
            tavily_api_key: lookup(map, "TAVILY_API_KEY"),
            tavily_enabled: bool_value(map, "TAVILY_ENABLED", true),
            firecrawl_api_url: normalize_v1_base(f.as_str()),
            firecrawl_api_key: lookup(map, "FIRECRAWL_API_KEY"),
            firecrawl_enabled: bool_value(map, "FIRECRAWL_ENABLED", true),
            default_extra_sources: usize_value(map, "GROK_SEARCH_EXTRA_SOURCES", 3),
            fallback_sources: usize_value(map, "GROK_SEARCH_FALLBACK_SOURCES", 5),
            fetch_max_chars: optional_positive_usize(map, "GROK_SEARCH_FETCH_MAX_CHARS"),
            cache_size: usize_value(map, "GROK_SEARCH_CACHE_SIZE", 256),
            timeout_secs: u64_value(map, "GROK_SEARCH_TIMEOUT_SECONDS", 60),
            openai_compatible_api_url: nonempty(map, "OPENAI_COMPATIBLE_API_URL"),
            openai_compatible_api_key: nonempty(map, "OPENAI_COMPATIBLE_API_KEY"),
            openai_compatible_model: nonempty(map, "OPENAI_COMPATIBLE_MODEL"),
            transport: decide_transport(map, grok_auth_mode),
            github_token: nonempty(map, "GITHUB_TOKEN"),
            source_max_answers: usize_value(map, "GROK_SEARCH_SOURCE_MAX_ANSWERS", 5),
            source_max_comments: usize_value(map, "GROK_SEARCH_SOURCE_MAX_COMMENTS", 30),
            enrich_concurrency: concurrency,
            enrich_max_chars: usize_value(map, "GROK_SEARCH_ENRICH_MAX_CHARS", 15000),
            max_inline_sources: usize_value(map, "GROK_SEARCH_MAX_INLINE_SOURCES", 5),
            response_max_chars: usize_value(map, "GROK_SEARCH_RESPONSE_MAX_CHARS", 60000),
        }
    }
}


/// The enrichment concurrency always lies in `1..=5`, whatever is set.
pub proof fn law_enrich_concurrency_clamped(l: spec_fn(Seq<char>) -> Option<Seq<char>>)
    ensures
        1 <= spec_config(l).enrich_concurrency <= 5,
{
}

/// Transport choice: OAuth always speaks Responses; with an API key the Grok
/// key wins when both it and the OpenAI-compatible settings are present;
/// the chat-completions transport is used exactly when there is no Grok key
/// and both the compatible URL and key are set.
pub proof fn law_transport_precedence(l: spec_fn(Seq<char>) -> Option<Seq<char>>)
    ensures
        spec_config(l).grok_auth_mode == AuthMode::OAuth ==> spec_config(l).transport
            == Transport::Responses,
        env_nonempty(l, "GROK_SEARCH_API_KEY"@) is Some ==> spec_config(l).transport
            == Transport::Responses,
        spec_config(l).transport == Transport::ChatCompletions <==> (spec_config(l).grok_auth_mode
            == AuthMode::ApiKey && env_nonempty(l, "GROK_SEARCH_API_KEY"@) is None
            && env_nonempty(l, "OPENAI_COMPATIBLE_API_URL"@) is Some
            && env_nonempty(l, "OPENAI_COMPATIBLE_API_KEY"@) is Some),
{
}

/// A normalized Grok or Firecrawl URL is always a `/v1` base.
pub proof fn law_v1_base_ends_with_v1(url: Seq<char>)
    ensures
        has_suffix(v1_base(url), "/v1"@),
{
    reveal_strlit("/v1");
    let v = strip_endpoint(strip_endpoint(plain_base(url), "/chat/completions"@), "/responses"@);
    if !has_suffix(v, "/v1"@) {
        let w = v + "/v1"@;
        assert(w.subrange(w.len() - 3, w.len() as int) =~= "/v1"@);
    }
}

/// A base URL already in plain form: not blank at either end and without a
/// trailing slash.
pub open spec fn plain_root(base: Seq<char>) -> bool {
    &&& base.len() > 0
    &&& !is_ws(base[0])
    &&& !is_ws(base.last())
    &&& base.last() != '/'
}

proof fn lemma_plain_text(x: Seq<char>)
    requires
        plain_root(x),
    ensures
        plain_base(x) == x,
{
    assert(trim_start_ws(x) == x);
    assert(trim_end_ws(x) == x);
    assert(trim_end_char(x, '/') == x);
}

proof fn lemma_not_suffix(x: Seq<char>, t: Seq<char>, i: int)
    requires
        1 <= i <= t.len(),
        i <= x.len(),
        x[x.len() - i] != t[t.len() - i],
    ensures
        !has_suffix(x, t),
{
    if has_suffix(x, t) {
        assert(x.subrange(x.len() - t.len(), x.len() as int)[t.len() - i] == t[t.len() - i]);
    }
}

/// A root URL, its `/v1` base, and its full chat-completions and responses
/// endpoints all normalize to the same `/v1` base.
pub proof fn law_v1_base_converges(base: Seq<char>)
    requires
        plain_root(base),
        !has_suffix(base, "/v1"@),
        !has_suffix(base, "/chat/completions"@),
        !has_suffix(base, "/responses"@),
    ensures
        v1_base(base) == base + "/v1"@,
        v1_base(base + "/v1"@) == base + "/v1"@,
        v1_base(base + "/v1/chat/completions"@) == base + "/v1"@,
        v1_base(base + "/v1/responses"@) == base + "/v1"@,
        v1_base(base + "/v1/"@) == base + "/v1"@,
        v1_base(base + "/chat/completions"@) == base + "/v1"@,
{
    reveal_strlit("/v1");
    reveal_strlit("/chat/completions");
    reveal_strlit("/responses");
    reveal_strlit("/v1/chat/completions");
    reveal_strlit("/v1/responses");
    let v1 = base + "/v1"@;
    let chat = base + "/v1/chat/completions"@;
    let resp = base + "/v1/responses"@;
    lemma_plain_text(base);
    lemma_plain_text(v1);
    lemma_plain_text(chat);
    lemma_plain_text(resp);
    assert(v1.subrange(v1.len() - 3, v1.len() as int) =~= "/v1"@);
    lemma_not_suffix(v1, "/chat/completions"@, 1);
    lemma_not_suffix(v1, "/responses"@, 1);
    assert(chat.subrange(chat.len() - 17, chat.len() as int) =~= "/chat/completions"@);
    assert(chat.subrange(0, chat.len() - 17) =~= v1);
    assert(resp.subrange(resp.len() - 10, resp.len() as int) =~= "/responses"@);
    assert(resp.subrange(0, resp.len() - 10) =~= v1);
    lemma_not_suffix(resp, "/chat/completions"@, 10);
    assert(trim_end_char(v1, '/') == v1);
    reveal_strlit("/v1/");
    let slash = base + "/v1/"@;
    assert(trim_start_ws(slash) == slash);
    assert(trim_end_ws(slash) == slash);
    assert(slash.drop_last() =~= v1);
    assert(trim_end_char(slash, '/') == v1);
    let bare = base + "/chat/completions"@;
    lemma_plain_text(bare);
    assert(bare.subrange(bare.len() - 17, bare.len() as int) =~= "/chat/completions"@);
    assert(bare.subrange(0, bare.len() - 17) =~= base);
}

/// With an empty root, every form normalizes to `/v1`.
pub proof fn law_v1_base_empty_root()
    ensures
        v1_base(""@) == "/v1"@,
        v1_base("/v1"@) == "/v1"@,
        v1_base("/v1/"@) == "/v1"@,
        v1_base("/chat/completions"@) == "/v1"@,
        v1_base("/responses"@) == "/v1"@,
        v1_base("/v1/chat/completions"@) == "/v1"@,
        v1_base("/v1/responses"@) == "/v1"@,
{
    reveal_strlit("");
    reveal_strlit("/v1");
    reveal_strlit("/v1/");
    reveal_strlit("/chat/completions");
    reveal_strlit("/responses");
    reveal_strlit("/v1/chat/completions");
    reveal_strlit("/v1/responses");
    let e = Seq::<char>::empty();
    assert(""@ =~= e);
    assert(trim_start_ws(e) == e);
    assert(trim_end_ws(e) == e);
    assert(trim_end_char(e, '/') == e);
    assert(e + "/v1"@ =~= "/v1"@);
    let v1 = "/v1"@;
    lemma_plain_text(v1);
    lemma_not_suffix(v1, "/chat/completions"@, 1);
    lemma_not_suffix(v1, "/responses"@, 1);
    assert(v1.subrange(0, 3) =~= v1);
    let slash = "/v1/"@;
    assert(trim_start_ws(slash) == slash);
    assert(trim_end_ws(slash) == slash);
    assert(slash.drop_last() =~= v1);
    assert(trim_end_char(slash, '/') == v1);
    let chat = "/chat/completions"@;
    lemma_plain_text(chat);
    assert(chat.subrange(0, 17) =~= chat);
    assert(chat.subrange(0, 0) =~= e);
    let resp = "/responses"@;
    lemma_plain_text(resp);
    lemma_not_suffix(resp, "/chat/completions"@, 10);
    assert(resp.subrange(0, 10) =~= resp);
    assert(resp.subrange(0, 0) =~= e);
    let vchat = "/v1/chat/completions"@;
    lemma_plain_text(vchat);
    assert(vchat.subrange(3, 20) =~= chat);
    assert(vchat.subrange(0, 3) =~= v1);
    let vresp = "/v1/responses"@;
    lemma_plain_text(vresp);
    lemma_not_suffix(vresp, "/chat/completions"@, 10);
    assert(vresp.subrange(3, 13) =~= resp);
    assert(vresp.subrange(0, 3) =~= v1);
}

proof fn lemma_trim_start_first(s: Seq<char>)
    ensures
        trim_start_ws(s).len() > 0 ==> !is_ws(trim_start_ws(s)[0]),
    decreases s.len(),
{
    if s.len() > 0 && is_ws(s[0]) {
        lemma_trim_start_first(s.drop_first());
    }
}

proof fn lemma_trim_end_ws_prefix(s: Seq<char>)
    ensures
        trim_end_ws(s).len() <= s.len(),
        trim_end_ws(s) == s.subrange(0, trim_end_ws(s).len() as int),
    decreases s.len(),
{
    if s.len() > 0 && is_ws(s.last()) {
        lemma_trim_end_ws_prefix(s.drop_last());
        assert(s.drop_last().subrange(0, trim_end_ws(s).len() as int) =~= s.subrange(
            0,
            trim_end_ws(s).len() as int,
        ));
    } else {
        assert(s.subrange(0, s.len() as int) =~= s);
    }
}

proof fn lemma_trim_end_char_prefix(s: Seq<char>, c: char)
    ensures
        trim_end_char(s, c).len() <= s.len(),
        trim_end_char(s, c) == s.subrange(0, trim_end_char(s, c).len() as int),
    decreases s.len(),
{
    if s.len() > 0 && s.last() == c {
        lemma_trim_end_char_prefix(s.drop_last(), c);
        assert(s.drop_last().subrange(0, trim_end_char(s, c).len() as int) =~= s.subrange(
            0,
            trim_end_char(s, c).len() as int,
        ));
    } else {
        assert(s.subrange(0, s.len() as int) =~= s);
    }
}

proof fn lemma_strip_endpoint_prefix(v: Seq<char>, suffix: Seq<char>)
    ensures
        strip_endpoint(v, suffix).len() <= v.len(),
        strip_endpoint(v, suffix) == v.subrange(0, strip_endpoint(v, suffix).len() as int),
{
    if has_suffix(v, suffix) {
        let p = v.subrange(0, v.len() - suffix.len());
        lemma_trim_end_char_prefix(p, '/');
        assert(p.subrange(0, trim_end_char(p, '/').len() as int) =~= v.subrange(
            0,
            trim_end_char(p, '/').len() as int,
        ));
    } else {
        assert(v.subrange(0, v.len() as int) =~= v);
    }
}

/// Normalizing an already normalized URL changes nothing.
pub proof fn law_v1_base_idempotent(url: Seq<char>)
    ensures
        v1_base(v1_base(url)) == v1_base(url),
{
    reveal_strlit("/v1");
    reveal_strlit("/chat/completions");
    reveal_strlit("/responses");
    let t = trim_start_ws(url);
    lemma_trim_start_first(url);
    lemma_trim_end_ws_prefix(t);
    let tw = trim_ws(url);
    lemma_trim_end_char_prefix(tw, '/');
    let pb = plain_base(url);
    lemma_strip_endpoint_prefix(pb, "/chat/completions"@);
    let a = strip_endpoint(pb, "/chat/completions"@);
    lemma_strip_endpoint_prefix(a, "/responses"@);
    let v = strip_endpoint(a, "/responses"@);
    let w = v1_base(url);
    law_v1_base_ends_with_v1(url);
    assert(w.len() >= 3);
    assert(w.last() == '1') by {
        assert(w.subrange(w.len() - 3, w.len() as int)[2] == "/v1"@[2]);
    }
    assert(!is_ws(w[0])) by {
        if v.len() > 0 {
            assert(v[0] == a[0]);
            assert(a[0] == pb[0]);
            assert(pb[0] == tw[0]);
            assert(tw[0] == t[0]);
            if has_suffix(v, "/v1"@) {
                assert(w == v);
            } else {
                assert(w[0] == v[0]);
            }
        } else {
            assert(!has_suffix(v, "/v1"@));
            assert(w =~= "/v1"@);
        }
    }
    assert(trim_start_ws(w) == w);
    assert(trim_end_ws(w) == w);
    assert(trim_end_char(w, '/') == w);
    lemma_not_suffix(w, "/chat/completions"@, 1);
    lemma_not_suffix(w, "/responses"@, 1);
}

// ---------------------------------------------------------------------------
// The config file
// ---------------------------------------------------------------------------

/// The keys a config file may set, each optional. Field names are the file's
/// keys.
#[derive(Debug, Default)]
pub struct ConfigFile {
    pub grok_api_url: Option<String>,
    pub grok_api_key: Option<String>,
    pub grok_auth_mode: Option<String>,
    pub grok_auth_file: Option<String>,
    pub grok_model: Option<String>,
    pub web_search_enabled: Option<bool>,
    pub x_search_enabled: Option<bool>,
    pub tavily_api_url: Option<String>,
    pub tavily_api_key: Option<String>,
    pub tavily_enabled: Option<bool>,
    pub firecrawl_api_url: Option<String>,
    pub firecrawl_api_key: Option<String>,
    pub firecrawl_enabled: Option<bool>,
    pub default_extra_sources: Option<usize>,
    pub fallback_sources: Option<usize>,
    pub fetch_max_chars: Option<usize>,
    pub cache_size: Option<usize>,
    pub timeout_seconds: Option<u64>,
    pub openai_compatible_api_url: Option<String>,
    pub openai_compatible_api_key: Option<String>,
    pub openai_compatible_model: Option<String>,
    pub github_token: Option<String>,
    pub source_max_answers: Option<usize>,
    pub source_max_comments: Option<usize>,
    pub enrich_concurrency: Option<usize>,
    pub enrich_max_chars: Option<usize>,
    pub max_inline_sources: Option<usize>,
    pub response_max_chars: Option<usize>,
}

pub open spec fn opt_bool_text(b: Option<bool>) -> Option<Seq<char>> {
    match b {
        Some(true) => Some("true"@),
        Some(false) => Some("false"@),
        None => None,
    }
}

pub open spec fn opt_num_text(n: Option<usize>) -> Option<Seq<char>> {
    match n {
        Some(v) => Some(decimal(v as nat)),
        None => None,
    }
}

pub open spec fn opt_u64_text(n: Option<u64>) -> Option<Seq<char>> {
    match n {
        Some(v) => Some(decimal(v as nat)),
        None => None,
    }
}

/// `value` for `key` when it is set, else what `rest` gives.
pub open spec fn overlay(k: Seq<char>, key: Seq<char>, value: Option<Seq<char>>, rest: Option<
    Seq<char>,
>) -> Option<Seq<char>> {
    if k == key && value is Some {
        value
    } else {
        rest
    }
}

/// The environment variable each config file key stands for, and the text
/// of its value: `grok_model` is `GROK_SEARCH_MODEL`, and so on.
pub open spec fn file_value(f: ConfigFile, k: Seq<char>) -> Option<Seq<char>> {
    overlay(k, "GROK_SEARCH_RESPONSE_MAX_CHARS"@, opt_num_text(f.response_max_chars),
    overlay(k, "GROK_SEARCH_MAX_INLINE_SOURCES"@, opt_num_text(f.max_inline_sources),
    overlay(k, "GROK_SEARCH_ENRICH_MAX_CHARS"@, opt_num_text(f.enrich_max_chars),
    overlay(k, "GROK_SEARCH_ENRICH_CONCURRENCY"@, opt_num_text(f.enrich_concurrency),
    overlay(k, "GROK_SEARCH_SOURCE_MAX_COMMENTS"@, opt_num_text(f.source_max_comments),
    overlay(k, "GROK_SEARCH_SOURCE_MAX_ANSWERS"@, opt_num_text(f.source_max_answers),
    overlay(k, "GITHUB_TOKEN"@, opt_str(f.github_token),
    overlay(k, "OPENAI_COMPATIBLE_MODEL"@, opt_str(f.openai_compatible_model),
    overlay(k, "OPENAI_COMPATIBLE_API_KEY"@, opt_str(f.openai_compatible_api_key),
    overlay(k, "OPENAI_COMPATIBLE_API_URL"@, opt_str(f.openai_compatible_api_url),
    overlay(k, "GROK_SEARCH_TIMEOUT_SECONDS"@, opt_u64_text(f.timeout_seconds),
    overlay(k, "GROK_SEARCH_CACHE_SIZE"@, opt_num_text(f.cache_size),
    overlay(k, "GROK_SEARCH_FETCH_MAX_CHARS"@, opt_num_text(f.fetch_max_chars),
    overlay(k, "GROK_SEARCH_FALLBACK_SOURCES"@, opt_num_text(f.fallback_sources),
    overlay(k, "GROK_SEARCH_EXTRA_SOURCES"@, opt_num_text(f.default_extra_sources),
    overlay(k, "FIRECRAWL_ENABLED"@, opt_bool_text(f.firecrawl_enabled),
    overlay(k, "FIRECRAWL_API_KEY"@, opt_str(f.firecrawl_api_key),
    overlay(k, "FIRECRAWL_API_URL"@, opt_str(f.firecrawl_api_url),
    overlay(k, "TAVILY_ENABLED"@, opt_bool_text(f.tavily_enabled),
    overlay(k, "TAVILY_API_KEY"@, opt_str(f.tavily_api_key),
    overlay(k, "TAVILY_API_URL"@, opt_str(f.tavily_api_url),
    overlay(k, "GROK_SEARCH_X_SEARCH"@, opt_bool_text(f.x_search_enabled),
    overlay(k, "GROK_SEARCH_WEB_SEARCH"@, opt_bool_text(f.web_search_enabled),
    overlay(k, "GROK_SEARCH_MODEL"@, opt_str(f.grok_model),
    overlay(k, "GROK_SEARCH_AUTH_FILE"@, opt_str(f.grok_auth_file),
    overlay(k, "GROK_SEARCH_AUTH_MODE"@, opt_str(f.grok_auth_mode),
    overlay(k, "GROK_SEARCH_API_KEY"@, opt_str(f.grok_api_key),
    overlay(k, "GROK_SEARCH_URL"@, opt_str(f.grok_api_url),
    None))))))))))))))))))))))))))))
}

/// 1 for a value that is given, 0 for one that is not.
pub open spec fn present<T>(o: Option<T>) -> nat {
    if o is Some {
        1
    } else {
        0
    }
}

/// How many keys a config file sets.
pub open spec fn file_entries(f: ConfigFile) -> nat {
    present(f.grok_api_url) + present(f.grok_api_key) + present(f.grok_auth_mode) + present(f.grok_auth_file) + present(f.grok_model) + present(f.web_search_enabled) + present(f.x_search_enabled) + present(f.tavily_api_url) + present(f.tavily_api_key) + present(f.tavily_enabled) + present(f.firecrawl_api_url) + present(f.firecrawl_api_key) + present(f.firecrawl_enabled) + present(f.default_extra_sources) + present(f.fallback_sources) + present(f.fetch_max_chars) + present(f.cache_size) + present(f.timeout_seconds) + present(f.openai_compatible_api_url) + present(f.openai_compatible_api_key) + present(f.openai_compatible_model) + present(f.github_token) + present(f.source_max_answers) + present(f.source_max_comments) + present(f.enrich_concurrency) + present(f.enrich_max_chars) + present(f.max_inline_sources) + present(f.response_max_chars)
}

proof fn lemma_bool_text_reads_back(b: bool)
    ensures
        bool_lit(opt_bool_text(Some(b))->0) == b,
{
    reveal_strlit("true");
    reveal_strlit("false");
    reveal_strlit("1");
    reveal_strlit("yes");
    assert(ascii_lower("true"@) =~= "true"@);
    assert(ascii_lower("false"@) =~= "false"@);
    assert("false"@ != "true"@);
}

proof fn lemma_count_reads_back(n: Option<usize>)
    ensures
        n matches Some(v) ==> parse_unsigned(opt_num_text(n)->0, usize::MAX as nat) == Some(v as nat),
{
    if let Some(v) = n {
        lemma_decimal_parses(v as nat, usize::MAX as nat);
    }
}

proof fn lemma_file_grok_model(f: ConfigFile)
    ensures
        file_value(f, "GROK_SEARCH_MODEL"@) == opt_str(f.grok_model),
{
    reveal_strlit("GROK_SEARCH_MODEL");
    reveal_strlit("GROK_SEARCH_RESPONSE_MAX_CHARS");
    assert("GROK_SEARCH_MODEL"@.len() != "GROK_SEARCH_RESPONSE_MAX_CHARS"@.len());
    reveal_strlit("GROK_SEARCH_MAX_INLINE_SOURCES");
    assert("GROK_SEARCH_MODEL"@.len() != "GROK_SEARCH_MAX_INLINE_SOURCES"@.len());
    reveal_strlit("GROK_SEARCH_ENRICH_MAX_CHARS");
    assert("GROK_SEARCH_MODEL"@.len() != "GROK_SEARCH_ENRICH_MAX_CHARS"@.len());
    reveal_strlit("GROK_SEARCH_ENRICH_CONCURRENCY");
    assert("GROK_SEARCH_MODEL"@.len() != "GROK_SEARCH_ENRICH_CONCURRENCY"@.len());
    reveal_strlit("GROK_SEARCH_SOURCE_MAX_COMMENTS");
    assert("GROK_SEARCH_MODEL"@.len() != "GROK_SEARCH_SOURCE_MAX_COMMENTS"@.len());
    reveal_strlit("GROK_SEARCH_SOURCE_MAX_ANSWERS");
    assert("GROK_SEARCH_MODEL"@.len() != "GROK_SEARCH_SOURCE_MAX_ANSWERS"@.len());
    reveal_strlit("GITHUB_TOKEN");
    assert("GROK_SEARCH_MODEL"@.len() != "GITHUB_TOKEN"@.len());
    reveal_strlit("OPENAI_COMPATIBLE_MODEL");
    assert("GROK_SEARCH_MODEL"@.len() != "OPENAI_COMPATIBLE_MODEL"@.len());
    reveal_strlit("OPENAI_COMPATIBLE_API_KEY");
    assert("GROK_SEARCH_MODEL"@.len() != "OPENAI_COMPATIBLE_API_KEY"@.len());
    reveal_strlit("OPENAI_COMPATIBLE_API_URL");
    assert("GROK_SEARCH_MODEL"@.len() != "OPENAI_COMPATIBLE_API_URL"@.len());
    reveal_strlit("GROK_SEARCH_TIMEOUT_SECONDS");
    assert("GROK_SEARCH_MODEL"@.len() != "GROK_SEARCH_TIMEOUT_SECONDS"@.len());
    reveal_strlit("GROK_SEARCH_CACHE_SIZE");
    assert("GROK_SEARCH_MODEL"@.len() != "GROK_SEARCH_CACHE_SIZE"@.len());
    reveal_strlit("GROK_SEARCH_FETCH_MAX_CHARS");
    assert("GROK_SEARCH_MODEL"@.len() != "GROK_SEARCH_FETCH_MAX_CHARS"@.len());
    reveal_strlit("GROK_SEARCH_FALLBACK_SOURCES");
    assert("GROK_SEARCH_MODEL"@.len() != "GROK_SEARCH_FALLBACK_SOURCES"@.len());
    reveal_strlit("GROK_SEARCH_EXTRA_SOURCES");
    assert("GROK_SEARCH_MODEL"@.len() != "GROK_SEARCH_EXTRA_SOURCES"@.len());
    reveal_strlit("FIRECRAWL_ENABLED");
    assert("GROK_SEARCH_MODEL"@[0] != "FIRECRAWL_ENABLED"@[0]);
    reveal_strlit("FIRECRAWL_API_KEY");
    assert("GROK_SEARCH_MODEL"@[0] != "FIRECRAWL_API_KEY"@[0]);
    reveal_strlit("FIRECRAWL_API_URL");
    assert("GROK_SEARCH_MODEL"@[0] != "FIRECRAWL_API_URL"@[0]);
    reveal_strlit("TAVILY_ENABLED");
    assert("GROK_SEARCH_MODEL"@.len() != "TAVILY_ENABLED"@.len());
    reveal_strlit("TAVILY_API_KEY");
    assert("GROK_SEARCH_MODEL"@.len() != "TAVILY_API_KEY"@.len());
    reveal_strlit("TAVILY_API_URL");
    assert("GROK_SEARCH_MODEL"@.len() != "TAVILY_API_URL"@.len());
    reveal_strlit("GROK_SEARCH_X_SEARCH");
    assert("GROK_SEARCH_MODEL"@.len() != "GROK_SEARCH_X_SEARCH"@.len());
    reveal_strlit("GROK_SEARCH_WEB_SEARCH");
    assert("GROK_SEARCH_MODEL"@.len() != "GROK_SEARCH_WEB_SEARCH"@.len());
    reveal_strlit("GROK_SEARCH_AUTH_FILE");
    assert("GROK_SEARCH_MODEL"@.len() != "GROK_SEARCH_AUTH_FILE"@.len());
    reveal_strlit("GROK_SEARCH_AUTH_MODE");
    assert("GROK_SEARCH_MODEL"@.len() != "GROK_SEARCH_AUTH_MODE"@.len());
    reveal_strlit("GROK_SEARCH_API_KEY");
    assert("GROK_SEARCH_MODEL"@.len() != "GROK_SEARCH_API_KEY"@.len());
    reveal_strlit("GROK_SEARCH_URL");
    assert("GROK_SEARCH_MODEL"@.len() != "GROK_SEARCH_URL"@.len());
}

proof fn lemma_file_web_search_enabled(f: ConfigFile)
    ensures
        file_value(f, "GROK_SEARCH_WEB_SEARCH"@) == opt_bool_text(f.web_search_enabled),
{
    reveal_strlit("GROK_SEARCH_WEB_SEARCH");
    reveal_strlit("GROK_SEARCH_RESPONSE_MAX_CHARS");
    assert("GROK_SEARCH_WEB_SEARCH"@.len() != "GROK_SEARCH_RESPONSE_MAX_CHARS"@.len());
    reveal_strlit("GROK_SEARCH_MAX_INLINE_SOURCES");
    assert("GROK_SEARCH_WEB_SEARCH"@.len() != "GROK_SEARCH_MAX_INLINE_SOURCES"@.len());
    reveal_strlit("GROK_SEARCH_ENRICH_MAX_CHARS");
    assert("GROK_SEARCH_WEB_SEARCH"@.len() != "GROK_SEARCH_ENRICH_MAX_CHARS"@.len());
    reveal_strlit("GROK_SEARCH_ENRICH_CONCURRENCY");
    assert("GROK_SEARCH_WEB_SEARCH"@.len() != "GROK_SEARCH_ENRICH_CONCURRENCY"@.len());
    reveal_strlit("GROK_SEARCH_SOURCE_MAX_COMMENTS");
    assert("GROK_SEARCH_WEB_SEARCH"@.len() != "GROK_SEARCH_SOURCE_MAX_COMMENTS"@.len());
    reveal_strlit("GROK_SEARCH_SOURCE_MAX_ANSWERS");
    assert("GROK_SEARCH_WEB_SEARCH"@.len() != "GROK_SEARCH_SOURCE_MAX_ANSWERS"@.len());
    reveal_strlit("GITHUB_TOKEN");
    assert("GROK_SEARCH_WEB_SEARCH"@.len() != "GITHUB_TOKEN"@.len());
    reveal_strlit("OPENAI_COMPATIBLE_MODEL");
    assert("GROK_SEARCH_WEB_SEARCH"@.len() != "OPENAI_COMPATIBLE_MODEL"@.len());
    reveal_strlit("OPENAI_COMPATIBLE_API_KEY");
    assert("GROK_SEARCH_WEB_SEARCH"@.len() != "OPENAI_COMPATIBLE_API_KEY"@.len());
    reveal_strlit("OPENAI_COMPATIBLE_API_URL");
    assert("GROK_SEARCH_WEB_SEARCH"@.len() != "OPENAI_COMPATIBLE_API_URL"@.len());
    reveal_strlit("GROK_SEARCH_TIMEOUT_SECONDS");
    assert("GROK_SEARCH_WEB_SEARCH"@.len() != "GROK_SEARCH_TIMEOUT_SECONDS"@.len());
    reveal_strlit("GROK_SEARCH_CACHE_SIZE");
    assert("GROK_SEARCH_WEB_SEARCH"@[12] != "GROK_SEARCH_CACHE_SIZE"@[12]);
    reveal_strlit("GROK_SEARCH_FETCH_MAX_CHARS");
    assert("GROK_SEARCH_WEB_SEARCH"@.len() != "GROK_SEARCH_FETCH_MAX_CHARS"@.len());
    reveal_strlit("GROK_SEARCH_FALLBACK_SOURCES");
    assert("GROK_SEARCH_WEB_SEARCH"@.len() != "GROK_SEARCH_FALLBACK_SOURCES"@.len());
    reveal_strlit("GROK_SEARCH_EXTRA_SOURCES");
    assert("GROK_SEARCH_WEB_SEARCH"@.len() != "GROK_SEARCH_EXTRA_SOURCES"@.len());
    reveal_strlit("FIRECRAWL_ENABLED");
    assert("GROK_SEARCH_WEB_SEARCH"@.len() != "FIRECRAWL_ENABLED"@.len());
    reveal_strlit("FIRECRAWL_API_KEY");
    assert("GROK_SEARCH_WEB_SEARCH"@.len() != "FIRECRAWL_API_KEY"@.len());
    reveal_strlit("FIRECRAWL_API_URL");
    assert("GROK_SEARCH_WEB_SEARCH"@.len() != "FIRECRAWL_API_URL"@.len());
    reveal_strlit("TAVILY_ENABLED");
    assert("GROK_SEARCH_WEB_SEARCH"@.len() != "TAVILY_ENABLED"@.len());
    reveal_strlit("TAVILY_API_KEY");
    assert("GROK_SEARCH_WEB_SEARCH"@.len() != "TAVILY_API_KEY"@.len());
    reveal_strlit("TAVILY_API_URL");
    assert("GROK_SEARCH_WEB_SEARCH"@.len() != "TAVILY_API_URL"@.len());
    reveal_strlit("GROK_SEARCH_X_SEARCH");
    assert("GROK_SEARCH_WEB_SEARCH"@.len() != "GROK_SEARCH_X_SEARCH"@.len());
    reveal_strlit("GROK_SEARCH_MODEL");
    assert("GROK_SEARCH_WEB_SEARCH"@.len() != "GROK_SEARCH_MODEL"@.len());
    reveal_strlit("GROK_SEARCH_AUTH_FILE");
    assert("GROK_SEARCH_WEB_SEARCH"@.len() != "GROK_SEARCH_AUTH_FILE"@.len());
    reveal_strlit("GROK_SEARCH_AUTH_MODE");
    assert("GROK_SEARCH_WEB_SEARCH"@.len() != "GROK_SEARCH_AUTH_MODE"@.len());
    reveal_strlit("GROK_SEARCH_API_KEY");
    assert("GROK_SEARCH_WEB_SEARCH"@.len() != "GROK_SEARCH_API_KEY"@.len());
    reveal_strlit("GROK_SEARCH_URL");
    assert("GROK_SEARCH_WEB_SEARCH"@.len() != "GROK_SEARCH_URL"@.len());
}

proof fn lemma_file_x_search_enabled(f: ConfigFile)
    ensures
        file_value(f, "GROK_SEARCH_X_SEARCH"@) == opt_bool_text(f.x_search_enabled),
{
    reveal_strlit("GROK_SEARCH_X_SEARCH");
    reveal_strlit("GROK_SEARCH_RESPONSE_MAX_CHARS");
    assert("GROK_SEARCH_X_SEARCH"@.len() != "GROK_SEARCH_RESPONSE_MAX_CHARS"@.len());
    reveal_strlit("GROK_SEARCH_MAX_INLINE_SOURCES");
    assert("GROK_SEARCH_X_SEARCH"@.len() != "GROK_SEARCH_MAX_INLINE_SOURCES"@.len());
    reveal_strlit("GROK_SEARCH_ENRICH_MAX_CHARS");
    assert("GROK_SEARCH_X_SEARCH"@.len() != "GROK_SEARCH_ENRICH_MAX_CHARS"@.len());
    reveal_strlit("GROK_SEARCH_ENRICH_CONCURRENCY");
    assert("GROK_SEARCH_X_SEARCH"@.len() != "GROK_SEARCH_ENRICH_CONCURRENCY"@.len());
    reveal_strlit("GROK_SEARCH_SOURCE_MAX_COMMENTS");
    assert("GROK_SEARCH_X_SEARCH"@.len() != "GROK_SEARCH_SOURCE_MAX_COMMENTS"@.len());
    reveal_strlit("GROK_SEARCH_SOURCE_MAX_ANSWERS");
    assert("GROK_SEARCH_X_SEARCH"@.len() != "GROK_SEARCH_SOURCE_MAX_ANSWERS"@.len());
    reveal_strlit("GITHUB_TOKEN");
    assert("GROK_SEARCH_X_SEARCH"@.len() != "GITHUB_TOKEN"@.len());
    reveal_strlit("OPENAI_COMPATIBLE_MODEL");
    assert("GROK_SEARCH_X_SEARCH"@.len() != "OPENAI_COMPATIBLE_MODEL"@.len());
    reveal_strlit("OPENAI_COMPATIBLE_API_KEY");
    assert("GROK_SEARCH_X_SEARCH"@.len() != "OPENAI_COMPATIBLE_API_KEY"@.len());
    reveal_strlit("OPENAI_COMPATIBLE_API_URL");
    assert("GROK_SEARCH_X_SEARCH"@.len() != "OPENAI_COMPATIBLE_API_URL"@.len());
    reveal_strlit("GROK_SEARCH_TIMEOUT_SECONDS");
    assert("GROK_SEARCH_X_SEARCH"@.len() != "GROK_SEARCH_TIMEOUT_SECONDS"@.len());
    reveal_strlit("GROK_SEARCH_CACHE_SIZE");
    assert("GROK_SEARCH_X_SEARCH"@.len() != "GROK_SEARCH_CACHE_SIZE"@.len());
    reveal_strlit("GROK_SEARCH_FETCH_MAX_CHARS");
    assert("GROK_SEARCH_X_SEARCH"@.len() != "GROK_SEARCH_FETCH_MAX_CHARS"@.len());
    reveal_strlit("GROK_SEARCH_FALLBACK_SOURCES");
    assert("GROK_SEARCH_X_SEARCH"@.len() != "GROK_SEARCH_FALLBACK_SOURCES"@.len());
    reveal_strlit("GROK_SEARCH_EXTRA_SOURCES");
    assert("GROK_SEARCH_X_SEARCH"@.len() != "GROK_SEARCH_EXTRA_SOURCES"@.len());
    reveal_strlit("FIRECRAWL_ENABLED");
    assert("GROK_SEARCH_X_SEARCH"@.len() != "FIRECRAWL_ENABLED"@.len());
    reveal_strlit("FIRECRAWL_API_KEY");
    assert("GROK_SEARCH_X_SEARCH"@.len() != "FIRECRAWL_API_KEY"@.len());
    reveal_strlit("FIRECRAWL_API_URL");
    assert("GROK_SEARCH_X_SEARCH"@.len() != "FIRECRAWL_API_URL"@.len());
    reveal_strlit("TAVILY_ENABLED");
    assert("GROK_SEARCH_X_SEARCH"@.len() != "TAVILY_ENABLED"@.len());
    reveal_strlit("TAVILY_API_KEY");
    assert("GROK_SEARCH_X_SEARCH"@.len() != "TAVILY_API_KEY"@.len());
    reveal_strlit("TAVILY_API_URL");
    assert("GROK_SEARCH_X_SEARCH"@.len() != "TAVILY_API_URL"@.len());
    reveal_strlit("GROK_SEARCH_WEB_SEARCH");
    assert("GROK_SEARCH_X_SEARCH"@.len() != "GROK_SEARCH_WEB_SEARCH"@.len());
    reveal_strlit("GROK_SEARCH_MODEL");
    assert("GROK_SEARCH_X_SEARCH"@.len() != "GROK_SEARCH_MODEL"@.len());
    reveal_strlit("GROK_SEARCH_AUTH_FILE");
    assert("GROK_SEARCH_X_SEARCH"@.len() != "GROK_SEARCH_AUTH_FILE"@.len());
    reveal_strlit("GROK_SEARCH_AUTH_MODE");
    assert("GROK_SEARCH_X_SEARCH"@.len() != "GROK_SEARCH_AUTH_MODE"@.len());
    reveal_strlit("GROK_SEARCH_API_KEY");
    assert("GROK_SEARCH_X_SEARCH"@.len() != "GROK_SEARCH_API_KEY"@.len());
    reveal_strlit("GROK_SEARCH_URL");
    assert("GROK_SEARCH_X_SEARCH"@.len() != "GROK_SEARCH_URL"@.len());
}

proof fn lemma_file_tavily_enabled(f: ConfigFile)
    ensures
        file_value(f, "TAVILY_ENABLED"@) == opt_bool_text(f.tavily_enabled),
{
    reveal_strlit("TAVILY_ENABLED");
    reveal_strlit("GROK_SEARCH_RESPONSE_MAX_CHARS");
    assert("TAVILY_ENABLED"@.len() != "GROK_SEARCH_RESPONSE_MAX_CHARS"@.len());
    reveal_strlit("GROK_SEARCH_MAX_INLINE_SOURCES");
    assert("TAVILY_ENABLED"@.len() != "GROK_SEARCH_MAX_INLINE_SOURCES"@.len());
    reveal_strlit("GROK_SEARCH_ENRICH_MAX_CHARS");
    assert("TAVILY_ENABLED"@.len() != "GROK_SEARCH_ENRICH_MAX_CHARS"@.len());
    reveal_strlit("GROK_SEARCH_ENRICH_CONCURRENCY");
    assert("TAVILY_ENABLED"@.len() != "GROK_SEARCH_ENRICH_CONCURRENCY"@.len());
    reveal_strlit("GROK_SEARCH_SOURCE_MAX_COMMENTS");
    assert("TAVILY_ENABLED"@.len() != "GROK_SEARCH_SOURCE_MAX_COMMENTS"@.len());
    reveal_strlit("GROK_SEARCH_SOURCE_MAX_ANSWERS");
    assert("TAVILY_ENABLED"@.len() != "GROK_SEARCH_SOURCE_MAX_ANSWERS"@.len());
    reveal_strlit("GITHUB_TOKEN");
    assert("TAVILY_ENABLED"@.len() != "GITHUB_TOKEN"@.len());
    reveal_strlit("OPENAI_COMPATIBLE_MODEL");
    assert("TAVILY_ENABLED"@.len() != "OPENAI_COMPATIBLE_MODEL"@.len());
    reveal_strlit("OPENAI_COMPATIBLE_API_KEY");
    assert("TAVILY_ENABLED"@.len() != "OPENAI_COMPATIBLE_API_KEY"@.len());
    reveal_strlit("OPENAI_COMPATIBLE_API_URL");
    assert("TAVILY_ENABLED"@.len() != "OPENAI_COMPATIBLE_API_URL"@.len());
    reveal_strlit("GROK_SEARCH_TIMEOUT_SECONDS");
    assert("TAVILY_ENABLED"@.len() != "GROK_SEARCH_TIMEOUT_SECONDS"@.len());
    reveal_strlit("GROK_SEARCH_CACHE_SIZE");
    assert("TAVILY_ENABLED"@.len() != "GROK_SEARCH_CACHE_SIZE"@.len());
    reveal_strlit("GROK_SEARCH_FETCH_MAX_CHARS");
    assert("TAVILY_ENABLED"@.len() != "GROK_SEARCH_FETCH_MAX_CHARS"@.len());
    reveal_strlit("GROK_SEARCH_FALLBACK_SOURCES");
    assert("TAVILY_ENABLED"@.len() != "GROK_SEARCH_FALLBACK_SOURCES"@.len());
    reveal_strlit("GROK_SEARCH_EXTRA_SOURCES");
    assert("TAVILY_ENABLED"@.len() != "GROK_SEARCH_EXTRA_SOURCES"@.len());
    reveal_strlit("FIRECRAWL_ENABLED");
    assert("TAVILY_ENABLED"@.len() != "FIRECRAWL_ENABLED"@.len());
    reveal_strlit("FIRECRAWL_API_KEY");
    assert("TAVILY_ENABLED"@.len() != "FIRECRAWL_API_KEY"@.len());
    reveal_strlit("FIRECRAWL_API_URL");
    assert("TAVILY_ENABLED"@.len() != "FIRECRAWL_API_URL"@.len());
    reveal_strlit("TAVILY_API_KEY");
    assert("TAVILY_ENABLED"@[7] != "TAVILY_API_KEY"@[7]);
    reveal_strlit("TAVILY_API_URL");
    assert("TAVILY_ENABLED"@[7] != "TAVILY_API_URL"@[7]);
    reveal_strlit("GROK_SEARCH_X_SEARCH");
    assert("TAVILY_ENABLED"@.len() != "GROK_SEARCH_X_SEARCH"@.len());
    reveal_strlit("GROK_SEARCH_WEB_SEARCH");
    assert("TAVILY_ENABLED"@.len() != "GROK_SEARCH_WEB_SEARCH"@.len());
    reveal_strlit("GROK_SEARCH_MODEL");
    assert("TAVILY_ENABLED"@.len() != "GROK_SEARCH_MODEL"@.len());
    reveal_strlit("GROK_SEARCH_AUTH_FILE");
    assert("TAVILY_ENABLED"@.len() != "GROK_SEARCH_AUTH_FILE"@.len());
    reveal_strlit("GROK_SEARCH_AUTH_MODE");
    assert("TAVILY_ENABLED"@.len() != "GROK_SEARCH_AUTH_MODE"@.len());
    reveal_strlit("GROK_SEARCH_API_KEY");
    assert("TAVILY_ENABLED"@.len() != "GROK_SEARCH_API_KEY"@.len());
    reveal_strlit("GROK_SEARCH_URL");
    assert("TAVILY_ENABLED"@.len() != "GROK_SEARCH_URL"@.len());
}

proof fn lemma_file_firecrawl_enabled(f: ConfigFile)
    ensures
        file_value(f, "FIRECRAWL_ENABLED"@) == opt_bool_text(f.firecrawl_enabled),
{
    reveal_strlit("FIRECRAWL_ENABLED");
    reveal_strlit("GROK_SEARCH_RESPONSE_MAX_CHARS");
    assert("FIRECRAWL_ENABLED"@.len() != "GROK_SEARCH_RESPONSE_MAX_CHARS"@.len());
    reveal_strlit("GROK_SEARCH_MAX_INLINE_SOURCES");
    assert("FIRECRAWL_ENABLED"@.len() != "GROK_SEARCH_MAX_INLINE_SOURCES"@.len());
    reveal_strlit("GROK_SEARCH_ENRICH_MAX_CHARS");
    assert("FIRECRAWL_ENABLED"@.len() != "GROK_SEARCH_ENRICH_MAX_CHARS"@.len());
    reveal_strlit("GROK_SEARCH_ENRICH_CONCURRENCY");
    assert("FIRECRAWL_ENABLED"@.len() != "GROK_SEARCH_ENRICH_CONCURRENCY"@.len());
    reveal_strlit("GROK_SEARCH_SOURCE_MAX_COMMENTS");
    assert("FIRECRAWL_ENABLED"@.len() != "GROK_SEARCH_SOURCE_MAX_COMMENTS"@.len());
    reveal_strlit("GROK_SEARCH_SOURCE_MAX_ANSWERS");
    assert("FIRECRAWL_ENABLED"@.len() != "GROK_SEARCH_SOURCE_MAX_ANSWERS"@.len());
    reveal_strlit("GITHUB_TOKEN");
    assert("FIRECRAWL_ENABLED"@.len() != "GITHUB_TOKEN"@.len());
    reveal_strlit("OPENAI_COMPATIBLE_MODEL");
    assert("FIRECRAWL_ENABLED"@.len() != "OPENAI_COMPATIBLE_MODEL"@.len());
    reveal_strlit("OPENAI_COMPATIBLE_API_KEY");
    assert("FIRECRAWL_ENABLED"@.len() != "OPENAI_COMPATIBLE_API_KEY"@.len());
    reveal_strlit("OPENAI_COMPATIBLE_API_URL");
    assert("FIRECRAWL_ENABLED"@.len() != "OPENAI_COMPATIBLE_API_URL"@.len());
    reveal_strlit("GROK_SEARCH_TIMEOUT_SECONDS");
    assert("FIRECRAWL_ENABLED"@.len() != "GROK_SEARCH_TIMEOUT_SECONDS"@.len());
    reveal_strlit("GROK_SEARCH_CACHE_SIZE");
    assert("FIRECRAWL_ENABLED"@.len() != "GROK_SEARCH_CACHE_SIZE"@.len());
    reveal_strlit("GROK_SEARCH_FETCH_MAX_CHARS");
    assert("FIRECRAWL_ENABLED"@.len() != "GROK_SEARCH_FETCH_MAX_CHARS"@.len());
    reveal_strlit("GROK_SEARCH_FALLBACK_SOURCES");
    assert("FIRECRAWL_ENABLED"@.len() != "GROK_SEARCH_FALLBACK_SOURCES"@.len());
    reveal_strlit("GROK_SEARCH_EXTRA_SOURCES");
    assert("FIRECRAWL_ENABLED"@.len() != "GROK_SEARCH_EXTRA_SOURCES"@.len());
    reveal_strlit("FIRECRAWL_API_KEY");
    assert("FIRECRAWL_ENABLED"@[10] != "FIRECRAWL_API_KEY"@[10]);
    reveal_strlit("FIRECRAWL_API_URL");
    assert("FIRECRAWL_ENABLED"@[10] != "FIRECRAWL_API_URL"@[10]);
    reveal_strlit("TAVILY_ENABLED");
    assert("FIRECRAWL_ENABLED"@.len() != "TAVILY_ENABLED"@.len());
    reveal_strlit("TAVILY_API_KEY");
    assert("FIRECRAWL_ENABLED"@.len() != "TAVILY_API_KEY"@.len());
    reveal_strlit("TAVILY_API_URL");
    assert("FIRECRAWL_ENABLED"@.len() != "TAVILY_API_URL"@.len());
    reveal_strlit("GROK_SEARCH_X_SEARCH");
    assert("FIRECRAWL_ENABLED"@.len() != "GROK_SEARCH_X_SEARCH"@.len());
    reveal_strlit("GROK_SEARCH_WEB_SEARCH");
    assert("FIRECRAWL_ENABLED"@.len() != "GROK_SEARCH_WEB_SEARCH"@.len());
    reveal_strlit("GROK_SEARCH_MODEL");
    assert("FIRECRAWL_ENABLED"@[0] != "GROK_SEARCH_MODEL"@[0]);
    reveal_strlit("GROK_SEARCH_AUTH_FILE");
    assert("FIRECRAWL_ENABLED"@.len() != "GROK_SEARCH_AUTH_FILE"@.len());
    reveal_strlit("GROK_SEARCH_AUTH_MODE");
    assert("FIRECRAWL_ENABLED"@.len() != "GROK_SEARCH_AUTH_MODE"@.len());
    reveal_strlit("GROK_SEARCH_API_KEY");
    assert("FIRECRAWL_ENABLED"@.len() != "GROK_SEARCH_API_KEY"@.len());
    reveal_strlit("GROK_SEARCH_URL");
    assert("FIRECRAWL_ENABLED"@.len() != "GROK_SEARCH_URL"@.len());
}

proof fn lemma_file_default_extra_sources(f: ConfigFile)
    ensures
        file_value(f, "GROK_SEARCH_EXTRA_SOURCES"@) == opt_num_text(f.default_extra_sources),
{
    reveal_strlit("GROK_SEARCH_EXTRA_SOURCES");
    reveal_strlit("GROK_SEARCH_RESPONSE_MAX_CHARS");
    assert("GROK_SEARCH_EXTRA_SOURCES"@.len() != "GROK_SEARCH_RESPONSE_MAX_CHARS"@.len());
    reveal_strlit("GROK_SEARCH_MAX_INLINE_SOURCES");
    assert("GROK_SEARCH_EXTRA_SOURCES"@.len() != "GROK_SEARCH_MAX_INLINE_SOURCES"@.len());
    reveal_strlit("GROK_SEARCH_ENRICH_MAX_CHARS");
    assert("GROK_SEARCH_EXTRA_SOURCES"@.len() != "GROK_SEARCH_ENRICH_MAX_CHARS"@.len());
    reveal_strlit("GROK_SEARCH_ENRICH_CONCURRENCY");
    assert("GROK_SEARCH_EXTRA_SOURCES"@.len() != "GROK_SEARCH_ENRICH_CONCURRENCY"@.len());
    reveal_strlit("GROK_SEARCH_SOURCE_MAX_COMMENTS");
    assert("GROK_SEARCH_EXTRA_SOURCES"@.len() != "GROK_SEARCH_SOURCE_MAX_COMMENTS"@.len());
    reveal_strlit("GROK_SEARCH_SOURCE_MAX_ANSWERS");
    assert("GROK_SEARCH_EXTRA_SOURCES"@.len() != "GROK_SEARCH_SOURCE_MAX_ANSWERS"@.len());
    reveal_strlit("GITHUB_TOKEN");
    assert("GROK_SEARCH_EXTRA_SOURCES"@.len() != "GITHUB_TOKEN"@.len());
    reveal_strlit("OPENAI_COMPATIBLE_MODEL");
    assert("GROK_SEARCH_EXTRA_SOURCES"@.len() != "OPENAI_COMPATIBLE_MODEL"@.len());
    reveal_strlit("OPENAI_COMPATIBLE_API_KEY");
    assert("GROK_SEARCH_EXTRA_SOURCES"@[0] != "OPENAI_COMPATIBLE_API_KEY"@[0]);
    reveal_strlit("OPENAI_COMPATIBLE_API_URL");
    assert("GROK_SEARCH_EXTRA_SOURCES"@[0] != "OPENAI_COMPATIBLE_API_URL"@[0]);
    reveal_strlit("GROK_SEARCH_TIMEOUT_SECONDS");
    assert("GROK_SEARCH_EXTRA_SOURCES"@.len() != "GROK_SEARCH_TIMEOUT_SECONDS"@.len());
    reveal_strlit("GROK_SEARCH_CACHE_SIZE");
    assert("GROK_SEARCH_EXTRA_SOURCES"@.len() != "GROK_SEARCH_CACHE_SIZE"@.len());
    reveal_strlit("GROK_SEARCH_FETCH_MAX_CHARS");
    assert("GROK_SEARCH_EXTRA_SOURCES"@.len() != "GROK_SEARCH_FETCH_MAX_CHARS"@.len());
    reveal_strlit("GROK_SEARCH_FALLBACK_SOURCES");
    assert("GROK_SEARCH_EXTRA_SOURCES"@.len() != "GROK_SEARCH_FALLBACK_SOURCES"@.len());
    reveal_strlit("FIRECRAWL_ENABLED");
    assert("GROK_SEARCH_EXTRA_SOURCES"@.len() != "FIRECRAWL_ENABLED"@.len());
    reveal_strlit("FIRECRAWL_API_KEY");
    assert("GROK_SEARCH_EXTRA_SOURCES"@.len() != "FIRECRAWL_API_KEY"@.len());
    reveal_strlit("FIRECRAWL_API_URL");
    assert("GROK_SEARCH_EXTRA_SOURCES"@.len() != "FIRECRAWL_API_URL"@.len());
    reveal_strlit("TAVILY_ENABLED");
    assert("GROK_SEARCH_EXTRA_SOURCES"@.len() != "TAVILY_ENABLED"@.len());
    reveal_strlit("TAVILY_API_KEY");
    assert("GROK_SEARCH_EXTRA_SOURCES"@.len() != "TAVILY_API_KEY"@.len());
    reveal_strlit("TAVILY_API_URL");
    assert("GROK_SEARCH_EXTRA_SOURCES"@.len() != "TAVILY_API_URL"@.len());
    reveal_strlit("GROK_SEARCH_X_SEARCH");
    assert("GROK_SEARCH_EXTRA_SOURCES"@.len() != "GROK_SEARCH_X_SEARCH"@.len());
    reveal_strlit("GROK_SEARCH_WEB_SEARCH");
    assert("GROK_SEARCH_EXTRA_SOURCES"@.len() != "GROK_SEARCH_WEB_SEARCH"@.len());
    reveal_strlit("GROK_SEARCH_MODEL");
    assert("GROK_SEARCH_EXTRA_SOURCES"@.len() != "GROK_SEARCH_MODEL"@.len());
    reveal_strlit("GROK_SEARCH_AUTH_FILE");
    assert("GROK_SEARCH_EXTRA_SOURCES"@.len() != "GROK_SEARCH_AUTH_FILE"@.len());
    reveal_strlit("GROK_SEARCH_AUTH_MODE");
    assert("GROK_SEARCH_EXTRA_SOURCES"@.len() != "GROK_SEARCH_AUTH_MODE"@.len());
    reveal_strlit("GROK_SEARCH_API_KEY");
    assert("GROK_SEARCH_EXTRA_SOURCES"@.len() != "GROK_SEARCH_API_KEY"@.len());
    reveal_strlit("GROK_SEARCH_URL");
    assert("GROK_SEARCH_EXTRA_SOURCES"@.len() != "GROK_SEARCH_URL"@.len());
}

proof fn lemma_file_fallback_sources(f: ConfigFile)
    ensures
        file_value(f, "GROK_SEARCH_FALLBACK_SOURCES"@) == opt_num_text(f.fallback_sources),
{
    reveal_strlit("GROK_SEARCH_FALLBACK_SOURCES");
    reveal_strlit("GROK_SEARCH_RESPONSE_MAX_CHARS");
    assert("GROK_SEARCH_FALLBACK_SOURCES"@.len() != "GROK_SEARCH_RESPONSE_MAX_CHARS"@.len());
    reveal_strlit("GROK_SEARCH_MAX_INLINE_SOURCES");
    assert("GROK_SEARCH_FALLBACK_SOURCES"@.len() != "GROK_SEARCH_MAX_INLINE_SOURCES"@.len());
    reveal_strlit("GROK_SEARCH_ENRICH_MAX_CHARS");
    assert("GROK_SEARCH_FALLBACK_SOURCES"@[12] != "GROK_SEARCH_ENRICH_MAX_CHARS"@[12]);
    reveal_strlit("GROK_SEARCH_ENRICH_CONCURRENCY");
    assert("GROK_SEARCH_FALLBACK_SOURCES"@.len() != "GROK_SEARCH_ENRICH_CONCURRENCY"@.len());
    reveal_strlit("GROK_SEARCH_SOURCE_MAX_COMMENTS");
    assert("GROK_SEARCH_FALLBACK_SOURCES"@.len() != "GROK_SEARCH_SOURCE_MAX_COMMENTS"@.len());
    reveal_strlit("GROK_SEARCH_SOURCE_MAX_ANSWERS");
    assert("GROK_SEARCH_FALLBACK_SOURCES"@.len() != "GROK_SEARCH_SOURCE_MAX_ANSWERS"@.len());
    reveal_strlit("GITHUB_TOKEN");
    assert("GROK_SEARCH_FALLBACK_SOURCES"@.len() != "GITHUB_TOKEN"@.len());
    reveal_strlit("OPENAI_COMPATIBLE_MODEL");
    assert("GROK_SEARCH_FALLBACK_SOURCES"@.len() != "OPENAI_COMPATIBLE_MODEL"@.len());
    reveal_strlit("OPENAI_COMPATIBLE_API_KEY");
    assert("GROK_SEARCH_FALLBACK_SOURCES"@.len() != "OPENAI_COMPATIBLE_API_KEY"@.len());
    reveal_strlit("OPENAI_COMPATIBLE_API_URL");
    assert("GROK_SEARCH_FALLBACK_SOURCES"@.len() != "OPENAI_COMPATIBLE_API_URL"@.len());
    reveal_strlit("GROK_SEARCH_TIMEOUT_SECONDS");
    assert("GROK_SEARCH_FALLBACK_SOURCES"@.len() != "GROK_SEARCH_TIMEOUT_SECONDS"@.len());
    reveal_strlit("GROK_SEARCH_CACHE_SIZE");
    assert("GROK_SEARCH_FALLBACK_SOURCES"@.len() != "GROK_SEARCH_CACHE_SIZE"@.len());
    reveal_strlit("GROK_SEARCH_FETCH_MAX_CHARS");
    assert("GROK_SEARCH_FALLBACK_SOURCES"@.len() != "GROK_SEARCH_FETCH_MAX_CHARS"@.len());
    reveal_strlit("GROK_SEARCH_EXTRA_SOURCES");
    assert("GROK_SEARCH_FALLBACK_SOURCES"@.len() != "GROK_SEARCH_EXTRA_SOURCES"@.len());
    reveal_strlit("FIRECRAWL_ENABLED");
    assert("GROK_SEARCH_FALLBACK_SOURCES"@.len() != "FIRECRAWL_ENABLED"@.len());
    reveal_strlit("FIRECRAWL_API_KEY");
    assert("GROK_SEARCH_FALLBACK_SOURCES"@.len() != "FIRECRAWL_API_KEY"@.len());
    reveal_strlit("FIRECRAWL_API_URL");
    assert("GROK_SEARCH_FALLBACK_SOURCES"@.len() != "FIRECRAWL_API_URL"@.len());
    reveal_strlit("TAVILY_ENABLED");
    assert("GROK_SEARCH_FALLBACK_SOURCES"@.len() != "TAVILY_ENABLED"@.len());
    reveal_strlit("TAVILY_API_KEY");
    assert("GROK_SEARCH_FALLBACK_SOURCES"@.len() != "TAVILY_API_KEY"@.len());
    reveal_strlit("TAVILY_API_URL");
    assert("GROK_SEARCH_FALLBACK_SOURCES"@.len() != "TAVILY_API_URL"@.len());
    reveal_strlit("GROK_SEARCH_X_SEARCH");
    assert("GROK_SEARCH_FALLBACK_SOURCES"@.len() != "GROK_SEARCH_X_SEARCH"@.len());
    reveal_strlit("GROK_SEARCH_WEB_SEARCH");
    assert("GROK_SEARCH_FALLBACK_SOURCES"@.len() != "GROK_SEARCH_WEB_SEARCH"@.len());
    reveal_strlit("GROK_SEARCH_MODEL");
    assert("GROK_SEARCH_FALLBACK_SOURCES"@.len() != "GROK_SEARCH_MODEL"@.len());
    reveal_strlit("GROK_SEARCH_AUTH_FILE");
    assert("GROK_SEARCH_FALLBACK_SOURCES"@.len() != "GROK_SEARCH_AUTH_FILE"@.len());
    reveal_strlit("GROK_SEARCH_AUTH_MODE");
    assert("GROK_SEARCH_FALLBACK_SOURCES"@.len() != "GROK_SEARCH_AUTH_MODE"@.len());
    reveal_strlit("GROK_SEARCH_API_KEY");
    assert("GROK_SEARCH_FALLBACK_SOURCES"@.len() != "GROK_SEARCH_API_KEY"@.len());
    reveal_strlit("GROK_SEARCH_URL");
    assert("GROK_SEARCH_FALLBACK_SOURCES"@.len() != "GROK_SEARCH_URL"@.len());
}

proof fn lemma_file_cache_size(f: ConfigFile)
    ensures
        file_value(f, "GROK_SEARCH_CACHE_SIZE"@) == opt_num_text(f.cache_size),
{
    reveal_strlit("GROK_SEARCH_CACHE_SIZE");
    reveal_strlit("GROK_SEARCH_RESPONSE_MAX_CHARS");
    assert("GROK_SEARCH_CACHE_SIZE"@.len() != "GROK_SEARCH_RESPONSE_MAX_CHARS"@.len());
    reveal_strlit("GROK_SEARCH_MAX_INLINE_SOURCES");
    assert("GROK_SEARCH_CACHE_SIZE"@.len() != "GROK_SEARCH_MAX_INLINE_SOURCES"@.len());
    reveal_strlit("GROK_SEARCH_ENRICH_MAX_CHARS");
    assert("GROK_SEARCH_CACHE_SIZE"@.len() != "GROK_SEARCH_ENRICH_MAX_CHARS"@.len());
    reveal_strlit("GROK_SEARCH_ENRICH_CONCURRENCY");
    assert("GROK_SEARCH_CACHE_SIZE"@.len() != "GROK_SEARCH_ENRICH_CONCURRENCY"@.len());
    reveal_strlit("GROK_SEARCH_SOURCE_MAX_COMMENTS");
    assert("GROK_SEARCH_CACHE_SIZE"@.len() != "GROK_SEARCH_SOURCE_MAX_COMMENTS"@.len());
    reveal_strlit("GROK_SEARCH_SOURCE_MAX_ANSWERS");
    assert("GROK_SEARCH_CACHE_SIZE"@.len() != "GROK_SEARCH_SOURCE_MAX_ANSWERS"@.len());
    reveal_strlit("GITHUB_TOKEN");
    assert("GROK_SEARCH_CACHE_SIZE"@.len() != "GITHUB_TOKEN"@.len());
    reveal_strlit("OPENAI_COMPATIBLE_MODEL");
    assert("GROK_SEARCH_CACHE_SIZE"@.len() != "OPENAI_COMPATIBLE_MODEL"@.len());
    reveal_strlit("OPENAI_COMPATIBLE_API_KEY");
    assert("GROK_SEARCH_CACHE_SIZE"@.len() != "OPENAI_COMPATIBLE_API_KEY"@.len());
    reveal_strlit("OPENAI_COMPATIBLE_API_URL");
    assert("GROK_SEARCH_CACHE_SIZE"@.len() != "OPENAI_COMPATIBLE_API_URL"@.len());
    reveal_strlit("GROK_SEARCH_TIMEOUT_SECONDS");
    assert("GROK_SEARCH_CACHE_SIZE"@.len() != "GROK_SEARCH_TIMEOUT_SECONDS"@.len());
    reveal_strlit("GROK_SEARCH_FETCH_MAX_CHARS");
    assert("GROK_SEARCH_CACHE_SIZE"@.len() != "GROK_SEARCH_FETCH_MAX_CHARS"@.len());
    reveal_strlit("GROK_SEARCH_FALLBACK_SOURCES");
    assert("GROK_SEARCH_CACHE_SIZE"@.len() != "GROK_SEARCH_FALLBACK_SOURCES"@.len());
    reveal_strlit("GROK_SEARCH_EXTRA_SOURCES");
    assert("GROK_SEARCH_CACHE_SIZE"@.len() != "GROK_SEARCH_EXTRA_SOURCES"@.len());
    reveal_strlit("FIRECRAWL_ENABLED");
    assert("GROK_SEARCH_CACHE_SIZE"@.len() != "FIRECRAWL_ENABLED"@.len());
    reveal_strlit("FIRECRAWL_API_KEY");
    assert("GROK_SEARCH_CACHE_SIZE"@.len() != "FIRECRAWL_API_KEY"@.len());
    reveal_strlit("FIRECRAWL_API_URL");
    assert("GROK_SEARCH_CACHE_SIZE"@.len() != "FIRECRAWL_API_URL"@.len());
    reveal_strlit("TAVILY_ENABLED");
    assert("GROK_SEARCH_CACHE_SIZE"@.len() != "TAVILY_ENABLED"@.len());
    reveal_strlit("TAVILY_API_KEY");
    assert("GROK_SEARCH_CACHE_SIZE"@.len() != "TAVILY_API_KEY"@.len());
    reveal_strlit("TAVILY_API_URL");
    assert("GROK_SEARCH_CACHE_SIZE"@.len() != "TAVILY_API_URL"@.len());
    reveal_strlit("GROK_SEARCH_X_SEARCH");
    assert("GROK_SEARCH_CACHE_SIZE"@.len() != "GROK_SEARCH_X_SEARCH"@.len());
    reveal_strlit("GROK_SEARCH_WEB_SEARCH");
    assert("GROK_SEARCH_CACHE_SIZE"@[12] != "GROK_SEARCH_WEB_SEARCH"@[12]);
    reveal_strlit("GROK_SEARCH_MODEL");
    assert("GROK_SEARCH_CACHE_SIZE"@.len() != "GROK_SEARCH_MODEL"@.len());
    reveal_strlit("GROK_SEARCH_AUTH_FILE");
    assert("GROK_SEARCH_CACHE_SIZE"@.len() != "GROK_SEARCH_AUTH_FILE"@.len());
    reveal_strlit("GROK_SEARCH_AUTH_MODE");
    assert("GROK_SEARCH_CACHE_SIZE"@.len() != "GROK_SEARCH_AUTH_MODE"@.len());
    reveal_strlit("GROK_SEARCH_API_KEY");
    assert("GROK_SEARCH_CACHE_SIZE"@.len() != "GROK_SEARCH_API_KEY"@.len());
    reveal_strlit("GROK_SEARCH_URL");
    assert("GROK_SEARCH_CACHE_SIZE"@.len() != "GROK_SEARCH_URL"@.len());
}

proof fn lemma_file_source_max_answers(f: ConfigFile)
    ensures
        file_value(f, "GROK_SEARCH_SOURCE_MAX_ANSWERS"@) == opt_num_text(f.source_max_answers),
{
    reveal_strlit("GROK_SEARCH_SOURCE_MAX_ANSWERS");
    reveal_strlit("GROK_SEARCH_RESPONSE_MAX_CHARS");
    assert("GROK_SEARCH_SOURCE_MAX_ANSWERS"@[12] != "GROK_SEARCH_RESPONSE_MAX_CHARS"@[12]);
    reveal_strlit("GROK_SEARCH_MAX_INLINE_SOURCES");
    assert("GROK_SEARCH_SOURCE_MAX_ANSWERS"@[12] != "GROK_SEARCH_MAX_INLINE_SOURCES"@[12]);
    reveal_strlit("GROK_SEARCH_ENRICH_MAX_CHARS");
    assert("GROK_SEARCH_SOURCE_MAX_ANSWERS"@.len() != "GROK_SEARCH_ENRICH_MAX_CHARS"@.len());
    reveal_strlit("GROK_SEARCH_ENRICH_CONCURRENCY");
    assert("GROK_SEARCH_SOURCE_MAX_ANSWERS"@[12] != "GROK_SEARCH_ENRICH_CONCURRENCY"@[12]);
    reveal_strlit("GROK_SEARCH_SOURCE_MAX_COMMENTS");
    assert("GROK_SEARCH_SOURCE_MAX_ANSWERS"@.len() != "GROK_SEARCH_SOURCE_MAX_COMMENTS"@.len());
    reveal_strlit("GITHUB_TOKEN");
    assert("GROK_SEARCH_SOURCE_MAX_ANSWERS"@.len() != "GITHUB_TOKEN"@.len());
    reveal_strlit("OPENAI_COMPATIBLE_MODEL");
    assert("GROK_SEARCH_SOURCE_MAX_ANSWERS"@.len() != "OPENAI_COMPATIBLE_MODEL"@.len());
    reveal_strlit("OPENAI_COMPATIBLE_API_KEY");
    assert("GROK_SEARCH_SOURCE_MAX_ANSWERS"@.len() != "OPENAI_COMPATIBLE_API_KEY"@.len());
    reveal_strlit("OPENAI_COMPATIBLE_API_URL");
    assert("GROK_SEARCH_SOURCE_MAX_ANSWERS"@.len() != "OPENAI_COMPATIBLE_API_URL"@.len());
    reveal_strlit("GROK_SEARCH_TIMEOUT_SECONDS");
    assert("GROK_SEARCH_SOURCE_MAX_ANSWERS"@.len() != "GROK_SEARCH_TIMEOUT_SECONDS"@.len());
    reveal_strlit("GROK_SEARCH_CACHE_SIZE");
    assert("GROK_SEARCH_SOURCE_MAX_ANSWERS"@.len() != "GROK_SEARCH_CACHE_SIZE"@.len());
    reveal_strlit("GROK_SEARCH_FETCH_MAX_CHARS");
    assert("GROK_SEARCH_SOURCE_MAX_ANSWERS"@.len() != "GROK_SEARCH_FETCH_MAX_CHARS"@.len());
    reveal_strlit("GROK_SEARCH_FALLBACK_SOURCES");
    assert("GROK_SEARCH_SOURCE_MAX_ANSWERS"@.len() != "GROK_SEARCH_FALLBACK_SOURCES"@.len());
    reveal_strlit("GROK_SEARCH_EXTRA_SOURCES");
    assert("GROK_SEARCH_SOURCE_MAX_ANSWERS"@.len() != "GROK_SEARCH_EXTRA_SOURCES"@.len());
    reveal_strlit("FIRECRAWL_ENABLED");
    assert("GROK_SEARCH_SOURCE_MAX_ANSWERS"@.len() != "FIRECRAWL_ENABLED"@.len());
    reveal_strlit("FIRECRAWL_API_KEY");
    assert("GROK_SEARCH_SOURCE_MAX_ANSWERS"@.len() != "FIRECRAWL_API_KEY"@.len());
    reveal_strlit("FIRECRAWL_API_URL");
    assert("GROK_SEARCH_SOURCE_MAX_ANSWERS"@.len() != "FIRECRAWL_API_URL"@.len());
    reveal_strlit("TAVILY_ENABLED");
    assert("GROK_SEARCH_SOURCE_MAX_ANSWERS"@.len() != "TAVILY_ENABLED"@.len());
    reveal_strlit("TAVILY_API_KEY");
    assert("GROK_SEARCH_SOURCE_MAX_ANSWERS"@.len() != "TAVILY_API_KEY"@.len());
    reveal_strlit("TAVILY_API_URL");
    assert("GROK_SEARCH_SOURCE_MAX_ANSWERS"@.len() != "TAVILY_API_URL"@.len());
    reveal_strlit("GROK_SEARCH_X_SEARCH");
    assert("GROK_SEARCH_SOURCE_MAX_ANSWERS"@.len() != "GROK_SEARCH_X_SEARCH"@.len());
    reveal_strlit("GROK_SEARCH_WEB_SEARCH");
    assert("GROK_SEARCH_SOURCE_MAX_ANSWERS"@.len() != "GROK_SEARCH_WEB_SEARCH"@.len());
    reveal_strlit("GROK_SEARCH_MODEL");
    assert("GROK_SEARCH_SOURCE_MAX_ANSWERS"@.len() != "GROK_SEARCH_MODEL"@.len());
    reveal_strlit("GROK_SEARCH_AUTH_FILE");
    assert("GROK_SEARCH_SOURCE_MAX_ANSWERS"@.len() != "GROK_SEARCH_AUTH_FILE"@.len());
    reveal_strlit("GROK_SEARCH_AUTH_MODE");
    assert("GROK_SEARCH_SOURCE_MAX_ANSWERS"@.len() != "GROK_SEARCH_AUTH_MODE"@.len());
    reveal_strlit("GROK_SEARCH_API_KEY");
    assert("GROK_SEARCH_SOURCE_MAX_ANSWERS"@.len() != "GROK_SEARCH_API_KEY"@.len());
    reveal_strlit("GROK_SEARCH_URL");
    assert("GROK_SEARCH_SOURCE_MAX_ANSWERS"@.len() != "GROK_SEARCH_URL"@.len());
}

proof fn lemma_file_source_max_comments(f: ConfigFile)
    ensures
        file_value(f, "GROK_SEARCH_SOURCE_MAX_COMMENTS"@) == opt_num_text(f.source_max_comments),
{
    reveal_strlit("GROK_SEARCH_SOURCE_MAX_COMMENTS");
    reveal_strlit("GROK_SEARCH_RESPONSE_MAX_CHARS");
    assert("GROK_SEARCH_SOURCE_MAX_COMMENTS"@.len() != "GROK_SEARCH_RESPONSE_MAX_CHARS"@.len());
    reveal_strlit("GROK_SEARCH_MAX_INLINE_SOURCES");
    assert("GROK_SEARCH_SOURCE_MAX_COMMENTS"@.len() != "GROK_SEARCH_MAX_INLINE_SOURCES"@.len());
    reveal_strlit("GROK_SEARCH_ENRICH_MAX_CHARS");
    assert("GROK_SEARCH_SOURCE_MAX_COMMENTS"@.len() != "GROK_SEARCH_ENRICH_MAX_CHARS"@.len());
    reveal_strlit("GROK_SEARCH_ENRICH_CONCURRENCY");
    assert("GROK_SEARCH_SOURCE_MAX_COMMENTS"@.len() != "GROK_SEARCH_ENRICH_CONCURRENCY"@.len());
    reveal_strlit("GROK_SEARCH_SOURCE_MAX_ANSWERS");
    assert("GROK_SEARCH_SOURCE_MAX_COMMENTS"@.len() != "GROK_SEARCH_SOURCE_MAX_ANSWERS"@.len());
    reveal_strlit("GITHUB_TOKEN");
    assert("GROK_SEARCH_SOURCE_MAX_COMMENTS"@.len() != "GITHUB_TOKEN"@.len());
    reveal_strlit("OPENAI_COMPATIBLE_MODEL");
    assert("GROK_SEARCH_SOURCE_MAX_COMMENTS"@.len() != "OPENAI_COMPATIBLE_MODEL"@.len());
    reveal_strlit("OPENAI_COMPATIBLE_API_KEY");
    assert("GROK_SEARCH_SOURCE_MAX_COMMENTS"@.len() != "OPENAI_COMPATIBLE_API_KEY"@.len());
    reveal_strlit("OPENAI_COMPATIBLE_API_URL");
    assert("GROK_SEARCH_SOURCE_MAX_COMMENTS"@.len() != "OPENAI_COMPATIBLE_API_URL"@.len());
    reveal_strlit("GROK_SEARCH_TIMEOUT_SECONDS");
    assert("GROK_SEARCH_SOURCE_MAX_COMMENTS"@.len() != "GROK_SEARCH_TIMEOUT_SECONDS"@.len());
    reveal_strlit("GROK_SEARCH_CACHE_SIZE");
    assert("GROK_SEARCH_SOURCE_MAX_COMMENTS"@.len() != "GROK_SEARCH_CACHE_SIZE"@.len());
    reveal_strlit("GROK_SEARCH_FETCH_MAX_CHARS");
    assert("GROK_SEARCH_SOURCE_MAX_COMMENTS"@.len() != "GROK_SEARCH_FETCH_MAX_CHARS"@.len());
    reveal_strlit("GROK_SEARCH_FALLBACK_SOURCES");
    assert("GROK_SEARCH_SOURCE_MAX_COMMENTS"@.len() != "GROK_SEARCH_FALLBACK_SOURCES"@.len());
    reveal_strlit("GROK_SEARCH_EXTRA_SOURCES");
    assert("GROK_SEARCH_SOURCE_MAX_COMMENTS"@.len() != "GROK_SEARCH_EXTRA_SOURCES"@.len());
    reveal_strlit("FIRECRAWL_ENABLED");
    assert("GROK_SEARCH_SOURCE_MAX_COMMENTS"@.len() != "FIRECRAWL_ENABLED"@.len());
    reveal_strlit("FIRECRAWL_API_KEY");
    assert("GROK_SEARCH_SOURCE_MAX_COMMENTS"@.len() != "FIRECRAWL_API_KEY"@.len());
    reveal_strlit("FIRECRAWL_API_URL");
    assert("GROK_SEARCH_SOURCE_MAX_COMMENTS"@.len() != "FIRECRAWL_API_URL"@.len());
    reveal_strlit("TAVILY_ENABLED");
    assert("GROK_SEARCH_SOURCE_MAX_COMMENTS"@.len() != "TAVILY_ENABLED"@.len());
    reveal_strlit("TAVILY_API_KEY");
    assert("GROK_SEARCH_SOURCE_MAX_COMMENTS"@.len() != "TAVILY_API_KEY"@.len());
    reveal_strlit("TAVILY_API_URL");
    assert("GROK_SEARCH_SOURCE_MAX_COMMENTS"@.len() != "TAVILY_API_URL"@.len());
    reveal_strlit("GROK_SEARCH_X_SEARCH");
    assert("GROK_SEARCH_SOURCE_MAX_COMMENTS"@.len() != "GROK_SEARCH_X_SEARCH"@.len());
    reveal_strlit("GROK_SEARCH_WEB_SEARCH");
    assert("GROK_SEARCH_SOURCE_MAX_COMMENTS"@.len() != "GROK_SEARCH_WEB_SEARCH"@.len());
    reveal_strlit("GROK_SEARCH_MODEL");
    assert("GROK_SEARCH_SOURCE_MAX_COMMENTS"@.len() != "GROK_SEARCH_MODEL"@.len());
    reveal_strlit("GROK_SEARCH_AUTH_FILE");
    assert("GROK_SEARCH_SOURCE_MAX_COMMENTS"@.len() != "GROK_SEARCH_AUTH_FILE"@.len());
    reveal_strlit("GROK_SEARCH_AUTH_MODE");
    assert("GROK_SEARCH_SOURCE_MAX_COMMENTS"@.len() != "GROK_SEARCH_AUTH_MODE"@.len());
    reveal_strlit("GROK_SEARCH_API_KEY");
    assert("GROK_SEARCH_SOURCE_MAX_COMMENTS"@.len() != "GROK_SEARCH_API_KEY"@.len());
    reveal_strlit("GROK_SEARCH_URL");
    assert("GROK_SEARCH_SOURCE_MAX_COMMENTS"@.len() != "GROK_SEARCH_URL"@.len());
}

proof fn lemma_file_enrich_max_chars(f: ConfigFile)
    ensures
        file_value(f, "GROK_SEARCH_ENRICH_MAX_CHARS"@) == opt_num_text(f.enrich_max_chars),
{
    reveal_strlit("GROK_SEARCH_ENRICH_MAX_CHARS");
    reveal_strlit("GROK_SEARCH_RESPONSE_MAX_CHARS");
    assert("GROK_SEARCH_ENRICH_MAX_CHARS"@.len() != "GROK_SEARCH_RESPONSE_MAX_CHARS"@.len());
    reveal_strlit("GROK_SEARCH_MAX_INLINE_SOURCES");
    assert("GROK_SEARCH_ENRICH_MAX_CHARS"@.len() != "GROK_SEARCH_MAX_INLINE_SOURCES"@.len());
    reveal_strlit("GROK_SEARCH_ENRICH_CONCURRENCY");
    assert("GROK_SEARCH_ENRICH_MAX_CHARS"@.len() != "GROK_SEARCH_ENRICH_CONCURRENCY"@.len());
    reveal_strlit("GROK_SEARCH_SOURCE_MAX_COMMENTS");
    assert("GROK_SEARCH_ENRICH_MAX_CHARS"@.len() != "GROK_SEARCH_SOURCE_MAX_COMMENTS"@.len());
    reveal_strlit("GROK_SEARCH_SOURCE_MAX_ANSWERS");
    assert("GROK_SEARCH_ENRICH_MAX_CHARS"@.len() != "GROK_SEARCH_SOURCE_MAX_ANSWERS"@.len());
    reveal_strlit("GITHUB_TOKEN");
    assert("GROK_SEARCH_ENRICH_MAX_CHARS"@.len() != "GITHUB_TOKEN"@.len());
    reveal_strlit("OPENAI_COMPATIBLE_MODEL");
    assert("GROK_SEARCH_ENRICH_MAX_CHARS"@.len() != "OPENAI_COMPATIBLE_MODEL"@.len());
    reveal_strlit("OPENAI_COMPATIBLE_API_KEY");
    assert("GROK_SEARCH_ENRICH_MAX_CHARS"@.len() != "OPENAI_COMPATIBLE_API_KEY"@.len());
    reveal_strlit("OPENAI_COMPATIBLE_API_URL");
    assert("GROK_SEARCH_ENRICH_MAX_CHARS"@.len() != "OPENAI_COMPATIBLE_API_URL"@.len());
    reveal_strlit("GROK_SEARCH_TIMEOUT_SECONDS");
    assert("GROK_SEARCH_ENRICH_MAX_CHARS"@.len() != "GROK_SEARCH_TIMEOUT_SECONDS"@.len());
    reveal_strlit("GROK_SEARCH_CACHE_SIZE");
    assert("GROK_SEARCH_ENRICH_MAX_CHARS"@.len() != "GROK_SEARCH_CACHE_SIZE"@.len());
    reveal_strlit("GROK_SEARCH_FETCH_MAX_CHARS");
    assert("GROK_SEARCH_ENRICH_MAX_CHARS"@.len() != "GROK_SEARCH_FETCH_MAX_CHARS"@.len());
    reveal_strlit("GROK_SEARCH_FALLBACK_SOURCES");
    assert("GROK_SEARCH_ENRICH_MAX_CHARS"@[12] != "GROK_SEARCH_FALLBACK_SOURCES"@[12]);
    reveal_strlit("GROK_SEARCH_EXTRA_SOURCES");
    assert("GROK_SEARCH_ENRICH_MAX_CHARS"@.len() != "GROK_SEARCH_EXTRA_SOURCES"@.len());
    reveal_strlit("FIRECRAWL_ENABLED");
    assert("GROK_SEARCH_ENRICH_MAX_CHARS"@.len() != "FIRECRAWL_ENABLED"@.len());
    reveal_strlit("FIRECRAWL_API_KEY");
    assert("GROK_SEARCH_ENRICH_MAX_CHARS"@.len() != "FIRECRAWL_API_KEY"@.len());
    reveal_strlit("FIRECRAWL_API_URL");
    assert("GROK_SEARCH_ENRICH_MAX_CHARS"@.len() != "FIRECRAWL_API_URL"@.len());
    reveal_strlit("TAVILY_ENABLED");
    assert("GROK_SEARCH_ENRICH_MAX_CHARS"@.len() != "TAVILY_ENABLED"@.len());
    reveal_strlit("TAVILY_API_KEY");
    assert("GROK_SEARCH_ENRICH_MAX_CHARS"@.len() != "TAVILY_API_KEY"@.len());
    reveal_strlit("TAVILY_API_URL");
    assert("GROK_SEARCH_ENRICH_MAX_CHARS"@.len() != "TAVILY_API_URL"@.len());
    reveal_strlit("GROK_SEARCH_X_SEARCH");
    assert("GROK_SEARCH_ENRICH_MAX_CHARS"@.len() != "GROK_SEARCH_X_SEARCH"@.len());
    reveal_strlit("GROK_SEARCH_WEB_SEARCH");
    assert("GROK_SEARCH_ENRICH_MAX_CHARS"@.len() != "GROK_SEARCH_WEB_SEARCH"@.len());
    reveal_strlit("GROK_SEARCH_MODEL");
    assert("GROK_SEARCH_ENRICH_MAX_CHARS"@.len() != "GROK_SEARCH_MODEL"@.len());
    reveal_strlit("GROK_SEARCH_AUTH_FILE");
    assert("GROK_SEARCH_ENRICH_MAX_CHARS"@.len() != "GROK_SEARCH_AUTH_FILE"@.len());
    reveal_strlit("GROK_SEARCH_AUTH_MODE");
    assert("GROK_SEARCH_ENRICH_MAX_CHARS"@.len() != "GROK_SEARCH_AUTH_MODE"@.len());
    reveal_strlit("GROK_SEARCH_API_KEY");
    assert("GROK_SEARCH_ENRICH_MAX_CHARS"@.len() != "GROK_SEARCH_API_KEY"@.len());
    reveal_strlit("GROK_SEARCH_URL");
    assert("GROK_SEARCH_ENRICH_MAX_CHARS"@.len() != "GROK_SEARCH_URL"@.len());
}

/// A config file read back through its environment bindings gives the
/// values it sets: the model, the four switches and the counts.
pub proof fn law_file_round_trip(f: ConfigFile, l: spec_fn(Seq<char>) -> Option<Seq<char>>)
    requires
        forall|k: Seq<char>| #[trigger] l(k) == file_value(f, k),
    ensures
        f.grok_model matches Some(m) ==> spec_config(l).grok_model == m@,
        f.web_search_enabled matches Some(b) ==> spec_config(l).web_search_enabled == b,
        f.x_search_enabled matches Some(b) ==> spec_config(l).x_search_enabled == b,
        f.tavily_enabled matches Some(b) ==> spec_config(l).tavily_enabled == b,
        f.firecrawl_enabled matches Some(b) ==> spec_config(l).firecrawl_enabled == b,
        f.default_extra_sources matches Some(n) ==> spec_config(l).default_extra_sources == n,
        f.fallback_sources matches Some(n) ==> spec_config(l).fallback_sources == n,
        f.cache_size matches Some(n) ==> spec_config(l).cache_size == n,
        f.source_max_answers matches Some(n) ==> spec_config(l).source_max_answers == n,
        f.source_max_comments matches Some(n) ==> spec_config(l).source_max_comments == n,
        f.enrich_max_chars matches Some(n) ==> spec_config(l).enrich_max_chars == n,
{
    lemma_file_grok_model(f);
    lemma_file_web_search_enabled(f);
    lemma_file_x_search_enabled(f);
    lemma_file_tavily_enabled(f);
    lemma_file_firecrawl_enabled(f);
    lemma_file_default_extra_sources(f);
    lemma_file_fallback_sources(f);
    lemma_file_cache_size(f);
    lemma_file_source_max_answers(f);
    lemma_file_source_max_comments(f);
    lemma_file_enrich_max_chars(f);
    assert(l("GROK_SEARCH_MODEL"@) == file_value(f, "GROK_SEARCH_MODEL"@));
    assert(l("GROK_SEARCH_WEB_SEARCH"@) == file_value(f, "GROK_SEARCH_WEB_SEARCH"@));
    assert(l("GROK_SEARCH_X_SEARCH"@) == file_value(f, "GROK_SEARCH_X_SEARCH"@));
    assert(l("TAVILY_ENABLED"@) == file_value(f, "TAVILY_ENABLED"@));
    assert(l("FIRECRAWL_ENABLED"@) == file_value(f, "FIRECRAWL_ENABLED"@));
    assert(l("GROK_SEARCH_EXTRA_SOURCES"@) == file_value(f, "GROK_SEARCH_EXTRA_SOURCES"@));
    assert(l("GROK_SEARCH_FALLBACK_SOURCES"@) == file_value(f, "GROK_SEARCH_FALLBACK_SOURCES"@));
    assert(l("GROK_SEARCH_CACHE_SIZE"@) == file_value(f, "GROK_SEARCH_CACHE_SIZE"@));
    assert(l("GROK_SEARCH_SOURCE_MAX_ANSWERS"@) == file_value(f, "GROK_SEARCH_SOURCE_MAX_ANSWERS"@));
    assert(l("GROK_SEARCH_SOURCE_MAX_COMMENTS"@) == file_value(f, "GROK_SEARCH_SOURCE_MAX_COMMENTS"@));
    assert(l("GROK_SEARCH_ENRICH_MAX_CHARS"@) == file_value(f, "GROK_SEARCH_ENRICH_MAX_CHARS"@));
    if let Some(b) = f.web_search_enabled {
        lemma_bool_text_reads_back(b);
    }
    if let Some(b) = f.x_search_enabled {
        lemma_bool_text_reads_back(b);
    }
    if let Some(b) = f.tavily_enabled {
        lemma_bool_text_reads_back(b);
    }
    if let Some(b) = f.firecrawl_enabled {
        lemma_bool_text_reads_back(b);
    }
    lemma_count_reads_back(f.default_extra_sources);
    lemma_count_reads_back(f.fallback_sources);
    lemma_count_reads_back(f.cache_size);
    lemma_count_reads_back(f.source_max_answers);
    lemma_count_reads_back(f.source_max_comments);
    lemma_count_reads_back(f.enrich_max_chars);
}

/// Looking a key up after appending a pair.
pub proof fn lemma_lookup_push(e: Seq<(String, String)>, p: (String, String), k: Seq<char>)
    ensures
        env_lookup(e.push(p), k) == (if p.0@ == k {
            Some(p.1@)
        } else {
            env_lookup(e, k)
        }),
{
    assert(e.push(p).drop_last() =~= e);
}

/// Appends `key = value` when a value is given (the file loader's `insert`).
fn insert(out: &mut Vec<(String, String)>, key: &str, value: Option<String>)
    ensures
        final(out)@.len() == old(out)@.len() + present(value),
        forall|k: Seq<char>| #[trigger]
            env_lookup(final(out)@, k) == overlay(k, key@, opt_str(value), env_lookup(old(out)@, k)),
{
    let ghost before = out@;
    match value {
        Some(v) => {
            out.push((owned(key), v));
            proof {
                assert forall|k: Seq<char>| #[trigger]
                    env_lookup(out@, k) == overlay(k, key@, opt_str(value), env_lookup(before, k))
                by {
                    lemma_lookup_push(before, out@.last(), k);
                    assert(before.push(out@.last()) =~= out@);
                }
            }
        },
        None => {},
    }
}

fn bool_text(b: Option<bool>) -> (r: Option<String>)
    ensures
        opt_str(r) == opt_bool_text(b),
{
    match b {
        Some(v) => Some(bool_to_string(v)),
        None => None,
    }
}

fn num_text(n: Option<usize>) -> (r: Option<String>)
    ensures
        opt_str(r) == opt_num_text(n),
{
    match n {
        Some(v) => Some(usize_to_string(v)),
        None => None,
    }
}

fn u64_text(n: Option<u64>) -> (r: Option<String>)
    ensures
        opt_str(r) == opt_u64_text(n),
{
    match n {
        Some(v) => Some(u64_to_string(v)),
        None => None,
    }
}

impl ConfigFile {
    /// The file's keys as environment variable bindings, so that file and
    /// environment go through one precedence pipeline.
    pub fn into_env_map(self) -> (r: Vec<(String, String)>)
        ensures
            forall|k: Seq<char>| #[trigger] env_lookup(r@, k) == file_value(self, k),
            r@.len() == file_entries(self),
    {
        let ghost f = self;
        let mut out: Vec<(String, String)> = Vec::new();
        insert(&mut out, "GROK_SEARCH_URL", self.grok_api_url);
        insert(&mut out, "GROK_SEARCH_API_KEY", self.grok_api_key);
        insert(&mut out, "GROK_SEARCH_AUTH_MODE", self.grok_auth_mode);
        insert(&mut out, "GROK_SEARCH_AUTH_FILE", self.grok_auth_file);
        insert(&mut out, "GROK_SEARCH_MODEL", self.grok_model);
        insert(&mut out, "GROK_SEARCH_WEB_SEARCH", bool_text(self.web_search_enabled));
        insert(&mut out, "GROK_SEARCH_X_SEARCH", bool_text(self.x_search_enabled));
        insert(&mut out, "TAVILY_API_URL", self.tavily_api_url);
        insert(&mut out, "TAVILY_API_KEY", self.tavily_api_key);
        insert(&mut out, "TAVILY_ENABLED", bool_text(self.tavily_enabled));
        insert(&mut out, "FIRECRAWL_API_URL", self.firecrawl_api_url);
        insert(&mut out, "FIRECRAWL_API_KEY", self.firecrawl_api_key);
        insert(&mut out, "FIRECRAWL_ENABLED", bool_text(self.firecrawl_enabled));
        insert(&mut out, "GROK_SEARCH_EXTRA_SOURCES", num_text(self.default_extra_sources));
        insert(&mut out, "GROK_SEARCH_FALLBACK_SOURCES", num_text(self.fallback_sources));
        insert(&mut out, "GROK_SEARCH_FETCH_MAX_CHARS", num_text(self.fetch_max_chars));
        insert(&mut out, "GROK_SEARCH_CACHE_SIZE", num_text(self.cache_size));
        insert(&mut out, "GROK_SEARCH_TIMEOUT_SECONDS", u64_text(self.timeout_seconds));
        insert(&mut out, "OPENAI_COMPATIBLE_API_URL", self.openai_compatible_api_url);
        insert(&mut out, "OPENAI_COMPATIBLE_API_KEY", self.openai_compatible_api_key);
        insert(&mut out, "OPENAI_COMPATIBLE_MODEL", self.openai_compatible_model);
        insert(&mut out, "GITHUB_TOKEN", self.github_token);
        insert(&mut out, "GROK_SEARCH_SOURCE_MAX_ANSWERS", num_text(self.source_max_answers));
        insert(&mut out, "GROK_SEARCH_SOURCE_MAX_COMMENTS", num_text(self.source_max_comments));
        insert(&mut out, "GROK_SEARCH_ENRICH_CONCURRENCY", num_text(self.enrich_concurrency));
        insert(&mut out, "GROK_SEARCH_ENRICH_MAX_CHARS", num_text(self.enrich_max_chars));
        insert(&mut out, "GROK_SEARCH_MAX_INLINE_SOURCES", num_text(self.max_inline_sources));
        insert(&mut out, "GROK_SEARCH_RESPONSE_MAX_CHARS", num_text(self.response_max_chars));
        out
    }
}

/// Looking a key up in `base` followed by `top`: `top` wins where it binds
/// the key.
pub proof fn lemma_lookup_concat(base: Seq<(String, String)>, top: Seq<(String, String)>, k: Seq<char>)
    ensures
        env_lookup(base + top, k) == (match env_lookup(top, k) {
            Some(v) => Some(v),
            None => env_lookup(base, k),
        }),
    decreases top.len(),
{
    if top.len() > 0 {
        assert((base + top).drop_last() =~= base + top.drop_last());
        lemma_lookup_concat(base, top.drop_last(), k);
    } else {
        assert(base + top =~= base);
    }
}

/// The bindings of `overlay` laid over those of `base`.
pub fn merge_env_over_file(base: Vec<(String, String)>, overlay: Vec<(String, String)>) -> (r: Vec<
    (String, String),
>)
    ensures
        r@ == base@ + overlay@,
{
    let mut base = base;
    let mut overlay = overlay;
    base.append(&mut overlay);
    base
}

/// Precedence law: for every key, a binding in the environment wins over the
/// config file, and the file wins over the built-in default.
pub proof fn law_env_over_file(file: Seq<(String, String)>, env: Seq<(String, String)>, k: Seq<char>)
    ensures
        env_lookup(env, k) is Some ==> env_lookup(file + env, k) == env_lookup(env, k),
        env_lookup(env, k) is None ==> env_lookup(file + env, k) == env_lookup(file, k),
{
    lemma_lookup_concat(file, env, k);
}

/// Environment bindings laid over the config file's.
pub open spec fn layered(env: Seq<(String, String)>, f: ConfigFile) -> spec_fn(Seq<char>) -> Option<Seq<char>> {
    |k: Seq<char>| match env_lookup(env, k) {
        Some(v) => Some(v),
        None => file_value(f, k),
    }
}

impl Config {
    /// The configuration from environment pairs and the config file's
    /// contents, if a file was read: environment over file over defaults.
    pub fn load_from(env_vars: Vec<(String, String)>, file: Option<ConfigFile>) -> (c: Config)
        ensures
            file is None ==> c@ == spec_config(lookup_fn(env_vars@)),
            file matches Some(f) ==> c@ == spec_config(layered(env_vars@, f)),
    {
        let ghost fopt = file;
        let file_map = match file {
            Some(f) => f.into_env_map(),
            None => Vec::new(),
        };
        let ghost fm = file_map@;
        let merged = merge_env_over_file(file_map, env_vars);
        proof {
            if fopt is None {
                assert(fm + env_vars@ =~= env_vars@);
            } else {
                let f = fopt->0;
                assert forall|k: Seq<char>| #[trigger] lookup_fn(fm + env_vars@)(k) == layered(env_vars@, f)(k) by {
                    lemma_lookup_concat(fm, env_vars@, k);
                }
                assert(lookup_fn(fm + env_vars@) =~= layered(env_vars@, f));
            }
        }
        Config::from_env_map(merged)
    }
}


// ---------------------------------------------------------------------------
// File locations
// ---------------------------------------------------------------------------

/// The path `base` extended by the relative component `part`, by the
/// platform's path rules.
pub uninterp spec fn path_joined(base: Seq<char>, part: Seq<char>) -> Seq<char>;

/// The path `p` with its final component replaced by `name`, by the
/// platform's path rules.
pub uninterp spec fn path_renamed(p: Seq<char>, name: Seq<char>) -> Seq<char>;

/// `Path::join`: the result is named by [`path_joined`] of the two texts;
/// nothing more of the platform's path rules is stated.
#[verifier::external_body]
fn join_path(base: &str, part: &str) -> (r: String)
    ensures
        r@ == path_joined(base@, part@),
{
    std::path::Path::new(base).join(part).to_string_lossy().into_owned()
}

/// `Path::with_file_name`: the result is named by [`path_renamed`] of the
/// two texts; nothing more of the platform's path rules is stated.
#[verifier::external_body]
fn with_file_name(p: &str, name: &str) -> (r: String)
    ensures
        r@ == path_renamed(p@, name@),
{
    std::path::Path::new(p).with_file_name(name).to_string_lossy().into_owned()
}

/// The home directory: `HOME`, else `USERPROFILE`, ignoring empty values.
pub open spec fn spec_home(l: spec_fn(Seq<char>) -> Option<Seq<char>>) -> Option<Seq<char>> {
    match env_nonempty(l, "HOME"@) {
        Some(h) => Some(h),
        None => env_nonempty(l, "USERPROFILE"@),
    }
}

/// The config file location: `GROK_SEARCH_CONFIG` when set, else
/// `<home>/.config/grok-search-rs/config.toml`, else none.
pub open spec fn spec_config_path(l: spec_fn(Seq<char>) -> Option<Seq<char>>) -> Option<Seq<char>> {
    match env_nonempty(l, "GROK_SEARCH_CONFIG"@) {
        Some(p) => Some(p),
        None => match spec_home(l) {
            Some(h) => Some(
                path_joined(path_joined(path_joined(h, ".config"@), "grok-search-rs"@), "config.toml"@),
            ),
            None => None,
        },
    }
}

/// The OAuth token file: `GROK_SEARCH_AUTH_FILE` when set, else `auth.json`
/// beside the config file.
pub open spec fn spec_auth_path(l: spec_fn(Seq<char>) -> Option<Seq<char>>) -> Option<Seq<char>> {
    match env_nonempty(l, "GROK_SEARCH_AUTH_FILE"@) {
        Some(p) => Some(p),
        None => match spec_config_path(l) {
            Some(c) => Some(path_renamed(c, "auth.json"@)),
            None => None,
        },
    }
}

fn resolve_home_dir(env: &Vec<(String, String)>) -> (r: Option<String>)
    ensures
        opt_str(r) == spec_home(lookup_fn(env@)),
{
    if let Some(home) = nonempty(env, "HOME") {
        return Some(home);
    }
    if let Some(profile) = nonempty(env, "USERPROFILE") {
        return Some(profile);
    }
    None
}

fn resolve_config_path(env: &Vec<(String, String)>) -> (r: Option<String>)
    ensures
        opt_str(r) == spec_config_path(lookup_fn(env@)),
{
    if let Some(explicit) = nonempty(env, "GROK_SEARCH_CONFIG") {
        return Some(explicit);
    }
    match resolve_home_dir(env) {
        Some(home) => {
            let a = join_path(home.as_str(), ".config");
            let b = join_path(a.as_str(), "grok-search-rs");
            Some(join_path(b.as_str(), "config.toml"))
        },
        None => None,
    }
}

/// The config file location for an explicit environment. Precedence:
/// `GROK_SEARCH_CONFIG`, then `HOME`, then `USERPROFILE`; `None` only when
/// none is set.
pub fn config_path_for(env_vars: Vec<(String, String)>) -> (r: Option<String>)
    ensures
        opt_str(r) == spec_config_path(lookup_fn(env_vars@)),
{
    resolve_config_path(&env_vars)
}

/// The OAuth token file location for an explicit environment.
pub fn auth_path_for(env_vars: Vec<(String, String)>) -> (r: Option<String>)
    ensures
        opt_str(r) == spec_auth_path(lookup_fn(env_vars@)),
{
    if let Some(explicit) = nonempty(&env_vars, "GROK_SEARCH_AUTH_FILE") {
        return Some(explicit);
    }
    match resolve_config_path(&env_vars) {
        Some(path) => Some(with_file_name(path.as_str(), "auth.json")),
        None => None,
    }
}

/// The annotated configuration file written by `--init`. Every key is
/// commented out, so an untouched file cannot override a built-in default.
pub const CONFIG_TEMPLATE: &'static str = r#"# grok-search-rs global configuration
# Default path:
#   Unix / macOS / Git Bash:   $HOME/.config/grok-search-rs/config.toml
#   Windows (PowerShell/cmd):  %USERPROFILE%\.config\grok-search-rs\config.toml
# Override anywhere with $GROK_SEARCH_CONFIG=/abs/path/to/config.toml
#
# Precedence: process env > this file > built-in defaults.
# All keys below are commented out; uncomment and fill what you need.
# Unknown keys are rejected — typos surface as errors, not silent drops.

# ── Required ──────────────────────────────────────────────────
# grok_api_key   = "xai-..."          # xAI / Grok key   https://x.ai/api
# grok_auth_mode = "api_key"          # api_key | oauth
# grok_auth_file = "C:\\Users\\you\\.config\\grok-search-rs\\auth.json"
# tavily_api_key = "tvly-..."         # Tavily key       https://tavily.com

# ── Common knobs ──────────────────────────────────────────────
# grok_model         = "grok-4-1-fast-reasoning"
# x_search_enabled   = false          # Grok X/Twitter search tool
# firecrawl_api_key  = "fc-..."       # Optional fetch fallback   https://firecrawl.dev

# ── Endpoints (only set when using a self-hosted gateway) ─────
# grok_api_url      = "https://api.x.ai"
# tavily_api_url    = "https://api.tavily.com"
# firecrawl_api_url = "https://api.firecrawl.dev"

# ── OpenAI-compatible transport (alternative to grok_*) ───────
# Set these three to use a /v1/chat/completions gateway. When grok_api_key
# above is also set, it wins; otherwise these three pick the chat-completions
# transport. Source extraction supports OpenAI annotations, Perplexity-style
# citations, marybrown's top-level search_sources, and inline [[n]](url).
# openai_compatible_api_url = "https://your-gateway/v1"
# openai_compatible_api_key = "sk-..."
# openai_compatible_model   = "grok-4.3-fast"

# ── Feature toggles ───────────────────────────────────────────
# web_search_enabled = true
# tavily_enabled     = true
# firecrawl_enabled  = true

# ── Behavior tuning ───────────────────────────────────────────
# default_extra_sources = 3
# fallback_sources      = 5
# fetch_max_chars       = 200000      # per-request char cap on web_fetch
# cache_size            = 256
# timeout_seconds       = 60
# source_max_answers    = 5          # max answers rendered per StackExchange question
# source_max_comments   = 30         # max comments per accepted answer
# github_token          = "ghp_..."  # GitHub token (optional; anon = 60 req/hr)
# enrich_concurrency    = 3          # concurrent resolve_content calls per web_search (1..5)
# enrich_max_chars      = 15000      # per-source inline content char cap
"#;

/// Outcome of writing the config template.
#[derive(Debug, Clone, Copy, PartialEq, Eq, Structural)]
pub enum InitOutcome {
    Created,
    AlreadyExists,
}

// ---------------------------------------------------------------------------
// Diagnostics
// ---------------------------------------------------------------------------

/// A secret can be shortened to its first and last four bytes only where
/// those cuts fall on character boundaries.
pub open spec fn redactable(v: Option<Seq<char>>) -> bool {
    match v {
        Some(s) => {
            let b = vstd::utf8::encode_utf8(s);
            b.len() > 8 ==> vstd::utf8::is_char_boundary(b, 4) && vstd::utf8::is_char_boundary(
                b,
                b.len() - 4,
            )
        },
        None => true,
    }
}

/// A secret for display: `unset`, `***` for eight bytes or fewer, else the
/// first and last four bytes around `***`.
pub open spec fn spec_redact(v: Option<Seq<char>>) -> Seq<char> {
    match v {
        None => "unset"@,
        Some(s) => {
            let b = vstd::utf8::encode_utf8(s);
            if b.len() <= 8 {
                "***"@
            } else {
                vstd::utf8::decode_utf8(b.subrange(0, 4)) + "***"@ + vstd::utf8::decode_utf8(
                    b.subrange(b.len() - 4, b.len() as int),
                )
            }
        },
    }
}

fn redact(value: &Option<String>) -> (r: String)
    requires
        redactable(opt_str(*value)),
    ensures
        r@ == spec_redact(opt_str(*value)),
{
    match value {
        None => {
            let r = owned("unset");
            assert(r@ == "unset"@);
            assert(opt_str(*value) is None);
            r
        },
        Some(v) => {
            let v = v.as_str();
            let n = v.as_bytes().len();
            assert(n as int == v.spec_bytes().len());
            assert(v.spec_bytes() == vstd::utf8::encode_utf8(v@));
            if n <= 8 {
                owned("***")
            } else {
                assert(vstd::utf8::is_char_boundary(v.spec_bytes(), n - 4));
                let (head, _) = v.split_at(4);
                let (_, tail) = v.split_at(n - 4);
                proof {
                    vstd::utf8::encode_utf8_decode_utf8(head@);
                    vstd::utf8::encode_utf8_decode_utf8(tail@);
                }
                let mut r = owned(head);
                append(&mut r, "***");
                append(&mut r, tail);
                r
            }
        },
    }
}

pub open spec fn auth_mode_text(m: AuthMode) -> Seq<char> {
    match m {
        AuthMode::ApiKey => "ApiKey"@,
        AuthMode::OAuth => "OAuth"@,
    }
}

pub open spec fn bool_text_of(b: bool) -> Seq<char> {
    if b {
        "true"@
    } else {
        "false"@
    }
}

/// Two-state presence of the GitHub token.
pub open spec fn token_status(c: ConfigV) -> Seq<char> {
    if c.github_token is Some {
        "set"@
    } else {
        "unset"@
    }
}

/// The diagnostics line: secrets redacted, the GitHub token reported only as
/// set or unset.
pub open spec fn spec_diagnostics(c: ConfigV) -> Seq<char> {
    "grok_api_url="@ + c.grok_api_url + " grok_api_key="@ + spec_redact(c.grok_api_key)
        + " grok_auth_mode="@ + auth_mode_text(c.grok_auth_mode) + " grok_auth_file="@ + (
    match c.grok_auth_file {
        Some(p) => p,
        None => "default"@,
    }) + " grok_model="@ + c.grok_model + " web_search_enabled="@ + bool_text_of(
        c.web_search_enabled,
    ) + " x_search_enabled="@ + bool_text_of(c.x_search_enabled) + " tavily_api_key="@
        + spec_redact(c.tavily_api_key) + " firecrawl_api_key="@ + spec_redact(c.firecrawl_api_key)
        + " default_extra_sources="@ + decimal(c.default_extra_sources as nat)
        + " fallback_sources="@ + decimal(c.fallback_sources as nat) + " timeout_seconds="@
        + decimal(c.timeout_secs as nat) + " github_token="@ + token_status(c)
}

impl Config {
    /// Two-state presence signal for the GitHub token: never the value or
    /// any fragment of it.
    pub fn github_token_status(&self) -> (r: &'static str)
        ensures
            r@ == token_status(self@),
    {
        if self.github_token.is_some() {
            "set"
        } else {
            "unset"
        }
    }

    /// A one-line summary of the configuration with secrets redacted.
    pub fn redacted_diagnostics(&self) -> (r: String)
        requires
            redactable(self@.grok_api_key),
            redactable(self@.tavily_api_key),
            redactable(self@.firecrawl_api_key),
        ensures
            r@ == spec_diagnostics(self@),
    {
        let mut out = owned("grok_api_url=");
        append(&mut out, self.grok_api_url.as_str());
        append(&mut out, " grok_api_key=");
        let k = redact(&self.grok_api_key);
        append(&mut out, k.as_str());
        append(&mut out, " grok_auth_mode=");
        match self.grok_auth_mode {
            AuthMode::ApiKey => append(&mut out, "ApiKey"),
            AuthMode::OAuth => append(&mut out, "OAuth"),
        }
        append(&mut out, " grok_auth_file=");
        match &self.grok_auth_file {
            Some(p) => append(&mut out, p.as_str()),
            None => append(&mut out, "default"),
        }
        append(&mut out, " grok_model=");
        append(&mut out, self.grok_model.as_str());
        append(&mut out, " web_search_enabled=");
        let b = bool_to_string(self.web_search_enabled);
        append(&mut out, b.as_str());
        append(&mut out, " x_search_enabled=");
        let b = bool_to_string(self.x_search_enabled);
        append(&mut out, b.as_str());
        append(&mut out, " tavily_api_key=");
        let k = redact(&self.tavily_api_key);
        append(&mut out, k.as_str());
        append(&mut out, " firecrawl_api_key=");
        let k = redact(&self.firecrawl_api_key);
        append(&mut out, k.as_str());
        append(&mut out, " default_extra_sources=");
        let n = usize_to_string(self.default_extra_sources);
        append(&mut out, n.as_str());
        append(&mut out, " fallback_sources=");
        let n = usize_to_string(self.fallback_sources);
        append(&mut out, n.as_str());
        append(&mut out, " timeout_seconds=");
        let n = u64_to_string(self.timeout_secs);
        append(&mut out, n.as_str());
        append(&mut out, " github_token=");
        append(&mut out, self.github_token_status());
        out
    }
}

/// The diagnostics never depend on the GitHub token's value: two
/// configurations that differ only in which token is set report the same.
pub proof fn law_diagnostics_hide_github_token(a: ConfigV, b: ConfigV)
    requires
        a.github_token is Some,
        b.github_token is Some,
        a == (ConfigV { github_token: a.github_token, ..b }),
    ensures
        spec_diagnostics(a) == spec_diagnostics(b),
{
}

} // verus!
