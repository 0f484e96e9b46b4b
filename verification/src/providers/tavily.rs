//! Tavily: key rotation, request bodies and result normalization.
use vstd::prelude::*;

use crate::error::GrokSearchError;
use crate::json::{items_view, lemma_items_view, lemma_object_get_absent, lemma_object_get_at, members_view, object, Json, JsonV};
use crate::model::{source_view, sources_view, SearchFilters, Source, SourceV};
use crate::text::{append, owned, split_char, split_on, trim, trim_end_char, trim_end_matches, trim_start_char, trim_start_matches, trim_ws};

verus! {

// ---------------------------------------------------------------------------
// Key rotation
// ---------------------------------------------------------------------------

/// The keys that remain of the segments after trimming, empty ones dropped.
pub open spec fn trimmed_keys(s: Seq<Seq<char>>) -> Seq<Seq<char>>
    decreases s.len(),
{
    if s.len() == 0 {
        Seq::empty()
    } else if trim_ws(s.last()).len() == 0 {
        trimmed_keys(s.drop_last())
    } else {
        trimmed_keys(s.drop_last()).push(trim_ws(s.last()))
    }
}

/// The keys of a comma-separated list; when none remains, the raw value is
/// the single key.
pub open spec fn spec_ring_keys(raw: Seq<char>) -> Seq<Seq<char>> {
    let keys = trimmed_keys(split_on(raw, ','));
    if keys.len() == 0 {
        seq![raw]
    } else {
        keys
    }
}

/// Round-robin ring over one or more API keys. Each request starts on the
/// key after the previous request's start.
pub struct KeyRing {
    keys: Vec<String>,
    cursor: usize,
}

impl KeyRing {
    #[verifier::type_invariant]
    closed spec fn inv(self) -> bool {
        self.keys@.len() > 0
    }

    /// The keys, in order.
    pub closed spec fn keys_view(self) -> Seq<Seq<char>> {
        self.keys@.map_values(|k: String| k@)
    }

    /// How many requests have started, modulo the word size.
    pub closed spec fn cursor(self) -> usize {
        self.cursor
    }

    /// Splits a comma-separated key list: segments are trimmed and empty ones
    /// dropped; when nothing remains the raw value is kept as the only key.
    pub fn parse(raw: &str) -> (r: KeyRing)
        ensures
            r.keys_view() == spec_ring_keys(raw@),
            r.cursor() == 0,
    {
        let parts = split_char(raw, ',');
        let ghost ps = split_on(raw@, ',');
        let mut keys: Vec<String> = Vec::new();
        let mut i: usize = 0;
        while i < parts.len()
            invariant
                i <= parts@.len(),
                parts@.len() == ps.len(),
                forall|k: int| 0 <= k < parts@.len() ==> #[trigger] parts@[k]@ == ps[k],
                keys@.map_values(|k: String| k@) == trimmed_keys(ps.take(i as int)),
            decreases parts@.len() - i,
        {
            assert(ps.take(i + 1).drop_last() =~= ps.take(i as int));
            assert(ps.take(i + 1).last() == ps[i as int]);
            let t = trim(parts[i].as_str());
            if !t.as_str().is_empty() {
                let ghost before = keys@;
                keys.push(t);
                assert(keys@.map_values(|k: String| k@) =~= before.map_values(|k: String| k@).push(
                    trim_ws(ps[i as int]),
                ));
            }
            i += 1;
        }
        assert(ps.take(ps.len() as int) =~= ps);
        if keys.len() == 0 {
            keys.push(owned(raw));
            assert(keys@.map_values(|k: String| k@) =~= seq![raw@]);
        }
        KeyRing { keys, cursor: 0 }
    }

    pub fn len(&self) -> (n: usize)
        ensures
            n == self.keys_view().len(),
            n > 0,
    {
        proof {
            use_type_invariant(self);
        }
        self.keys.len()
    }

    /// The index the next request starts from; advances the cursor, wrapping
    /// at the word size as an atomic counter does.
    pub fn start(&mut self) -> (i: usize)
        ensures
            i as int == (old(self).cursor() as int) % (old(self).keys_view().len() as int),
            final(self).keys_view() == old(self).keys_view(),
            final(self).cursor() == (if old(self).cursor() == usize::MAX {
                0
            } else {
                (old(self).cursor() + 1) as usize
            }),
    {
        proof {
            use_type_invariant(&*self);
        }
        let i = self.cursor % self.keys.len();
        self.cursor = if self.cursor == usize::MAX {
            0
        } else {
            self.cursor + 1
        };
        i
    }

    /// The key at `index`, wrapping around the ring.
    pub fn key(&self, index: usize) -> (k: &str)
        ensures
            k@ == self.keys_view()[(index as int) % (self.keys_view().len() as int)],
    {
        proof {
            use_type_invariant(self);
        }
        self.keys[index % self.keys.len()].as_str()
    }
}

/// Statuses that indict the key rather than the request: invalid or
/// unauthorized key, per-key rate limit, and Tavily's plan and
/// pay-as-you-go limits. Only these rotate to the next key.
pub open spec fn key_scoped(status: u16) -> bool {
    status == 401 || status == 403 || status == 429 || status == 432 || status == 433
}

pub fn is_key_scoped_status(status: u16) -> (r: bool)
    ensures
        r == key_scoped(status),
{
    status == 401 || status == 403 || status == 429 || status == 432 || status == 433
}

/// After attempt `offset` of `attempts` failed with `status` (when the
/// failure carried one): whether to retry with the next key. Only
/// key-scoped statuses rotate, and only while keys remain.
pub open spec fn spec_rotate(status: Option<u16>, offset: usize, attempts: usize) -> bool {
    (status matches Some(s) && key_scoped(s)) && offset + 1 < attempts
}

pub fn should_rotate(status: Option<u16>, offset: usize, attempts: usize) -> (r: bool)
    ensures
        r == spec_rotate(status, offset, attempts),
{
    let key_scoped = match status {
        Some(s) => is_key_scoped_status(s),
        None => false,
    };
    key_scoped && offset < attempts && offset + 1 < attempts
}

/// One request never uses more attempts than there are keys, and the keys
/// it tries (start, start + 1, ...) are pairwise distinct.
pub proof fn law_rotation_tries_each_key_once(
    statuses: Seq<Option<u16>>,
    start: nat,
    attempts: usize,
    a: int,
    b: int,
)
    requires
        attempts > 0,
        forall|o: int| 0 <= o < statuses.len() - 1 ==> spec_rotate(#[trigger] statuses[o], o as usize, attempts),
        0 <= a < b < statuses.len(),
    ensures
        statuses.len() <= attempts,
        (start + a) % (attempts as int) != (start + b) % (attempts as int),
{
    if statuses.len() > attempts {
        assert(spec_rotate(statuses[attempts - 1], (attempts - 1) as usize, attempts));
    }
    assert(b < attempts);
    let x = start + a;
    let y = start + b;
    vstd::arithmetic::div_mod::lemma_mod_equivalence(y, x, attempts as int);
    vstd::arithmetic::div_mod::lemma_small_mod((y - x) as nat, attempts as nat);
}

/// Successive starts move one key along the ring, and key indices wrap.
pub proof fn law_round_robin(r: KeyRing, index: usize)
    requires
        r.keys_view().len() > 0,
        r.cursor() < usize::MAX,
    ensures
        (r.cursor() as int + 1) % (r.keys_view().len() as int) == ((r.cursor() as int) % (
        r.keys_view().len() as int) + 1) % (r.keys_view().len() as int),
        index as int + r.keys_view().len() <= usize::MAX ==> r.keys_view()[(index as int
            + r.keys_view().len()) % (r.keys_view().len() as int)] == r.keys_view()[(index as int)
            % (r.keys_view().len() as int)],
{
    let n = r.keys_view().len() as int;
    vstd::arithmetic::div_mod::lemma_add_mod_noop(r.cursor() as int, 1, n);
    if n > 1 {
        vstd::arithmetic::div_mod::lemma_small_mod(1, n as nat);
    } else {
        assert(n == 1);
        assert((r.cursor() as int + 1) % 1 == 0);
        assert(((r.cursor() as int) % 1 + 1) % 1 == 0);
    }
    vstd::arithmetic::div_mod::lemma_mod_add_multiples_vanish(index as int, n);
}

// ---------------------------------------------------------------------------
// Endpoints and bodies
// ---------------------------------------------------------------------------

/// The API base with trailing slashes removed.
pub fn tavily_base(api_url: &str) -> (r: String)
    ensures
        r@ == trim_end_char(api_url@, '/'),
{
    trim_end_matches(api_url, '/')
}

/// `{base}/{path}` with leading slashes of `path` removed.
pub fn tavily_endpoint(base: &str, path: &str) -> (r: String)
    ensures
        r@ == base@ + "/"@ + trim_start_char(path@, '/'),
{
    let mut e = owned(base);
    append(&mut e, "/");
    let p = trim_start_matches(path, '/');
    append(&mut e, p.as_str());
    e
}

pub open spec fn strings_json(s: Seq<Seq<char>>) -> JsonV {
    JsonV::Array(s.map_values(|x: Seq<char>| JsonV::Str(x)))
}

/// The body of a search request: days and a news topic when a recency is
/// set, domain lists only when non-empty.
pub open spec fn spec_search_body(query: Seq<char>, max_results: usize, filters: SearchFilters) -> JsonV {
    let base = seq![
        ("query"@, JsonV::Str(query)),
        ("max_results"@, crate::json::juint(max_results as u64)),
        ("include_answer"@, JsonV::Bool(false)),
    ];
    let with_days = match filters.recency_days {
        Some(d) => base + seq![("days"@, crate::json::juint(d as u64)), ("topic"@, JsonV::Str("news"@))],
        None => base,
    };
    let inc = filters.include_domains@.map_values(|d: String| d@);
    let exc = filters.exclude_domains@.map_values(|d: String| d@);
    let with_inc = if inc.len() > 0 {
        with_days.push(("include_domains"@, strings_json(inc)))
    } else {
        with_days
    };
    let with_exc = if exc.len() > 0 {
        with_inc.push(("exclude_domains"@, strings_json(exc)))
    } else {
        with_inc
    };
    JsonV::Object(with_exc)
}

fn strings_to_json(v: &Vec<String>) -> (r: Json)
    ensures
        r@ == strings_json(v@.map_values(|d: String| d@)),
{
    let mut out: Vec<Json> = Vec::new();
    let mut i: usize = 0;
    while i < v.len()
        invariant
            i <= v@.len(),
            items_view(out@) == v@.take(i as int).map_values(|d: String| d@).map_values(
                |x: Seq<char>| JsonV::Str(x),
            ),
        decreases v@.len() - i,
    {
        let ghost before = out@;
        out.push(Json::string(v[i].as_str()));
        assert(out@.drop_last() =~= before);
        assert(v@.take(i + 1).map_values(|d: String| d@).map_values(|x: Seq<char>| JsonV::Str(x))
            =~= v@.take(i as int).map_values(|d: String| d@).map_values(|x: Seq<char>| JsonV::Str(x)).push(
            JsonV::Str(v@[i as int]@),
        ));
        i += 1;
    }
    assert(v@.take(v@.len() as int) =~= v@);
    Json::Array(out)
}

pub fn tavily_search_request_body(query: &str, max_results: usize, filters: &SearchFilters) -> (r:
    Json)
    ensures
        r@ == spec_search_body(query@, max_results, *filters),
{
    let mut m: Vec<(String, Json)> = Vec::new();
    m.push((owned("query"), Json::string(query)));
    m.push((owned("max_results"), Json::uint(max_results as u64)));
    m.push((owned("include_answer"), Json::Bool(false)));
    let ghost base = seq![
        ("query"@, JsonV::Str(query@)),
        ("max_results"@, crate::json::juint(max_results as u64)),
        ("include_answer"@, JsonV::Bool(false)),
    ];
    assert(members_view(m@) =~= base) by {
        crate::json::lemma_members_view(m@);
    }
    match filters.recency_days {
        Some(d) => {
            let ghost before = m@;
            m.push((owned("days"), Json::uint(d as u64)));
            m.push((owned("topic"), Json::string("news")));
            proof {
                crate::json::lemma_members_view(m@);
                crate::json::lemma_members_view(before);
            }
            assert(members_view(m@) =~= base + seq![
                ("days"@, crate::json::juint(d as u64)),
                ("topic"@, JsonV::Str("news"@)),
            ]);
        },
        None => {},
    }
    let ghost wd = members_view(m@);
    if filters.include_domains.len() > 0 {
        let ghost before = m@;
        m.push((owned("include_domains"), strings_to_json(&filters.include_domains)));
        assert(m@.drop_last() =~= before);
    }
    let ghost wi = members_view(m@);
    if filters.exclude_domains.len() > 0 {
        let ghost before = m@;
        m.push((owned("exclude_domains"), strings_to_json(&filters.exclude_domains)));
        assert(m@.drop_last() =~= before);
    }
    object(m)
}

/// The filters reach the search body: the excluded and the included domains
/// as arrays of their texts, in order, exactly when there are some; days and
/// a news topic exactly when a recency is set; and always the query, the
/// result count and no answer.
pub proof fn law_search_body_filters(query: Seq<char>, max_results: usize, filters: SearchFilters)
    ensures
        ({
            let b = spec_search_body(query, max_results, filters);
            let exc = filters.exclude_domains@;
            let inc = filters.include_domains@;
            &&& b.get("query"@) == Some(JsonV::Str(query))
            &&& b.get("max_results"@) == Some(crate::json::juint(max_results as u64))
            &&& b.get("include_answer"@) == Some(JsonV::Bool(false))
            &&& (exc.len() > 0 ==> b.get("exclude_domains"@) == Some(
                JsonV::Array(exc.map_values(|d: String| JsonV::Str(d@))),
            ))
            &&& (exc.len() == 0 ==> b.get("exclude_domains"@) is None)
            &&& (inc.len() > 0 ==> b.get("include_domains"@) == Some(
                JsonV::Array(inc.map_values(|d: String| JsonV::Str(d@))),
            ))
            &&& (inc.len() == 0 ==> b.get("include_domains"@) is None)
            &&& (filters.recency_days matches Some(d) ==> b.get("days"@) == Some(
                crate::json::juint(d as u64),
            ) && b.get("topic"@) == Some(JsonV::Str("news"@)))
            &&& (filters.recency_days is None ==> b.get("days"@) is None && b.get("topic"@) is None)
        }),
{
    reveal_strlit("query");
    reveal_strlit("max_results");
    reveal_strlit("include_answer");
    reveal_strlit("days");
    reveal_strlit("topic");
    reveal_strlit("include_domains");
    reveal_strlit("exclude_domains");
    let q = "query"@;
    let mx = "max_results"@;
    let ia = "include_answer"@;
    let dy = "days"@;
    let tp = "topic"@;
    let id = "include_domains"@;
    let ed = "exclude_domains"@;
    assert(id != ed) by {
        assert(id[0] != ed[0]);
    }
    assert(q != tp) by {
        assert(q[0] != tp[0]);
    }
    assert(q.len() == 5 && tp.len() == 5 && mx.len() == 11 && ia.len() == 14 && dy.len() == 4
        && id.len() == 15 && ed.len() == 15);
    let inc = filters.include_domains@.map_values(|d: String| d@);
    let exc = filters.exclude_domains@.map_values(|d: String| d@);
    assert(strings_json(inc) == JsonV::Array(
        filters.include_domains@.map_values(|d: String| JsonV::Str(d@)),
    )) by {
        assert(inc.map_values(|x: Seq<char>| JsonV::Str(x)) =~= filters.include_domains@.map_values(
            |d: String| JsonV::Str(d@),
        ));
    }
    assert(strings_json(exc) == JsonV::Array(
        filters.exclude_domains@.map_values(|d: String| JsonV::Str(d@)),
    )) by {
        assert(exc.map_values(|x: Seq<char>| JsonV::Str(x)) =~= filters.exclude_domains@.map_values(
            |d: String| JsonV::Str(d@),
        ));
    }
    let b = spec_search_body(query, max_results, filters);
    let m = b->Object_0;
    assert(forall|x: int, y: int|
        0 <= x < y < m.len() ==> (#[trigger] m[x]).0 != (#[trigger] m[y]).0);
    assert forall|i: int| 0 <= i < m.len() implies JsonV::Object(m).get((#[trigger] m[i]).0) == Some(
        m[i].1,
    ) by {
        lemma_object_get_at(m, i);
    }
    assert(forall|i: int| 0 <= i < m.len() ==> {
        let k = (#[trigger] m[i]).0;
        k == q || k == mx || k == ia || k == dy || k == tp || k == id || k == ed
    });
    assert(m[0].0 == q && m[1].0 == mx && m[2].0 == ia);
    if filters.recency_days is Some {
        assert(m[3].0 == dy && m[4].0 == tp);
    } else {
        lemma_object_get_absent(m, dy);
        lemma_object_get_absent(m, tp);
    }
    if filters.include_domains@.len() == 0 {
        lemma_object_get_absent(m, id);
    } else {
        let i = if filters.recency_days is Some { 5int } else { 3int };
        assert(m[i].0 == id);
    }
    if filters.exclude_domains@.len() == 0 {
        lemma_object_get_absent(m, ed);
    } else {
        assert(m[m.len() - 1].0 == ed);
    }
}

pub open spec fn spec_map_body(url: Seq<char>, max_results: usize) -> JsonV {
    JsonV::Object(
        seq![
            ("url"@, JsonV::Str(url)),
            ("max_depth"@, crate::json::juint(1)),
            ("limit"@, crate::json::juint(max_results as u64)),
        ],
    )
}

/// The body of a map request: one level deep, `limit` results.
pub fn tavily_map_request_body(url: &str, max_results: usize) -> (r: Json)
    ensures
        r@ == spec_map_body(url@, max_results),
{
    let mut m: Vec<(String, Json)> = Vec::new();
    m.push((owned("url"), Json::string(url)));
    m.push((owned("max_depth"), Json::uint(1)));
    m.push((owned("limit"), Json::uint(max_results as u64)));
    proof {
        crate::json::lemma_members_view(m@);
    }
    assert(members_view(m@) =~= seq![
        ("url"@, JsonV::Str(url@)),
        ("max_depth"@, crate::json::juint(1)),
        ("limit"@, crate::json::juint(max_results as u64)),
    ]);
    object(m)
}

/// The body of an extract request for one URL, as Markdown.
pub fn tavily_extract_request_body(url: &str) -> (r: Json)
    ensures
        r@ == JsonV::Object(
            seq![
                ("urls"@, JsonV::Array(seq![JsonV::Str(url@)])),
                ("format"@, JsonV::Str("markdown"@)),
            ],
        ),
{
    let mut urls: Vec<Json> = Vec::new();
    urls.push(Json::string(url));
    proof {
        crate::json::lemma_items_view(urls@);
    }
    assert(items_view(urls@) =~= seq![JsonV::Str(url@)]);
    let mut m: Vec<(String, Json)> = Vec::new();
    m.push((owned("urls"), Json::Array(urls)));
    m.push((owned("format"), Json::string("markdown")));
    proof {
        crate::json::lemma_members_view(m@);
        crate::json::lemma_items_view(urls@);
    }
    assert(members_view(m@) =~= seq![
        ("urls"@, JsonV::Array(seq![JsonV::Str(url@)])),
        ("format"@, JsonV::Str("markdown"@)),
    ]);
    object(m)
}

// ---------------------------------------------------------------------------
// Results
// ---------------------------------------------------------------------------

/// The first `max_results` sources.
pub fn limit_tavily_results(sources: Vec<Source>, max_results: usize) -> (r: Vec<Source>)
    ensures
        r@ == (if sources@.len() > max_results {
            sources@.take(max_results as int)
        } else {
            sources@
        }),
{
    let mut s = sources;
    s.truncate(max_results);
    s
}

/// `item[primary]`, or `item[fallback]` when `primary` is absent, as text.
pub open spec fn text_or(item: JsonV, primary: Seq<char>, fallback: Seq<char>) -> Option<Seq<char>> {
    let x = match item.get(primary) {
        Some(p) => Some(p),
        None => item.get(fallback),
    };
    match x {
        Some(JsonV::Str(s)) => Some(s),
        _ => None,
    }
}

pub open spec fn opt_text_at(item: JsonV, k: Seq<char>) -> Option<Seq<char>> {
    match item.get(k) {
        Some(JsonV::Str(s)) => Some(s),
        _ => None,
    }
}

/// The source an entry of `results` describes, if any: a bare URL string,
/// or an object with a `url` and optional title, description (`content`,
/// else `description`) and publication date.
pub open spec fn tavily_source(item: JsonV) -> Option<SourceV> {
    match item {
        JsonV::Str(u) => Some(
            SourceV { url: u, provider: "tavily"@, title: None, description: None, published_date: None },
        ),
        _ => match opt_text_at(item, "url"@) {
            Some(u) => Some(
                SourceV {
                    url: u,
                    provider: "tavily"@,
                    title: opt_text_at(item, "title"@),
                    description: text_or(item, "content"@, "description"@),
                    published_date: opt_text_at(item, "published_date"@),
                },
            ),
            None => None,
        },
    }
}

pub open spec fn tavily_sources(items: Seq<JsonV>) -> Seq<SourceV>
    decreases items.len(),
{
    if items.len() == 0 {
        Seq::empty()
    } else {
        match tavily_source(items.last()) {
            Some(s) => tavily_sources(items.drop_last()).push(s),
            None => tavily_sources(items.drop_last()),
        }
    }
}

/// The sources of a search or map response.
pub open spec fn spec_normalize(raw: JsonV) -> Seq<SourceV> {
    match raw.get("results"@) {
        Some(JsonV::Array(items)) => tavily_sources(items),
        _ => Seq::empty(),
    }
}

fn opt_string_at<'a>(item: &'a Json, k: &str) -> (r: Option<&'a str>)
    ensures
        (match r {
            Some(s) => Some(s@),
            None => None,
        }) == opt_text_at(item@, k@),
{
    match item.get(k) {
        Some(v) => v.as_str(),
        None => None,
    }
}

fn tavily_source_of(item: &Json) -> (r: Option<Source>)
    ensures
        (match r {
            Some(s) => Some(source_view(s)),
            None => None,
        }) == tavily_source(item@),
{
    if let Some(url) = item.as_str() {
        return Some(Source::new(url, "tavily"));
    }
    let url = match opt_string_at(item, "url") {
        Some(u) => u,
        None => {
            return None;
        },
    };
    let mut source = Source::new(url, "tavily");
    if let Some(title) = opt_string_at(item, "title") {
        source = source.with_title(title);
    }
    let d = match item.get("content") {
        Some(p) => Some(p),
        None => item.get("description"),
    };
    let d = match d {
        Some(v) => v.as_str(),
        None => None,
    };
    if let Some(description) = d {
        source = source.with_description(description);
    }
    if let Some(date) = opt_string_at(item, "published_date") {
        source = source.with_published_date(date);
    }
    Some(source)
}

/// The sources of a search or map response, in order; entries without a URL
/// are skipped.
pub fn normalize_tavily_results(raw: &Json) -> (r: Vec<Source>)
    ensures
        sources_view(r@) == spec_normalize(raw@),
{
    let mut out: Vec<Source> = Vec::new();
    let arr = match raw.get("results") {
        Some(v) => v.as_array(),
        None => None,
    };
    match arr {
        Some(arr) => {
            proof {
                lemma_items_view(arr@);
            }
            let ghost a = items_view(arr@);
            let mut i: usize = 0;
            while i < arr.len()
                invariant
                    i <= arr@.len(),
                    a.len() == arr@.len(),
                    forall|j: int| 0 <= j < arr@.len() ==> #[trigger] a[j] == arr@[j]@,
                    sources_view(out@) == tavily_sources(a.take(i as int)),
                decreases arr@.len() - i,
            {
                assert(a.take(i + 1).drop_last() =~= a.take(i as int));
                assert(a.take(i + 1).last() == arr@[i as int]@);
                match tavily_source_of(&arr[i]) {
                    Some(s) => {
                        let ghost before = out@;
                        out.push(s);
                        assert(sources_view(out@) =~= sources_view(before).push(source_view(out@.last())));
                    },
                    None => {},
                }
                i += 1;
            }
            assert(a.take(arr@.len() as int) =~= a);
        },
        None => {
            assert(sources_view(out@) =~= Seq::empty());
        },
    }
    out
}

/// What an extract response yields: the first result's `raw_content` (or
/// `content` when that is absent), when it is text and not blank.
pub open spec fn spec_extracted(raw: JsonV) -> Option<Seq<char>> {
    match raw.get("results"@) {
        Some(JsonV::Array(items)) => if items.len() > 0 {
            match text_or(items[0], "raw_content"@, "content"@) {
                Some(t) => if trim_ws(t).len() > 0 {
                    Some(t)
                } else {
                    None
                },
                None => None,
            }
        } else {
            None
        },
        _ => None,
    }
}

/// The page text of an extract response.
pub fn extracted_content(raw: &Json) -> (r: Result<String, GrokSearchError>)
    ensures
        match spec_extracted(raw@) {
            Some(t) => r matches Ok(s) && s@ == t,
            None => r matches Err(e) && e is Provider && e->Provider_0@
                == "Tavily extract returned empty content"@,
        },
{
    let arr = match raw.get("results") {
        Some(v) => v.as_array(),
        None => None,
    };
    let first = match arr {
        Some(a) => {
            proof {
                lemma_items_view(a@);
            }
            if a.len() > 0 {
                Some(&a[0])
            } else {
                None
            }
        },
        None => None,
    };
    let text = match first {
        Some(item) => {
            let x = match item.get("raw_content") {
                Some(p) => Some(p),
                None => item.get("content"),
            };
            match x {
                Some(v) => v.as_str(),
                None => None,
            }
        },
        None => None,
    };
    match text {
        Some(t) => {
            let tt = trim(t);
            if tt.as_str().is_empty() {
                Err(GrokSearchError::Provider(owned("Tavily extract returned empty content")))
            } else {
                Ok(owned(t))
            }
        },
        None => Err(GrokSearchError::Provider(owned("Tavily extract returned empty content"))),
    }
}

} // verus!
