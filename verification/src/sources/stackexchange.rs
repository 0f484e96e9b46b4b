//! StackExchange questions: the whole network, meta sites included.
use vstd::prelude::*;

use crate::error::GrokSearchError;
use crate::json::{Json, JsonV};
use crate::sources::{parse_url, path_segments, segments, url_accepted, url_host, url_path, SourceCaps, SourceType};
use crate::text::{
    append, decimal, has_prefix, has_suffix, i64_to_string, owned, parse_u64, parse_unsigned,
    signed_decimal, str_eq, ends_with, strip_prefix, strip_suffix, usize_to_string,
};

verus! {

/// A comment under an answer.
#[derive(Debug, Clone)]
pub struct SeComment {
    pub author: String,
    pub body: String,
}

/// One answer with its score and comments.
#[derive(Debug, Clone)]
pub struct SeAnswer {
    pub is_accepted: bool,
    pub score: i64,
    pub author: String,
    pub body: String,
    pub comments: Vec<SeComment>,
}

/// A question with its answers.
#[derive(Debug, Clone)]
pub struct SeRaw {
    pub title: String,
    pub body: String,
    pub site: String,
    pub answers: Vec<SeAnswer>,
}

/// Matches `/questions/{id}` on StackExchange hosts.
pub struct StackExchangeExtractor;

// ---------------------------------------------------------------------------
// Hosts and sites
// ---------------------------------------------------------------------------

/// The API site parameter of a host that is not a meta host.
pub open spec fn spec_base_site(host: Seq<char>) -> Seq<char> {
    if host == "stackoverflow.com"@ {
        "stackoverflow"@
    } else if host == "serverfault.com"@ {
        "serverfault"@
    } else if host == "superuser.com"@ {
        "superuser"@
    } else if host == "askubuntu.com"@ {
        "askubuntu"@
    } else if host == "mathoverflow.net"@ {
        "mathoverflow"@
    } else if has_suffix(host, ".stackexchange.com"@) {
        host.subrange(0, host.len() - ".stackexchange.com"@.len())
    } else {
        host
    }
}

/// The API site parameter of a host: meta hosts map to `meta.<base>`, the
/// central meta site to `meta.stackexchange`.
pub open spec fn spec_site(host: Seq<char>) -> Seq<char> {
    if has_prefix(host, "meta."@) {
        let base = host.subrange("meta."@.len() as int, host.len() as int);
        if base == "stackexchange.com"@ {
            "meta.stackexchange"@
        } else {
            "meta."@ + spec_base_site(base)
        }
    } else {
        spec_base_site(host)
    }
}

/// No character of `s` is a dot.
pub open spec fn no_dot(s: Seq<char>) -> bool {
    forall|i: int| 0 <= i < s.len() ==> s[i] != '.'
}

/// The API site of a network host outside meta is the host without its
/// top-level domain: the host is the site, a dot and a dot-free domain, and
/// the site has no dot.
pub proof fn law_site_of_network_hosts(h: Seq<char>)
    requires
        h == "stackoverflow.com"@ || h == "serverfault.com"@ || h == "superuser.com"@ || h
            == "askubuntu.com"@ || h == "mathoverflow.net"@,
    ensures
        no_dot(spec_site(h)),
        spec_site(h).len() + 1 < h.len(),
        h == spec_site(h) + "."@ + h.subrange(spec_site(h).len() + 1int, h.len() as int),
        no_dot(h.subrange(spec_site(h).len() + 1int, h.len() as int)),
{
    reveal_strlit("stackoverflow.com");
    reveal_strlit("stackoverflow");
    reveal_strlit("com");
    reveal_strlit("serverfault.com");
    reveal_strlit("serverfault");
    reveal_strlit("com");
    reveal_strlit("superuser.com");
    reveal_strlit("superuser");
    reveal_strlit("com");
    reveal_strlit("askubuntu.com");
    reveal_strlit("askubuntu");
    reveal_strlit("com");
    reveal_strlit("mathoverflow.net");
    reveal_strlit("mathoverflow");
    reveal_strlit("net");
    reveal_strlit(".");
    reveal_strlit("meta.");
    reveal_strlit(".stackexchange.com");
    if h == "stackoverflow.com"@ {
        assert(!has_prefix(h, "meta."@)) by {
            assert(h[0] != "meta."@[0]);
        }
        assert(spec_site(h) == "stackoverflow"@);
        assert(h =~= "stackoverflow"@ + "."@ + "com"@);
        assert(h.subrange(14, h.len() as int) =~= "com"@);
    }
    if h == "serverfault.com"@ {
        assert(!has_prefix(h, "meta."@)) by {
            assert(h[0] != "meta."@[0]);
        }
        assert(spec_site(h) == "serverfault"@);
        assert(h =~= "serverfault"@ + "."@ + "com"@);
        assert(h.subrange(12, h.len() as int) =~= "com"@);
    }
    if h == "superuser.com"@ {
        assert(!has_prefix(h, "meta."@)) by {
            assert(h[0] != "meta."@[0]);
        }
        assert(spec_site(h) == "superuser"@);
        assert(h =~= "superuser"@ + "."@ + "com"@);
        assert(h.subrange(10, h.len() as int) =~= "com"@);
    }
    if h == "askubuntu.com"@ {
        assert(!has_prefix(h, "meta."@)) by {
            assert(h[0] != "meta."@[0]);
        }
        assert(spec_site(h) == "askubuntu"@);
        assert(h =~= "askubuntu"@ + "."@ + "com"@);
        assert(h.subrange(10, h.len() as int) =~= "com"@);
    }
    if h == "mathoverflow.net"@ {
        assert(!has_prefix(h, "meta."@)) by {
            assert(h[1] != "meta."@[1]);
        }
        assert(spec_site(h) == "mathoverflow"@);
        assert(h =~= "mathoverflow"@ + "."@ + "net"@);
        assert(h.subrange(13, h.len() as int) =~= "net"@);
    }
}

/// The API site of a `*.stackexchange.com` host outside meta is its
/// subdomain: the site followed by `.stackexchange.com` is the host.
pub proof fn law_site_of_stackexchange_subdomains(h: Seq<char>)
    requires
        has_suffix(h, ".stackexchange.com"@),
        !has_prefix(h, "meta."@),
    ensures
        spec_site(h) + ".stackexchange.com"@ == h,
{
    reveal_strlit("stackoverflow.com");
    reveal_strlit("stackoverflow");
    reveal_strlit("com");
    reveal_strlit("serverfault.com");
    reveal_strlit("serverfault");
    reveal_strlit("com");
    reveal_strlit("superuser.com");
    reveal_strlit("superuser");
    reveal_strlit("com");
    reveal_strlit("askubuntu.com");
    reveal_strlit("askubuntu");
    reveal_strlit("com");
    reveal_strlit("mathoverflow.net");
    reveal_strlit("mathoverflow");
    reveal_strlit("net");
    reveal_strlit(".stackexchange.com");
    assert(h.subrange(h.len() - 18, h.len() as int) =~= ".stackexchange.com"@);
    assert(h != "stackoverflow.com"@ && h != "serverfault.com"@ && h != "superuser.com"@ && h
        != "askubuntu.com"@ && h != "mathoverflow.net"@) by {
        if h == "stackoverflow.com"@ || h == "serverfault.com"@ || h == "superuser.com"@ || h
            == "askubuntu.com"@ || h == "mathoverflow.net"@ {
            assert(h[h.len() - 18] == '.');
            assert(h.len() < 18 || h[h.len() - 18] != '.');
        }
    }
    assert(spec_site(h) + ".stackexchange.com"@ =~= h);
}

/// The hosts of the network.
pub open spec fn spec_is_se_host(host: Seq<char>) -> bool {
    ||| host == "stackoverflow.com"@
    ||| host == "serverfault.com"@
    ||| host == "superuser.com"@
    ||| host == "askubuntu.com"@
    ||| host == "mathoverflow.net"@
    ||| host == "meta.stackoverflow.com"@
    ||| host == "meta.serverfault.com"@
    ||| host == "meta.superuser.com"@
    ||| host == "meta.askubuntu.com"@
    ||| has_suffix(host, ".stackexchange.com"@)
}

pub fn base_site_param(host: &str) -> (r: String)
    ensures
        r@ == spec_base_site(host@),
{
    if str_eq(host, "stackoverflow.com") {
        owned("stackoverflow")
    } else if str_eq(host, "serverfault.com") {
        owned("serverfault")
    } else if str_eq(host, "superuser.com") {
        owned("superuser")
    } else if str_eq(host, "askubuntu.com") {
        owned("askubuntu")
    } else if str_eq(host, "mathoverflow.net") {
        owned("mathoverflow")
    } else {
        match strip_suffix(host, ".stackexchange.com") {
            Some(s) => s,
            None => owned(host),
        }
    }
}

pub fn site_from_host(host: &str) -> (r: String)
    ensures
        r@ == spec_site(host@),
{
    match strip_prefix(host, "meta.") {
        Some(base) => {
            if str_eq(base.as_str(), "stackexchange.com") {
                owned("meta.stackexchange")
            } else {
                let b = base_site_param(base.as_str());
                let mut r = owned("meta.");
                append(&mut r, b.as_str());
                r
            }
        },
        None => base_site_param(host),
    }
}

pub fn is_se_host(host: &str) -> (r: bool)
    ensures
        r == spec_is_se_host(host@),
{
    str_eq(host, "stackoverflow.com") || str_eq(host, "serverfault.com") || str_eq(
        host,
        "superuser.com",
    ) || str_eq(host, "askubuntu.com") || str_eq(host, "mathoverflow.net") || str_eq(
        host,
        "meta.stackoverflow.com",
    ) || str_eq(host, "meta.serverfault.com") || str_eq(host, "meta.superuser.com") || str_eq(
        host,
        "meta.askubuntu.com",
    ) || ends_with(host, ".stackexchange.com")
}

/// Answers page size: one more than the cap, at most the API's 100.
pub open spec fn spec_pagesize(max_answers: usize) -> nat {
    let n = if max_answers == usize::MAX {
        usize::MAX as nat
    } else {
        max_answers as nat + 1
    };
    if n > 100 {
        100
    } else {
        n
    }
}

pub fn answers_pagesize(max_answers: usize) -> (r: usize)
    ensures
        r as nat == spec_pagesize(max_answers),
        1 <= r <= 100,
{
    let n = max_answers.saturating_add(1);
    if n > 100 {
        100
    } else {
        n
    }
}

/// A question URL of the network: a known host and `/questions/{number}`.
pub open spec fn se_shape(host: Option<Seq<char>>, path: Seq<char>) -> bool {
    let h = match host {
        Some(h) => h,
        None => Seq::empty(),
    };
    &&& spec_is_se_host(h)
    &&& segments(path) is Some
    &&& {
        let s = segments(path)->0;
        &&& s.len() >= 2
        &&& s[0] == "questions"@
        &&& parse_unsigned(s[1], u64::MAX as nat) is Some
    }
}

pub open spec fn se_url_matches(url: Seq<char>) -> bool {
    url_accepted(url) && se_shape(url_host(url), url_path(url))
}

/// Whether a host and path name a question of the network.
pub fn matches_question(host: Option<&str>, path: &str) -> (r: bool)
    ensures
        r == se_shape(
            match host {
                Some(h) => Some(h@),
                None => None,
            },
            path@,
        ),
{
    let h = match host {
        Some(h) => h,
        None => "",
    };
    proof {
        reveal_strlit("");
        assert(""@ =~= Seq::<char>::empty());
    }
    if !is_se_host(h) {
        return false;
    }
    let segs = match path_segments(path) {
        Some(s) => s,
        None => {
            return false;
        },
    };
    segs.len() >= 2 && str_eq(segs[0].as_str(), "questions") && parse_u64(segs[1].as_str()).is_some()
}

impl StackExchangeExtractor {
    pub fn matches(&self, url: &str) -> (r: bool)
        ensures
            r == se_url_matches(url@),
    {
        match parse_url(url) {
            Some(p) => {
                let host = match &p.host {
                    Some(h) => Some(h.as_str()),
                    None => None,
                };
                matches_question(host, p.path.as_str())
            },
            None => false,
        }
    }

    pub fn kind(&self) -> (k: SourceType)
        ensures
            k == SourceType::Stackexchange,
    {
        SourceType::Stackexchange
    }
}

// ---------------------------------------------------------------------------
// API requests and responses
// ---------------------------------------------------------------------------

/// The API calls for a question: its site parameter, the question (with
/// body) and its answers sorted by votes.
#[derive(Debug)]
pub struct SeRequest {
    pub site: String,
    pub question_url: String,
    pub answers_url: String,
}

pub open spec fn question_id(path: Seq<char>) -> Seq<char> {
    match segments(path) {
        Some(s) => if s.len() > 1 {
            s[1]
        } else {
            Seq::empty()
        },
        None => Seq::empty(),
    }
}

pub open spec fn spec_question_url(id: Seq<char>, site: Seq<char>) -> Seq<char> {
    "https://api.stackexchange.com/2.3/questions/"@ + id + "?site="@ + site + "&filter=withbody"@
}

pub open spec fn spec_answers_url(id: Seq<char>, site: Seq<char>, max_answers: usize) -> Seq<char> {
    "https://api.stackexchange.com/2.3/questions/"@ + id + "/answers?site="@ + site
        + "&filter=withbody&order=desc&sort=votes&pagesize="@ + decimal(spec_pagesize(max_answers))
}
/// What [`se_request`] gives for a host (empty when there is none) and a
/// path: the site, and the question and answers URLs for the question id.
pub open spec fn se_request_matches(h: Seq<char>, path: Seq<char>, max_answers: usize, r: SeRequest) -> bool {
    &&& r.site@ == spec_site(h)
    &&& r.question_url@ == spec_question_url(question_id(path), spec_site(h))
    &&& r.answers_url@ == spec_answers_url(question_id(path), spec_site(h), max_answers)
}


/// The request for the question at a host and path.
pub fn se_request(host: Option<&str>, path: &str, max_answers: usize) -> (r: SeRequest)
    ensures
        se_request_matches(
            match host {
                Some(h) => h@,
                None => Seq::empty(),
            },
            path@,
            max_answers,
            r,
        ),
{
    let h = match host {
        Some(h) => h,
        None => "",
    };
    proof {
        reveal_strlit("");
        assert(""@ =~= Seq::<char>::empty());
    }
    let site = site_from_host(h);
    let id = match path_segments(path) {
        Some(s) => if s.len() > 1 {
            s[1].clone()
        } else {
            String::new()
        },
        None => String::new(),
    };
    let mut q = owned("https://api.stackexchange.com/2.3/questions/");
    append(&mut q, id.as_str());
    append(&mut q, "?site=");
    append(&mut q, site.as_str());
    append(&mut q, "&filter=withbody");
    let mut a = owned("https://api.stackexchange.com/2.3/questions/");
    append(&mut a, id.as_str());
    append(&mut a, "/answers?site=");
    append(&mut a, site.as_str());
    append(&mut a, "&filter=withbody&order=desc&sort=votes&pagesize=");
    let p = usize_to_string(answers_pagesize(max_answers));
    append(&mut a, p.as_str());
    SeRequest { site, question_url: q, answers_url: a }
}

/// The requests for the question a URL names; a text that does not parse as
/// a URL has no host and no path.
pub fn se_request_for_url(url: &str, max_answers: usize) -> (r: SeRequest)
    ensures
        se_request_matches(
            if url_accepted(url@) {
                match url_host(url@) {
                    Some(h) => h,
                    None => Seq::empty(),
                }
            } else {
                Seq::empty()
            },
            if url_accepted(url@) {
                url_path(url@)
            } else {
                Seq::empty()
            },
            max_answers,
            r,
        ),
{
    proof {
        reveal_strlit("");
        assert(""@ =~= Seq::<char>::empty());
    }
    match parse_url(url) {
        Some(p) => match &p.host {
            Some(h) => se_request(Some(h.as_str()), p.path.as_str(), max_answers),
            None => se_request(None, p.path.as_str(), max_answers),
        },
        None => se_request(None, "", max_answers),
    }
}

/// `v[primary]`, or `v[fallback]` when `primary` is absent, as a string;
/// empty otherwise.
pub open spec fn field_or(v: JsonV, primary: Seq<char>, fallback: Seq<char>) -> Seq<char> {
    let x = match v.get(primary) {
        Some(p) => Some(p),
        None => v.get(fallback),
    };
    match x {
        Some(JsonV::Str(s)) => s,
        _ => Seq::empty(),
    }
}

/// `v.owner.display_name`, or empty.
pub open spec fn owner_text(v: JsonV) -> Seq<char> {
    match v.get("owner"@) {
        Some(o) => match o.get("display_name"@) {
            Some(JsonV::Str(s)) => s,
            _ => Seq::empty(),
        },
        None => Seq::empty(),
    }
}

pub struct SeCommentV {
    pub author: Seq<char>,
    pub body: Seq<char>,
}

pub struct AnswerV {
    pub is_accepted: bool,
    pub score: i64,
    pub author: Seq<char>,
    pub body: Seq<char>,
    pub comments: Seq<SeCommentV>,
}

pub open spec fn se_comment_view(c: SeComment) -> SeCommentV {
    SeCommentV { author: c.author@, body: c.body@ }
}

pub open spec fn answer_view(a: SeAnswer) -> AnswerV {
    AnswerV {
        is_accepted: a.is_accepted,
        score: a.score,
        author: a.author@,
        body: a.body@,
        comments: a.comments@.map_values(|c: SeComment| se_comment_view(c)),
    }
}

pub open spec fn answers_view(s: Seq<SeAnswer>) -> Seq<AnswerV> {
    s.map_values(|a: SeAnswer| answer_view(a))
}

pub open spec fn se_comment_of(c: JsonV) -> SeCommentV {
    SeCommentV { author: owner_text(c), body: field_or(c, "body_markdown"@, "body"@) }
}

/// An answer read from an answer object; missing fields read as false,
/// zero or empty.
pub open spec fn answer_of(a: JsonV) -> AnswerV {
    AnswerV {
        is_accepted: match a.get("is_accepted"@) {
            Some(JsonV::Bool(b)) => b,
            _ => false,
        },
        score: match a.get("score"@) {
            Some(v) => match v.as_i64() {
                Some(n) => n,
                None => 0,
            },
            None => 0,
        },
        author: owner_text(a),
        body: field_or(a, "body_markdown"@, "body"@),
        comments: match a.get("comments"@) {
            Some(JsonV::Array(cs)) => cs.map_values(|c: JsonV| se_comment_of(c)),
            _ => Seq::empty(),
        },
    }
}

/// The answers in an `items` list.
pub open spec fn spec_parse_answers(v: JsonV) -> Seq<AnswerV> {
    match v.get("items"@) {
        Some(JsonV::Array(a)) => a.map_values(|x: JsonV| answer_of(x)),
        _ => Seq::empty(),
    }
}

fn field_str(v: &Json, primary: &str, fallback: &str) -> (r: String)
    ensures
        r@ == field_or(v@, primary@, fallback@),
{
    let x = match v.get(primary) {
        Some(p) => Some(p),
        None => v.get(fallback),
    };
    match x {
        Some(j) => match j.as_str() {
            Some(s) => owned(s),
            None => String::new(),
        },
        None => String::new(),
    }
}

fn owner_name(v: &Json) -> (r: String)
    ensures
        r@ == owner_text(v@),
{
    match v.get("owner") {
        Some(o) => match o.get("display_name") {
            Some(n) => match n.as_str() {
                Some(s) => owned(s),
                None => String::new(),
            },
            None => String::new(),
        },
        None => String::new(),
    }
}

fn parse_comment_list(v: Option<&Json>) -> (r: Vec<SeComment>)
    ensures
        r@.map_values(|c: SeComment| se_comment_view(c)) == (match crate::json::opt_view(v) {
            Some(JsonV::Array(cs)) => cs.map_values(|c: JsonV| se_comment_of(c)),
            _ => Seq::empty(),
        }),
{
    let mut out: Vec<SeComment> = Vec::new();
    let arr = match v {
        Some(j) => j.as_array(),
        None => None,
    };
    match arr {
        Some(arr) => {
            proof {
                crate::json::lemma_items_view(arr@);
            }
            let ghost a = crate::json::items_view(arr@);
            let mut i: usize = 0;
            while i < arr.len()
                invariant
                    i <= arr@.len(),
                    a.len() == arr@.len(),
                    forall|j: int| 0 <= j < arr@.len() ==> #[trigger] a[j] == arr@[j]@,
                    out@.map_values(|c: SeComment| se_comment_view(c)) == a.take(i as int).map_values(
                        |c: JsonV| se_comment_of(c),
                    ),
                decreases arr@.len() - i,
            {
                let c = &arr[i];
                let ghost before = out@;
                out.push(SeComment { author: owner_name(c), body: field_str(c, "body_markdown", "body") });
                assert(out@.map_values(|c: SeComment| se_comment_view(c)) =~= before.map_values(
                    |c: SeComment| se_comment_view(c),
                ).push(se_comment_of(a[i as int])));
                assert(a.take(i + 1) =~= a.take(i as int).push(a[i as int]));
                i += 1;
            }
            assert(a.take(arr@.len() as int) =~= a);
        },
        None => {
            assert(out@.map_values(|c: SeComment| se_comment_view(c)) =~= Seq::empty());
        },
    }
    out
}

fn parse_answer(a: &Json) -> (r: SeAnswer)
    ensures
        answer_view(r) == answer_of(a@),
{
    let is_accepted = match a.get("is_accepted") {
        Some(v) => match v.as_bool() {
            Some(b) => b,
            None => false,
        },
        None => false,
    };
    let score = match a.get("score") {
        Some(v) => match v.as_i64() {
            Some(n) => n,
            None => 0,
        },
        None => 0,
    };
    SeAnswer {
        is_accepted,
        score,
        author: owner_name(a),
        body: field_str(a, "body_markdown", "body"),
        comments: parse_comment_list(a.get("comments")),
    }
}

/// The answers of an `/answers` payload, tolerant of missing fields.
pub fn parse_answers(json: &Json) -> (r: Vec<SeAnswer>)
    ensures
        answers_view(r@) == spec_parse_answers(json@),
{
    let mut out: Vec<SeAnswer> = Vec::new();
    let arr = match json.get("items") {
        Some(v) => v.as_array(),
        None => None,
    };
    match arr {
        Some(arr) => {
            proof {
                crate::json::lemma_items_view(arr@);
            }
            let ghost a = crate::json::items_view(arr@);
            let mut i: usize = 0;
            while i < arr.len()
                invariant
                    i <= arr@.len(),
                    a.len() == arr@.len(),
                    forall|j: int| 0 <= j < arr@.len() ==> #[trigger] a[j] == arr@[j]@,
                    answers_view(out@) == a.take(i as int).map_values(|x: JsonV| answer_of(x)),
                decreases arr@.len() - i,
            {
                let ghost before = out@;
                out.push(parse_answer(&arr[i]));
                assert(answers_view(out@) =~= answers_view(before).push(answer_of(a[i as int])));
                assert(a.take(i + 1) =~= a.take(i as int).push(a[i as int]));
                i += 1;
            }
            assert(a.take(arr@.len() as int) =~= a);
        },
        None => {
            assert(answers_view(out@) =~= Seq::empty());
        },
    }
    out
}

/// The first question of a `/questions` payload.
pub open spec fn first_item(q: JsonV) -> Option<JsonV> {
    match q.get("items"@) {
        Some(JsonV::Array(a)) => if a.len() > 0 {
            Some(a[0])
        } else {
            None
        },
        _ => None,
    }
}

/// A question from its API responses; the answers call is best-effort and
/// its failure leaves the answers empty.
pub fn assemble_question(q_json: &Json, answers_json: Option<&Json>, site: String) -> (r: Result<
    SeRaw,
    GrokSearchError,
>)
    ensures
        r is Ok <==> first_item(q_json@) is Some,
        r matches Ok(raw) ==> {
            let item = first_item(q_json@)->0;
            &&& raw.title@ == (match item.get("title"@) {
                Some(JsonV::Str(t)) => t,
                _ => Seq::empty(),
            })
            &&& raw.body@ == field_or(item, "body_markdown"@, "body"@)
            &&& raw.site@ == site@
            &&& answers_view(raw.answers@) == (match crate::json::opt_view(answers_json) {
                Some(a) => spec_parse_answers(a),
                None => Seq::empty(),
            })
        },
        r matches Err(e) ==> e is Provider && e->Provider_0@ == "stackexchange: empty items"@,
{
    let items = match q_json.get("items") {
        Some(v) => v.as_array(),
        None => None,
    };
    let item = match items {
        Some(a) => {
            proof {
                crate::json::lemma_items_view(a@);
            }
            if a.len() > 0 {
                &a[0]
            } else {
                return Err(GrokSearchError::Provider(owned("stackexchange: empty items")));
            }
        },
        None => {
            return Err(GrokSearchError::Provider(owned("stackexchange: empty items")));
        },
    };
    let answers = match answers_json {
        Some(a) => parse_answers(a),
        None => {
            let v: Vec<SeAnswer> = Vec::new();
            assert(answers_view(v@) =~= Seq::empty());
            v
        },
    };
    let title = match item.get("title") {
        Some(t) => match t.as_str() {
            Some(s) => owned(s),
            None => String::new(),
        },
        None => String::new(),
    };
    Ok(SeRaw { title, body: field_str(item, "body_markdown", "body"), site, answers })
}


// ---------------------------------------------------------------------------
// Ranking and rendering
// ---------------------------------------------------------------------------

/// `x` ranks strictly before `e`: accepted first, then higher score.
pub open spec fn outranks(x: AnswerV, e: AnswerV) -> bool {
    (x.is_accepted && !e.is_accepted) || (x.is_accepted == e.is_accepted && x.score > e.score)
}

pub open spec fn insert_ranked(s: Seq<AnswerV>, x: AnswerV) -> Seq<AnswerV>
    decreases s.len(),
{
    if s.len() == 0 || !outranks(x, s.last()) {
        s.push(x)
    } else {
        insert_ranked(s.drop_last(), x).push(s.last())
    }
}

/// A stable sort: the accepted answer first, then by score, ties in the
/// order the API gave.
pub open spec fn rank(s: Seq<AnswerV>) -> Seq<AnswerV>
    decreases s.len(),
{
    if s.len() == 0 {
        s
    } else {
        insert_ranked(rank(s.drop_last()), s.last())
    }
}

proof fn lemma_insert_ranked_at(s: Seq<AnswerV>, x: AnswerV, j: int)
    requires
        0 <= j <= s.len(),
        forall|k: int| j <= k < s.len() ==> outranks(x, #[trigger] s[k]),
        j == 0 || !outranks(x, s[j - 1]),
    ensures
        insert_ranked(s, x) == s.take(j).push(x) + s.skip(j),
    decreases s.len(),
{
    if s.len() == 0 || j == s.len() {
        assert(s.take(j).push(x) + s.skip(j) =~= s.push(x));
    } else {
        lemma_insert_ranked_at(s.drop_last(), x, j);
        assert(s.drop_last().take(j) =~= s.take(j));
        assert((s.take(j).push(x) + s.drop_last().skip(j)).push(s.last()) =~= s.take(j).push(x)
            + s.skip(j));
    }
}

fn outranks_exec(x: &SeAnswer, e: &SeAnswer) -> (r: bool)
    ensures
        r == outranks(answer_view(*x), answer_view(*e)),
{
    (x.is_accepted && !e.is_accepted) || (x.is_accepted == e.is_accepted && x.score > e.score)
}

/// No answer comes after one it outranks.
pub open spec fn ranked(s: Seq<AnswerV>) -> bool {
    forall|i: int, j: int| 0 <= i < j < s.len() ==> !outranks(#[trigger] s[j], #[trigger] s[i])
}

proof fn lemma_insert_ranked_bound(t: Seq<AnswerV>, x: AnswerV, y: AnswerV)
    requires
        forall|k: int| 0 <= k < t.len() ==> !outranks(y, #[trigger] t[k]),
        !outranks(y, x),
    ensures
        insert_ranked(t, x).len() == t.len() + 1,
        forall|k: int|
            0 <= k < insert_ranked(t, x).len() ==> !outranks(y, #[trigger] insert_ranked(t, x)[k]),
    decreases t.len(),
{
    if t.len() > 0 && outranks(x, t.last()) {
        lemma_insert_ranked_bound(t.drop_last(), x, y);
        let u = insert_ranked(t.drop_last(), x);
        assert forall|k: int| 0 <= k < u.push(t.last()).len() implies !outranks(
            y,
            #[trigger] u.push(t.last())[k],
        ) by {
            if k < u.len() {
                assert(u.push(t.last())[k] == u[k]);
            }
        }
    }
}

proof fn lemma_insert_ranked_sorted(t: Seq<AnswerV>, x: AnswerV)
    requires
        ranked(t),
    ensures
        ranked(insert_ranked(t, x)),
        insert_ranked(t, x).to_multiset() =~= t.to_multiset().insert(x),
    decreases t.len(),
{
    broadcast use vstd::seq_lib::group_to_multiset_ensures;

    if t.len() == 0 || !outranks(x, t.last()) {
        let r = t.push(x);
        assert forall|i: int, j: int| 0 <= i < j < r.len() implies !outranks(
            #[trigger] r[j],
            #[trigger] r[i],
        ) by {
            if j == t.len() {
                assert(!outranks(x, t.last()));
                assert(!outranks(t.last(), t[i]) || i == t.len() - 1);
            }
        }
    } else {
        let d = t.drop_last();
        lemma_insert_ranked_sorted(d, x);
        lemma_insert_ranked_bound(d, x, t.last());
        let u = insert_ranked(d, x);
        let r = u.push(t.last());
        assert forall|i: int, j: int| 0 <= i < j < r.len() implies !outranks(
            #[trigger] r[j],
            #[trigger] r[i],
        ) by {
            if j == u.len() {
                assert(r[i] == u[i]);
            } else {
                assert(r[i] == u[i] && r[j] == u[j]);
            }
        }
        assert(t =~= d.push(t.last()));
    }
}

/// Ranking loses and adds no answer, and shows them in order: the accepted
/// answer before the others, then higher scores before lower ones.
pub proof fn law_rank_orders_answers(s: Seq<AnswerV>)
    ensures
        rank(s).to_multiset() =~= s.to_multiset(),
        forall|i: int, j: int|
            0 <= i < j < rank(s).len() ==> !outranks(#[trigger] rank(s)[j], #[trigger] rank(s)[i]),
    decreases s.len(),
{
    broadcast use vstd::seq_lib::group_to_multiset_ensures;

    if s.len() > 0 {
        law_rank_orders_answers(s.drop_last());
        lemma_insert_ranked_sorted(rank(s.drop_last()), s.last());
        assert(s =~= s.drop_last().push(s.last()));
    }
}

/// The order in which answers are shown, as indices into `answers`.
pub fn ranked_order(answers: &Vec<SeAnswer>) -> (r: Vec<usize>)
    ensures
        forall|k: int| 0 <= k < r@.len() ==> #[trigger] r@[k] < answers@.len(),
        r@.map_values(|i: usize| answer_view(answers@[i as int])) == rank(answers_view(answers@)),
{
    let ghost all = answers_view(answers@);
    let mut order: Vec<usize> = Vec::new();
    let mut n: usize = 0;
    assert(order@.map_values(|i: usize| answer_view(answers@[i as int])) =~= rank(all.take(0)));
    while n < answers.len()
        invariant
            n <= answers@.len(),
            all == answers_view(answers@),
            forall|k: int| 0 <= k < order@.len() ==> #[trigger] order@[k] < answers@.len(),
            order@.map_values(|i: usize| answer_view(answers@[i as int])) == rank(all.take(n as int)),
        decreases answers@.len() - n,
    {
        let ghost s = order@.map_values(|i: usize| answer_view(answers@[i as int]));
        let x = &answers[n];
        let mut j: usize = order.len();
        while j > 0 && outranks_exec(x, &answers[order[j - 1]])
            invariant
                j <= order@.len(),
                n < answers@.len(),
                x == answers@[n as int],
                s == order@.map_values(|i: usize| answer_view(answers@[i as int])),
                forall|k: int| 0 <= k < order@.len() ==> #[trigger] order@[k] < answers@.len(),
                forall|k: int| j <= k < s.len() ==> outranks(answer_view(*x), #[trigger] s[k]),
            decreases j,
        {
            j -= 1;
        }
        proof {
            lemma_insert_ranked_at(s, answer_view(*x), j as int);
        }
        order.insert(j, n);
        assert(order@.map_values(|i: usize| answer_view(answers@[i as int])) =~= s.take(j as int).push(
            answer_view(answers@[n as int]),
        ) + s.skip(j as int));
        assert(all.take(n + 1).drop_last() =~= all.take(n as int));
        assert(all.take(n + 1).last() == answer_view(answers@[n as int]));
        n += 1;
    }
    assert(all.take(answers@.len() as int) =~= all);
    order
}

pub open spec fn comment_line(c: SeCommentV) -> Seq<char> {
    "> **"@ + c.author + ":** "@ + c.body + "\n"@
}

pub open spec fn comment_lines(s: Seq<SeCommentV>) -> Seq<char>
    decreases s.len(),
{
    if s.len() == 0 {
        Seq::empty()
    } else {
        comment_lines(s.drop_last()) + comment_line(s.last())
    }
}

/// One answer: the accepted one is marked and followed by at most
/// `max_comments` comments and a fold note; others show author and score.
pub open spec fn answer_block(a: AnswerV, max_comments: usize) -> Seq<char> {
    if a.is_accepted {
        let shown = if a.comments.len() > max_comments { max_comments as int } else { a.comments.len() as int };
        "## ★ 采纳答案 (↑"@ + signed_decimal(a.score as int) + ")\n\n"@ + a.body + "\n\n"@
            + comment_lines(a.comments.take(shown)) + (if a.comments.len() > max_comments {
            "_还有 "@ + decimal((a.comments.len() - max_comments) as nat) + " 条评论_\n"@
        } else {
            Seq::empty()
        }) + "\n"@
    } else {
        "## 答案 by "@ + a.author + " (↑"@ + signed_decimal(a.score as int) + ")\n\n"@ + a.body
            + "\n\n"@
    }
}

pub open spec fn answer_blocks(s: Seq<AnswerV>, max_comments: usize) -> Seq<char>
    decreases s.len(),
{
    if s.len() == 0 {
        Seq::empty()
    } else {
        answer_blocks(s.drop_last(), max_comments) + answer_block(s.last(), max_comments)
    }
}

/// The Markdown page of a question: title and body, the ranked answers up
/// to `max_answers`, then a note counting the answers left out.
pub open spec fn spec_render(raw: SeRaw, caps: SourceCaps) -> Seq<char> {
    let ranked = rank(answers_view(raw.answers@));
    let shown = if ranked.len() > caps.max_answers { caps.max_answers as int } else { ranked.len() as int };
    "# "@ + raw.title@ + "\n\n"@ + raw.body@ + "\n\n---\n\n"@ + answer_blocks(ranked.take(shown), caps.max_comments)
        + (if ranked.len() > caps.max_answers {
        "_还有 "@ + decimal((ranked.len() - caps.max_answers) as nat) + " 条_\n"@
    } else {
        Seq::empty()
    })
}

/// The layout of a rendered question: title and body, then the first
/// `min(n, max_answers)` answers in rank order (accepted first, then by
/// score, ties as the API gave them), then a note counting the rest exactly
/// when there are more than `max_answers`. An accepted answer is marked and
/// shows its first `min(c, max_comments)` comments and a note counting the
/// rest exactly when it has more; any other answer shows no comments.
pub proof fn law_se_render_layout(raw: SeRaw, caps: SourceCaps)
    ensures
        ({
            let ranked = rank(answers_view(raw.answers@));
            let n = raw.answers@.len();
            let m = caps.max_answers;
            &&& ranked.len() == n
            &&& ranked.to_multiset() =~= answers_view(raw.answers@).to_multiset()
            &&& (forall|i: int, j: int|
                0 <= i < j < ranked.len() ==> !outranks(#[trigger] ranked[j], #[trigger] ranked[i]))
            &&& spec_render(raw, caps) == "# "@ + raw.title@ + "\n\n"@ + raw.body@ + "\n\n---\n\n"@
                + answer_blocks(ranked.take(if n > m { m as int } else { n as int }), caps.max_comments)
                + (if n > m {
                "_还有 "@ + decimal((n - m) as nat) + " 条_\n"@
            } else {
                Seq::empty()
            })
        }),
        forall|a: AnswerV| #![trigger answer_block(a, caps.max_comments)]
            a.is_accepted ==> answer_block(a, caps.max_comments) == "## ★ 采纳答案 (↑"@ + signed_decimal(
                a.score as int,
            ) + ")\n\n"@ + a.body + "\n\n"@ + comment_lines(
                a.comments.take(
                    if a.comments.len() > caps.max_comments {
                        caps.max_comments as int
                    } else {
                        a.comments.len() as int
                    },
                ),
            ) + (if a.comments.len() > caps.max_comments {
                "_还有 "@ + decimal((a.comments.len() - caps.max_comments) as nat) + " 条评论_\n"@
            } else {
                Seq::empty()
            }) + "\n"@,
        forall|a: AnswerV| #![trigger answer_block(a, caps.max_comments)]
            !a.is_accepted ==> answer_block(a, caps.max_comments) == "## 答案 by "@ + a.author + " (↑"@
                + signed_decimal(a.score as int) + ")\n\n"@ + a.body + "\n\n"@,
{
    lemma_rank_len(answers_view(raw.answers@));
    law_rank_orders_answers(answers_view(raw.answers@));
    assert(answers_view(raw.answers@).len() == raw.answers@.len());
}

proof fn lemma_rank_len(s: Seq<AnswerV>)
    ensures
        rank(s).len() == s.len(),
    decreases s.len(),
{
    if s.len() > 0 {
        lemma_rank_len(s.drop_last());
        lemma_insert_ranked_len(rank(s.drop_last()), s.last());
    }
}

proof fn lemma_insert_ranked_len(s: Seq<AnswerV>, x: AnswerV)
    ensures
        insert_ranked(s, x).len() == s.len() + 1,
    decreases s.len(),
{
    if s.len() > 0 {
        lemma_insert_ranked_len(s.drop_last(), x);
    }
}

fn write_answer(out: &mut String, a: &SeAnswer, max_comments: usize)
    ensures
        final(out)@ == old(out)@ + answer_block(answer_view(*a), max_comments),
{
    let ghost av = answer_view(*a);
    let ghost start = out@;
    if a.is_accepted {
        append(out, "## ★ 采纳答案 (↑");
        let sc = i64_to_string(a.score);
        append(out, sc.as_str());
        append(out, ")\n\n");
        append(out, a.body.as_str());
        append(out, "\n\n");
        let ghost head = out@;
        let n = a.comments.len();
        let shown = if n > max_comments {
            max_comments
        } else {
            n
        };
        let mut i: usize = 0;
        while i < shown
            invariant
                shown <= n == a.comments@.len(),
                av == answer_view(*a),
                i <= shown,
                out@ == head + comment_lines(av.comments.take(i as int)),
            decreases shown - i,
        {
            let c = &a.comments[i];
            let ghost before = out@;
            append(out, "> **");
            append(out, c.author.as_str());
            append(out, ":** ");
            append(out, c.body.as_str());
            append(out, "\n");
            assert(av.comments.take(i + 1).drop_last() =~= av.comments.take(i as int));
            assert(av.comments.take(i + 1).last() == se_comment_view(a.comments@[i as int]));
            assert(out@ =~= before + comment_line(se_comment_view(a.comments@[i as int])));
            i += 1;
        }
        let ghost mid = out@;
        if n > max_comments {
            append(out, "_还有 ");
            let e = usize_to_string(n - max_comments);
            append(out, e.as_str());
            append(out, " 条评论_\n");
        }
        append(out, "\n");
        assert(out@ =~= start + answer_block(av, max_comments));
    } else {
        append(out, "## 答案 by ");
        append(out, a.author.as_str());
        append(out, " (↑");
        let sc = i64_to_string(a.score);
        append(out, sc.as_str());
        append(out, ")\n\n");
        append(out, a.body.as_str());
        append(out, "\n\n");
        assert(out@ =~= start + answer_block(av, max_comments));
    }
}

pub fn render(raw: &SeRaw, caps: &SourceCaps) -> (r: String)
    ensures
        r@ == spec_render(*raw, *caps),
{
    let order = ranked_order(&raw.answers);
    let ghost ranked = rank(answers_view(raw.answers@));
    proof {
        lemma_rank_len(answers_view(raw.answers@));
    }
    assert(order@.len() == ranked.len());
    let total = order.len();
    let mut out = owned("# ");
    append(&mut out, raw.title.as_str());
    append(&mut out, "\n\n");
    append(&mut out, raw.body.as_str());
    append(&mut out, "\n\n---\n\n");
    let ghost head = out@;
    let shown = if total > caps.max_answers {
        caps.max_answers
    } else {
        total
    };
    let mut i: usize = 0;
    while i < shown
        invariant
            shown <= total == order@.len() == ranked.len(),
            ranked == order@.map_values(|k: usize| answer_view(raw.answers@[k as int])),
            forall|k: int| 0 <= k < order@.len() ==> #[trigger] order@[k] < raw.answers@.len(),
            i <= shown,
            out@ == head + answer_blocks(ranked.take(i as int), caps.max_comments),
        decreases shown - i,
    {
        let idx = order[i];
        write_answer(&mut out, &raw.answers[idx], caps.max_comments);
        assert(ranked.take(i + 1).drop_last() =~= ranked.take(i as int));
        assert(ranked.take(i + 1).last() == answer_view(raw.answers@[idx as int]));
        i += 1;
    }
    let ghost mid = out@;
    if total > caps.max_answers {
        append(&mut out, "_还有 ");
        let e = usize_to_string(total - caps.max_answers);
        append(&mut out, e.as_str());
        append(&mut out, " 条_\n");
    }
    assert(out@ =~= spec_render(*raw, *caps));
    out
}

} // verus!
