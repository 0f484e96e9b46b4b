//! GitHub issues and pull requests.
use vstd::prelude::*;

use crate::error::GrokSearchError;
use crate::json::{Json, JsonV};
use crate::sources::{parse_url, path_segments, segments, url_accepted, url_host, url_path, SourceCaps, SourceType};
use crate::text::{
    lemma_lex_lt_asymmetric, lemma_lex_lt_split, lex_lt, str_lt, append, decimal, join, join_with, owned, parse_u64, parse_unsigned, str_eq, trim, trim_ws,
    usize_to_string,
};

verus! {

/// An issue or pull request as the renderer needs it.
#[derive(Debug, Clone)]
pub struct GithubRaw {
    pub title: String,
    pub state: String,
    pub merged: Option<bool>,
    pub author: String,
    pub body: String,
    pub labels: Vec<String>,
    pub comments: Vec<GithubComment>,
    pub is_pr: bool,
}

/// One conversation comment, review comment or review body.
#[derive(Debug, Clone)]
pub struct GithubComment {
    pub author: String,
    pub body: String,
    pub created_at: String,
}

/// Matches `github.com/{owner}/{repo}/issues/{n}`.
pub struct GithubIssueExtractor {
    pub token: Option<String>,
}

/// Matches `github.com/{owner}/{repo}/pull/{n}`.
pub struct GithubPrExtractor {
    pub token: Option<String>,
}

// ---------------------------------------------------------------------------
// Matching
// ---------------------------------------------------------------------------

/// Exactly four non-empty segments, the third `kind`, the fourth a number.
pub open spec fn github_shape(host: Option<Seq<char>>, path: Seq<char>, kind: Seq<char>) -> bool {
    &&& host == Some("github.com"@)
    &&& segments(path) is Some
    &&& {
        let s = segments(path)->0;
        &&& s.len() == 4
        &&& s[2] == kind
        &&& parse_unsigned(s[3], u64::MAX as nat) is Some
    }
}

/// What the matcher decides for a URL text.
pub open spec fn github_url_matches(url: Seq<char>, kind: Seq<char>) -> bool {
    url_accepted(url) && github_shape(url_host(url), url_path(url), kind)
}

/// Whether a host and path have the GitHub `kind` shape.
pub fn matches_github(host: Option<&str>, path: &str, kind: &str) -> (r: bool)
    ensures
        r == github_shape(
            match host {
                Some(h) => Some(h@),
                None => None,
            },
            path@,
            kind@,
        ),
{
    match host {
        Some(h) => {
            if !str_eq(h, "github.com") {
                return false;
            }
        },
        None => {
            return false;
        },
    }
    let segs = match path_segments(path) {
        Some(s) => s,
        None => {
            return false;
        },
    };
    if segs.len() != 4 {
        return false;
    }
    if !str_eq(segs[2].as_str(), kind) {
        return false;
    }
    let n = parse_u64(segs[3].as_str());
    n.is_some()
}

fn url_matches(url: &str, kind: &str) -> (r: bool)
    ensures
        r == github_url_matches(url@, kind@),
{
    match parse_url(url) {
        Some(p) => {
            let host = match &p.host {
                Some(h) => Some(h.as_str()),
                None => None,
            };
            matches_github(host, p.path.as_str(), kind)
        },
        None => false,
    }
}

impl GithubIssueExtractor {
    pub fn matches(&self, url: &str) -> (r: bool)
        ensures
            r == github_url_matches(url@, "issues"@),
    {
        url_matches(url, "issues")
    }

    pub fn kind(&self) -> (k: SourceType)
        ensures
            k == SourceType::GithubIssue,
    {
        SourceType::GithubIssue
    }
}

impl GithubPrExtractor {
    pub fn matches(&self, url: &str) -> (r: bool)
        ensures
            r == github_url_matches(url@, "pull"@),
    {
        url_matches(url, "pull")
    }

    pub fn kind(&self) -> (k: SourceType)
        ensures
            k == SourceType::GithubPull,
    {
        SourceType::GithubPull
    }
}

// ---------------------------------------------------------------------------
// API requests
// ---------------------------------------------------------------------------

/// Page size for comment lists: one more than the cap so the renderer can
/// tell that more exist, at most the API's 100.
pub open spec fn spec_per_page(max_comments: usize) -> nat {
    let n = if max_comments == usize::MAX {
        usize::MAX as nat
    } else {
        max_comments as nat + 1
    };
    if n > 100 {
        100
    } else {
        n
    }
}

pub fn per_page(max_comments: usize) -> (r: usize)
    ensures
        r as nat == spec_per_page(max_comments),
        1 <= r <= 100,
{
    let n = max_comments.saturating_add(1);
    if n > 100 {
        100
    } else {
        n
    }
}

pub open spec fn repo_api(owner: Seq<char>, repo: Seq<char>) -> Seq<char> {
    "https://api.github.com/repos/"@ + owner + "/"@ + repo
}

pub open spec fn spec_list_url(
    owner: Seq<char>,
    repo: Seq<char>,
    area: Seq<char>,
    number: Seq<char>,
    list: Seq<char>,
    max_comments: usize,
) -> Seq<char> {
    repo_api(owner, repo) + "/"@ + area + "/"@ + number + "/"@ + list + "?per_page="@ + decimal(
        spec_per_page(max_comments),
    )
}

fn list_url(owner: &str, repo: &str, area: &str, number: &str, list: &str, max_comments: usize) -> (r:
    String)
    ensures
        r@ == spec_list_url(owner@, repo@, area@, number@, list@, max_comments),
{
    let mut u = owned("https://api.github.com/repos/");
    append(&mut u, owner);
    append(&mut u, "/");
    append(&mut u, repo);
    append(&mut u, "/");
    append(&mut u, area);
    append(&mut u, "/");
    append(&mut u, number);
    append(&mut u, "/");
    append(&mut u, list);
    append(&mut u, "?per_page=");
    let p = usize_to_string(per_page(max_comments));
    append(&mut u, p.as_str());
    u
}

/// Conversation comments, present on issues and pull requests.
pub fn comments_url(owner: &str, repo: &str, number: &str, max_comments: usize) -> (r: String)
    ensures
        r@ == spec_list_url(owner@, repo@, "issues"@, number@, "comments"@, max_comments),
{
    list_url(owner, repo, "issues", number, "comments", max_comments)
}

/// Inline review comments of a pull request.
pub fn pr_review_comments_url(owner: &str, repo: &str, number: &str, max_comments: usize) -> (r:
    String)
    ensures
        r@ == spec_list_url(owner@, repo@, "pulls"@, number@, "comments"@, max_comments),
{
    list_url(owner, repo, "pulls", number, "comments", max_comments)
}

/// Review summaries of a pull request.
pub fn pr_reviews_url(owner: &str, repo: &str, number: &str, max_comments: usize) -> (r: String)
    ensures
        r@ == spec_list_url(owner@, repo@, "pulls"@, number@, "reviews"@, max_comments),
{
    list_url(owner, repo, "pulls", number, "reviews", max_comments)
}

/// The API calls that fetch one issue or pull request.
#[derive(Debug)]
pub struct GithubRequest {
    pub main_url: String,
    pub comments_url: String,
    pub review_comments_url: Option<String>,
    pub reviews_url: Option<String>,
    pub authorization: Option<String>,
}

/// What [`github_request`] gives for a URL path: the request when the path
/// has at least four segments (owner, repo, kind, number), else the parse
/// error for an unexpected shape.
pub open spec fn github_request_matches(
    path: Seq<char>,
    token: Option<Seq<char>>,
    is_pr: bool,
    max_comments: usize,
    r: Result<GithubRequest, GrokSearchError>,
) -> bool {
    &&& (match segments(path) {
        Some(s) => s.len() >= 4,
        None => false,
    } <==> r is Ok)
    &&& (r matches Ok(q) ==> {
        let s = segments(path)->0;
        &&& q.main_url@ == repo_api(s[0], s[1]) + (if is_pr {
            "/pulls/"@
        } else {
            "/issues/"@
        }) + s[3]
        &&& q.comments_url@ == spec_list_url(s[0], s[1], "issues"@, s[3], "comments"@, max_comments)
        &&& (is_pr <==> q.review_comments_url is Some)
        &&& (is_pr <==> q.reviews_url is Some)
        &&& (q.review_comments_url matches Some(u) ==> u@ == spec_list_url(
            s[0],
            s[1],
            "pulls"@,
            s[3],
            "comments"@,
            max_comments,
        ))
        &&& (q.reviews_url matches Some(u) ==> u@ == spec_list_url(
            s[0],
            s[1],
            "pulls"@,
            s[3],
            "reviews"@,
            max_comments,
        ))
        &&& match token {
            Some(t) => q.authorization matches Some(a) && a@ == "Bearer "@ + t,
            None => q.authorization is None,
        }
    })
    &&& (r matches Err(e) ==> e == GrokSearchError::Parse(e->Parse_0) && e->Parse_0@
        == "github: unexpected URL shape"@)
}

/// The request for the issue or pull request at a URL path: the item itself
/// and its conversation comments, plus review comments and review bodies for
/// a pull request; a token becomes a Bearer authorization.
pub fn github_request(path: &str, token: Option<&str>, is_pr: bool, max_comments: usize) -> (r:
    Result<GithubRequest, GrokSearchError>)
    ensures
        github_request_matches(
            path@,
            match token {
                Some(t) => Some(t@),
                None => None::<Seq<char>>,
            },
            is_pr,
            max_comments,
            r,
        ),
{
    let segs = match path_segments(path) {
        Some(s) => s,
        None => Vec::new(),
    };
    if segs.len() < 4 {
        return Err(GrokSearchError::Parse(owned("github: unexpected URL shape")));
    }
    let owner = segs[0].as_str();
    let repo = segs[1].as_str();
    let number = segs[3].as_str();
    let mut main_url = owned("https://api.github.com/repos/");
    append(&mut main_url, owner);
    append(&mut main_url, "/");
    append(&mut main_url, repo);
    if is_pr {
        append(&mut main_url, "/pulls/");
    } else {
        append(&mut main_url, "/issues/");
    }
    append(&mut main_url, number);
    let authorization = match token {
        Some(t) => {
            let mut a = owned("Bearer ");
            append(&mut a, t);
            Some(a)
        },
        None => None,
    };
    let review_comments_url = if is_pr {
        Some(pr_review_comments_url(owner, repo, number, max_comments))
    } else {
        None
    };
    let reviews_url = if is_pr {
        Some(pr_reviews_url(owner, repo, number, max_comments))
    } else {
        None
    };
    Ok(
        GithubRequest {
            main_url,
            comments_url: comments_url(owner, repo, number, max_comments),
            review_comments_url,
            reviews_url,
            authorization,
        },
    )
}


// ---------------------------------------------------------------------------
// Responses
// ---------------------------------------------------------------------------

/// The request for the issue or pull request a URL names; a text that does
/// not parse as a URL has no path segments and gets the shape error.
pub fn github_request_for_url(url: &str, token: Option<&str>, is_pr: bool, max_comments: usize) -> (r:
    Result<GithubRequest, GrokSearchError>)
    ensures
        github_request_matches(
            if url_accepted(url@) {
                url_path(url@)
            } else {
                Seq::empty()
            },
            match token {
                Some(t) => Some(t@),
                None => None::<Seq<char>>,
            },
            is_pr,
            max_comments,
            r,
        ),
{
    match parse_url(url) {
        Some(p) => github_request(p.path.as_str(), token, is_pr, max_comments),
        None => {
            proof {
                reveal_strlit("");
                assert(""@ =~= Seq::<char>::empty());
            }
            github_request("", token, is_pr, max_comments)
        },
    }
}

/// The view of a comment.
pub struct CommentV {
    pub author: Seq<char>,
    pub body: Seq<char>,
    pub created_at: Seq<char>,
}

pub open spec fn comment_view(c: GithubComment) -> CommentV {
    CommentV { author: c.author@, body: c.body@, created_at: c.created_at@ }
}

pub open spec fn comments_view(s: Seq<GithubComment>) -> Seq<CommentV> {
    s.map_values(|c: GithubComment| comment_view(c))
}

/// `v[k]` as a string, or empty.
pub open spec fn field_text(v: JsonV, k: Seq<char>) -> Seq<char> {
    match v.get(k) {
        Some(JsonV::Str(s)) => s,
        _ => Seq::empty(),
    }
}

/// `v.user.login` as a string, or empty.
pub open spec fn login_text(v: JsonV) -> Seq<char> {
    match v.get("user"@) {
        Some(u) => field_text(u, "login"@),
        None => Seq::empty(),
    }
}

/// A comment read from an issue or review comment object.
pub open spec fn comment_of(c: JsonV) -> CommentV {
    CommentV { author: login_text(c), body: field_text(c, "body"@), created_at: field_text(c, "created_at"@) }
}

/// A review read from a review object; reviews are stamped `submitted_at`.
pub open spec fn review_of(c: JsonV) -> CommentV {
    CommentV { author: login_text(c), body: field_text(c, "body"@), created_at: field_text(c, "submitted_at"@) }
}

/// All comments of a comment list; anything but an array gives none.
pub open spec fn spec_parse_comments(v: JsonV) -> Seq<CommentV> {
    match v {
        JsonV::Array(a) => a.map_values(|c: JsonV| comment_of(c)),
        _ => Seq::empty(),
    }
}

/// Reviews with a body that is not blank.
pub open spec fn reviews_with_body(a: Seq<JsonV>) -> Seq<CommentV>
    decreases a.len(),
{
    if a.len() == 0 {
        Seq::empty()
    } else if trim_ws(review_of(a.last()).body).len() == 0 {
        reviews_with_body(a.drop_last())
    } else {
        reviews_with_body(a.drop_last()).push(review_of(a.last()))
    }
}

pub open spec fn spec_parse_review_bodies(v: JsonV) -> Seq<CommentV> {
    match v {
        JsonV::Array(a) => reviews_with_body(a),
        _ => Seq::empty(),
    }
}

fn field_str(v: &Json, k: &str) -> (r: String)
    ensures
        r@ == field_text(v@, k@),
{
    match v.get(k) {
        Some(x) => match x.as_str() {
            Some(s) => owned(s),
            None => String::new(),
        },
        None => String::new(),
    }
}

fn login(v: &Json) -> (r: String)
    ensures
        r@ == login_text(v@),
{
    match v.get("user") {
        Some(u) => field_str(u, "login"),
        None => String::new(),
    }
}

/// The comments of an issue or review comment list.
pub fn parse_comments(json: &Json) -> (r: Vec<GithubComment>)
    ensures
        comments_view(r@) == spec_parse_comments(json@),
{
    let mut out: Vec<GithubComment> = Vec::new();
    match json.as_array() {
        Some(arr) => {
            proof {
                crate::json::lemma_items_view(arr@);
            }
            let ghost a = crate::json::items_view(arr@);
            let mut i: usize = 0;
            while i < arr.len()
                invariant
                    i <= arr@.len(),
                    a == crate::json::items_view(arr@),
                    a.len() == arr@.len(),
                    forall|j: int| 0 <= j < arr@.len() ==> #[trigger] a[j] == arr@[j]@,
                    comments_view(out@) == a.take(i as int).map_values(|c: JsonV| comment_of(c)),
                decreases arr@.len() - i,
            {
                let c = &arr[i];
                let ghost before = out@;
                out.push(GithubComment { author: login(c), body: field_str(c, "body"), created_at: field_str(c, "created_at") });
                assert(comments_view(out@) =~= comments_view(before).push(comment_of(a[i as int])));
                assert(a.take(i + 1) =~= a.take(i as int).push(a[i as int]));
                i += 1;
                assert(comments_view(out@) =~= a.take(i as int).map_values(|c: JsonV| comment_of(c)));
            }
            assert(a.take(arr@.len() as int) =~= a);
        },
        None => {
            assert(comments_view(out@) =~= Seq::empty());
        },
    }
    out
}

/// The reviews of a pull request that carry a non-blank body.
pub fn parse_review_bodies(json: &Json) -> (r: Vec<GithubComment>)
    ensures
        comments_view(r@) == spec_parse_review_bodies(json@),
{
    let mut out: Vec<GithubComment> = Vec::new();
    match json.as_array() {
        Some(arr) => {
            proof {
                crate::json::lemma_items_view(arr@);
            }
            let ghost a = crate::json::items_view(arr@);
            let mut i: usize = 0;
            while i < arr.len()
                invariant
                    i <= arr@.len(),
                    a == crate::json::items_view(arr@),
                    a.len() == arr@.len(),
                    forall|j: int| 0 <= j < arr@.len() ==> #[trigger] a[j] == arr@[j]@,
                    comments_view(out@) == reviews_with_body(a.take(i as int)),
                decreases arr@.len() - i,
            {
                let c = &arr[i];
                let body = field_str(c, "body");
                assert(a.take(i + 1).drop_last() =~= a.take(i as int));
                let t = trim(body.as_str());
                if !t.as_str().is_empty() {
                    let ghost before = out@;
                    out.push(GithubComment { author: login(c), body, created_at: field_str(c, "submitted_at") });
                    assert(comments_view(out@) =~= comments_view(before).push(review_of(a[i as int])));
                }
                i += 1;
            }
            assert(a.take(arr@.len() as int) =~= a);
        },
        None => {
            assert(comments_view(out@) =~= Seq::empty());
        },
    }
    out
}


// ---------------------------------------------------------------------------
// Chronological order
// ---------------------------------------------------------------------------

/// Inserts `c` after every comment stamped no later than it.
pub open spec fn insert_by_time(s: Seq<CommentV>, c: CommentV) -> Seq<CommentV>
    decreases s.len(),
{
    if s.len() == 0 || !lex_lt(c.created_at, s.last().created_at) {
        s.push(c)
    } else {
        insert_by_time(s.drop_last(), c).push(s.last())
    }
}

/// A stable sort by timestamp: equal stamps keep their order. ISO-8601
/// timestamps sort lexicographically in time order.
pub open spec fn sort_by_time(s: Seq<CommentV>) -> Seq<CommentV>
    decreases s.len(),
{
    if s.len() == 0 {
        s
    } else {
        insert_by_time(sort_by_time(s.drop_last()), s.last())
    }
}

/// No comment comes after one stamped later.
pub open spec fn in_time_order(s: Seq<CommentV>) -> bool {
    forall|i: int, j: int|
        0 <= i < j < s.len() ==> !lex_lt((#[trigger] s[j]).created_at, (#[trigger] s[i]).created_at)
}

proof fn lemma_insert_by_time_bound(t: Seq<CommentV>, x: CommentV, y: CommentV)
    requires
        forall|k: int| 0 <= k < t.len() ==> !lex_lt(y.created_at, (#[trigger] t[k]).created_at),
        !lex_lt(y.created_at, x.created_at),
    ensures
        insert_by_time(t, x).len() == t.len() + 1,
        forall|k: int|
            0 <= k < insert_by_time(t, x).len() ==> !lex_lt(
                y.created_at,
                (#[trigger] insert_by_time(t, x)[k]).created_at,
            ),
    decreases t.len(),
{
    if t.len() > 0 && lex_lt(x.created_at, t.last().created_at) {
        lemma_insert_by_time_bound(t.drop_last(), x, y);
        let u = insert_by_time(t.drop_last(), x);
        assert forall|k: int| 0 <= k < u.push(t.last()).len() implies !lex_lt(
            y.created_at,
            (#[trigger] u.push(t.last())[k]).created_at,
        ) by {
            if k < u.len() {
                assert(u.push(t.last())[k] == u[k]);
            }
        }
    }
}

proof fn lemma_insert_by_time_sorted(t: Seq<CommentV>, x: CommentV)
    requires
        in_time_order(t),
    ensures
        in_time_order(insert_by_time(t, x)),
        insert_by_time(t, x).to_multiset() =~= t.to_multiset().insert(x),
    decreases t.len(),
{
    broadcast use vstd::seq_lib::group_to_multiset_ensures;

    if t.len() == 0 || !lex_lt(x.created_at, t.last().created_at) {
        let r = t.push(x);
        assert forall|i: int, j: int| 0 <= i < j < r.len() implies !lex_lt(
            (#[trigger] r[j]).created_at,
            (#[trigger] r[i]).created_at,
        ) by {
            if j == t.len() && i < t.len() - 1 {
                lemma_lex_lt_split(x.created_at, t.last().created_at, t[i].created_at);
            }
        }
    } else {
        let d = t.drop_last();
        lemma_insert_by_time_sorted(d, x);
        lemma_lex_lt_asymmetric(x.created_at, t.last().created_at);
        lemma_insert_by_time_bound(d, x, t.last());
        let u = insert_by_time(d, x);
        let r = u.push(t.last());
        assert forall|i: int, j: int| 0 <= i < j < r.len() implies !lex_lt(
            (#[trigger] r[j]).created_at,
            (#[trigger] r[i]).created_at,
        ) by {
            if j == u.len() {
                assert(r[i] == u[i]);
            } else {
                assert(r[i] == u[i] && r[j] == u[j]);
            }
        }
        assert(t =~= d.push(t.last()));
    }
}

/// Sorting comments loses and adds none and leaves them in time order.
pub proof fn law_sort_by_time_orders_comments(s: Seq<CommentV>)
    ensures
        sort_by_time(s).to_multiset() =~= s.to_multiset(),
        in_time_order(sort_by_time(s)),
    decreases s.len(),
{
    broadcast use vstd::seq_lib::group_to_multiset_ensures;

    if s.len() > 0 {
        law_sort_by_time_orders_comments(s.drop_last());
        lemma_insert_by_time_sorted(sort_by_time(s.drop_last()), s.last());
        assert(s =~= s.drop_last().push(s.last()));
    }
}

proof fn lemma_insert_at(s: Seq<CommentV>, c: CommentV, j: int)
    requires
        0 <= j <= s.len(),
        forall|k: int| j <= k < s.len() ==> lex_lt(c.created_at, (#[trigger] s[k]).created_at),
        j == 0 || !lex_lt(c.created_at, s[j - 1].created_at),
    ensures
        insert_by_time(s, c) == s.take(j).push(c) + s.skip(j),
    decreases s.len(),
{
    if s.len() == 0 {
        assert(s.take(j).push(c) + s.skip(j) =~= s.push(c));
    } else if j == s.len() {
        assert(s.take(j).push(c) + s.skip(j) =~= s.push(c));
    } else {
        lemma_insert_at(s.drop_last(), c, j);
        assert(s.drop_last().take(j) =~= s.take(j));
        assert((s.take(j).push(c) + s.drop_last().skip(j)).push(s.last()) =~= s.take(j).push(c)
            + s.skip(j));
    }
}

fn insert_comment(v: &mut Vec<GithubComment>, c: GithubComment)
    ensures
        comments_view(final(v)@) == insert_by_time(comments_view(old(v)@), comment_view(c)),
{
    let ghost s = comments_view(v@);
    let mut j: usize = v.len();
    while j > 0 && str_lt(c.created_at.as_str(), v[j - 1].created_at.as_str())
        invariant
            j <= v@.len(),
            s == comments_view(v@),
            forall|k: int| j <= k < s.len() ==> lex_lt(c.created_at@, (#[trigger] s[k]).created_at),
        decreases j,
    {
        j -= 1;
    }
    proof {
        lemma_insert_at(s, comment_view(c), j as int);
    }
    v.insert(j, c);
    assert(comments_view(v@) =~= s.take(j as int).push(comment_view(c)) + s.skip(j as int));
}

/// Sorts comments by timestamp, stably.
pub fn sort_comments(v: Vec<GithubComment>) -> (r: Vec<GithubComment>)
    ensures
        comments_view(r@) == sort_by_time(comments_view(v@)),
{
    let ghost s = comments_view(v@);
    let mut out: Vec<GithubComment> = Vec::new();
    let mut rest = v;
    let ghost n = s.len();
    assert(comments_view(out@) =~= sort_by_time(s.take(0)));
    while rest.len() > 0
        invariant
            n == s.len(),
            rest@.len() <= n,
            forall|k: int| 0 <= k < rest@.len() ==> comment_view(#[trigger] rest@[k]) == s[n - rest@.len() + k],
            comments_view(out@) == sort_by_time(s.take(n - rest@.len())),
        decreases rest@.len(),
    {
        let ghost m = n - rest@.len();
        let c = rest.remove(0);
        assert(comment_view(c) == s[m]);
        assert(s.take(m + 1).drop_last() =~= s.take(m));
        insert_comment(&mut out, c);
    }
    assert(s.take(n as int) =~= s);
    out
}


// ---------------------------------------------------------------------------
// Assembling an issue or pull request
// ---------------------------------------------------------------------------

/// The names of the labels that carry one.
pub open spec fn label_names(a: Seq<JsonV>) -> Seq<Seq<char>>
    decreases a.len(),
{
    if a.len() == 0 {
        Seq::empty()
    } else {
        match a.last().get("name"@) {
            Some(JsonV::Str(n)) => label_names(a.drop_last()).push(n),
            _ => label_names(a.drop_last()),
        }
    }
}

pub open spec fn spec_labels(main: JsonV) -> Seq<Seq<char>> {
    match main.get("labels"@) {
        Some(JsonV::Array(a)) => label_names(a),
        _ => Seq::empty(),
    }
}

/// The name of a label entry, when it is text.
pub open spec fn entry_name(e: JsonV) -> Option<Seq<char>> {
    match e.get("name"@) {
        Some(JsonV::Str(n)) => Some(n),
        _ => None,
    }
}

proof fn lemma_label_names(a: Seq<JsonV>)
    ensures
        label_names(a) == a.filter_map(|e: JsonV| entry_name(e)),
    decreases a.len(),
{
    if a.len() > 0 {
        lemma_label_names(a.drop_last());
        let f = |e: JsonV| entry_name(e);
        assert(a.filter_map(f) == (match f(a.last()) {
            Some(n) => a.drop_last().filter_map(f) + seq![n],
            None => a.drop_last().filter_map(f),
        }));
        assert(label_names(a) =~= a.filter_map(f));
    }
}

/// The labels of an item are the `name` texts of its label entries, in
/// order: each entry whose name is text gives one label, in its place, and
/// no other entry gives one.
pub proof fn law_labels_are_entry_names(main: JsonV, a: Seq<JsonV>)
    requires
        main.get("labels"@) == Some(JsonV::Array(a)),
    ensures
        spec_labels(main) == a.filter_map(|e: JsonV| entry_name(e)),
        forall|j: int|
            0 <= j < a.len() && (#[trigger] entry_name(a[j])) is Some ==> spec_labels(main).contains(
                entry_name(a[j])->0,
            ),
{
    lemma_label_names(a);
    assert forall|j: int|
        0 <= j < a.len() && (#[trigger] entry_name(a[j])) is Some implies spec_labels(main).contains(
            entry_name(a[j])->0,
        ) by {
        lemma_named_entry_listed(a, j);
    }
}

proof fn lemma_named_entry_listed(a: Seq<JsonV>, j: int)
    requires
        0 <= j < a.len(),
        entry_name(a[j]) is Some,
    ensures
        label_names(a).contains(entry_name(a[j])->0),
    decreases a.len(),
{
    let n = entry_name(a[j])->0;
    if j == a.len() - 1 {
        assert(label_names(a).last() == n);
    } else {
        lemma_named_entry_listed(a.drop_last(), j);
        assert(a.drop_last()[j] == a[j]);
        let p = label_names(a.drop_last());
        let i = choose|i: int| 0 <= i < p.len() && p[i] == n;
        match entry_name(a.last()) {
            Some(x) => {
                assert(label_names(a)[i] == n);
            },
            None => {},
        }
    }
}

pub open spec fn opt_comments(o: Option<JsonV>, reviews: bool) -> Seq<CommentV> {
    match o {
        Some(v) => if reviews {
            spec_parse_review_bodies(v)
        } else {
            spec_parse_comments(v)
        },
        None => Seq::empty(),
    }
}

/// The discussion shown for an item: the conversation, and for a pull
/// request also the review comments and review bodies that could be
/// fetched, in time order.
pub open spec fn spec_thread(conv: JsonV, review_comments: Option<JsonV>, reviews: Option<JsonV>, is_pr: bool) -> Seq<CommentV> {
    if is_pr {
        sort_by_time(spec_parse_comments(conv) + opt_comments(review_comments, false) + opt_comments(reviews, true))
    } else {
        spec_parse_comments(conv)
    }
}

fn labels_of(main: &Json) -> (r: Vec<String>)
    ensures
        r@.map_values(|l: String| l@) == spec_labels(main@),
{
    let mut out: Vec<String> = Vec::new();
    match main.get("labels") {
        Some(v) => match v.as_array() {
            Some(arr) => {
                proof {
                    crate::json::lemma_items_view(arr@);
                }
                let ghost a = crate::json::items_view(arr@);
                let mut i: usize = 0;
                while i < arr.len()
                    invariant
                        i <= arr@.len(),
                        a.len() == arr@.len(),
                        forall|j: int| 0 <= j < arr@.len() ==> #[trigger] a[j] == arr@[j]@,
                        out@.map_values(|l: String| l@) == label_names(a.take(i as int)),
                    decreases arr@.len() - i,
                {
                    assert(a.take(i + 1).drop_last() =~= a.take(i as int));
                    assert(a.take(i + 1).last() == arr@[i as int]@);
                    match arr[i].get("name") {
                        Some(n) => match n.as_str() {
                            Some(t) => {
                                let ghost before = out@;
                                out.push(owned(t));
                                assert(out@.map_values(|l: String| l@) =~= before.map_values(|l: String| l@).push(t@));
                            },
                            None => {},
                        },
                        None => {},
                    }
                    i += 1;
                }
                assert(a.take(arr@.len() as int) =~= a);
            },
            None => {
                assert(out@.map_values(|l: String| l@) =~= Seq::empty());
            },
        },
        None => {
            assert(out@.map_values(|l: String| l@) =~= Seq::empty());
        },
    }
    out
}

/// An issue or pull request from its API responses: the item, its
/// conversation comments, and for a pull request the review comments and
/// reviews when those calls succeeded.
pub fn assemble_github(main: &Json, conv: &Json, review_comments: Option<&Json>, reviews: Option<&Json>, is_pr: bool) -> (r: GithubRaw)
    ensures
        r.title@ == field_text(main@, "title"@),
        r.state@ == field_text(main@, "state"@),
        r.merged == (match main@.get("merged"@) {
            Some(JsonV::Bool(b)) => Some(b),
            _ => None,
        }),
        r.author@ == login_text(main@),
        r.body@ == field_text(main@, "body"@),
        r.labels@.map_values(|l: String| l@) == spec_labels(main@),
        comments_view(r.comments@) == spec_thread(conv@, crate::json::opt_view(review_comments), crate::json::opt_view(reviews), is_pr),
        r.is_pr == is_pr,
{
    let mut comments = parse_comments(conv);
    if is_pr {
        let ghost c0 = comments_view(comments@);
        match review_comments {
            Some(j) => {
                let mut more = parse_comments(j);
                let ghost m = comments_view(more@);
                let ghost before = comments@;
                comments.append(&mut more);
                assert(comments_view(comments@) =~= comments_view(before) + m);
            },
            None => {},
        }
        assert(comments_view(comments@) =~= c0 + opt_comments(crate::json::opt_view(review_comments), false));
        let ghost c1 = comments_view(comments@);
        match reviews {
            Some(j) => {
                let mut more = parse_review_bodies(j);
                let ghost m = comments_view(more@);
                let ghost before = comments@;
                comments.append(&mut more);
                assert(comments_view(comments@) =~= comments_view(before) + m);
            },
            None => {},
        }
        assert(comments_view(comments@) =~= c1 + opt_comments(crate::json::opt_view(reviews), true));
        comments = sort_comments(comments);
    }
    let merged = match main.get("merged") {
        Some(v) => v.as_bool(),
        None => None,
    };
    GithubRaw {
        title: field_str(main, "title"),
        state: field_str(main, "state"),
        merged,
        author: login(main),
        body: field_str(main, "body"),
        labels: labels_of(main),
        comments,
        is_pr,
    }
}

// ---------------------------------------------------------------------------
// Rendering
// ---------------------------------------------------------------------------

pub open spec fn comment_block(c: CommentV) -> Seq<char> {
    "### Comment by "@ + c.author + " ("@ + c.created_at + ")\n\n"@ + c.body + "\n\n"@
}

pub open spec fn comment_blocks(s: Seq<CommentV>) -> Seq<char>
    decreases s.len(),
{
    if s.len() == 0 {
        Seq::empty()
    } else {
        comment_blocks(s.drop_last()) + comment_block(s.last())
    }
}

/// The state suffix of a pull request.
pub open spec fn merge_note(raw: GithubRaw) -> Seq<char> {
    if raw.is_pr {
        if raw.merged == Some(true) {
            " (merged)"@
        } else if raw.state@ == "closed"@ {
            " (closed, not merged)"@
        } else {
            Seq::empty()
        }
    } else {
        Seq::empty()
    }
}

/// Title, state, author, labels and body of an issue or pull request.
pub open spec fn render_head(raw: GithubRaw) -> Seq<char> {
    "# "@ + raw.title@ + "\n\n"@ + "**State:** "@ + raw.state@ + merge_note(raw) + "\n"@
        + "**Author:** "@ + raw.author@ + "\n"@ + (if raw.labels@.len() > 0 {
        "**Labels:** "@ + join_with(raw.labels@.map_values(|l: String| l@), ", "@) + "\n"@
    } else {
        Seq::empty()
    }) + "\n"@ + raw.body@ + "\n\n## Comments\n\n"@
}

/// At most `max_comments` comments, then a note counting the ones left out.
pub open spec fn render_thread(raw: GithubRaw, caps: SourceCaps) -> Seq<char> {
    let cs = comments_view(raw.comments@);
    let shown = if cs.len() > caps.max_comments { caps.max_comments as int } else { cs.len() as int };
    comment_blocks(cs.take(shown)) + (if cs.len() > caps.max_comments {
        "_还有 "@ + decimal((cs.len() - caps.max_comments) as nat) + " 条评论_\n"@
    } else {
        Seq::empty()
    })
}

/// The Markdown page of an issue or pull request.
pub open spec fn spec_render(raw: GithubRaw, caps: SourceCaps) -> Seq<char> {
    render_head(raw) + render_thread(raw, caps)
}

/// The layout of a rendered issue or pull request: the head, then the first
/// `min(n, max_comments)` comments in thread order, then a note counting the
/// rest exactly when there are more than `max_comments`. The state carries
/// " (merged)" for a merged pull request, " (closed, not merged)" for a
/// closed one that is not, and nothing otherwise; a labels line appears
/// exactly when there are labels.
pub proof fn law_github_render_layout(raw: GithubRaw, caps: SourceCaps)
    ensures
        ({
            let cs = comments_view(raw.comments@);
            let n = raw.comments@.len();
            let k = caps.max_comments;
            &&& cs.len() == n
            &&& spec_render(raw, caps) == render_head(raw) + comment_blocks(
                cs.take(if n > k { k as int } else { n as int }),
            ) + (if n > k {
                "_还有 "@ + decimal((n - k) as nat) + " 条评论_\n"@
            } else {
                Seq::empty()
            })
        }),
        merge_note(raw) == (if raw.is_pr && raw.merged == Some(true) {
            " (merged)"@
        } else if raw.is_pr && raw.state@ == "closed"@ {
            " (closed, not merged)"@
        } else {
            Seq::<char>::empty()
        }),
        render_head(raw) == "# "@ + raw.title@ + "\n\n"@ + "**State:** "@ + raw.state@ + merge_note(raw)
            + "\n"@ + "**Author:** "@ + raw.author@ + "\n"@ + (if raw.labels@.len() > 0 {
            "**Labels:** "@ + join_with(raw.labels@.map_values(|l: String| l@), ", "@) + "\n"@
        } else {
            Seq::empty()
        }) + "\n"@ + raw.body@ + "\n\n## Comments\n\n"@,
        forall|s: Seq<CommentV>, i: int|
            0 <= i < s.len() ==> #[trigger] comment_blocks(s.take(i + 1)) == comment_blocks(s.take(i))
                + comment_block(s[i]),
{
    assert(comments_view(raw.comments@).len() == raw.comments@.len());
    assert forall|s: Seq<CommentV>, i: int|
        0 <= i < s.len() implies #[trigger] comment_blocks(s.take(i + 1)) == comment_blocks(s.take(i))
            + comment_block(s[i]) by {
        assert(s.take(i + 1).drop_last() =~= s.take(i));
    }
}

/// Fetching a thread: a path with fewer than four segments fails with the
/// shape error before any request. An issue shows its conversation comments
/// in the order the API gave. A pull request shows the conversation, the
/// review comments and the non-blank review bodies that could be fetched,
/// all of them and nothing else, in time order; a review request that
/// failed adds nothing.
pub proof fn law_github_thread(
    path: Seq<char>,
    token: Option<Seq<char>>,
    is_pr: bool,
    max_comments: usize,
    r: Result<GithubRequest, GrokSearchError>,
    conv: JsonV,
    review_comments: Option<JsonV>,
    reviews: Option<JsonV>,
)
    requires
        github_request_matches(path, token, is_pr, max_comments, r),
    ensures
        r is Err <==> (segments(path) is None || segments(path)->0.len() < 4),
        !is_pr ==> spec_thread(conv, review_comments, reviews, is_pr) == spec_parse_comments(conv),
        is_pr ==> spec_thread(conv, review_comments, reviews, is_pr).to_multiset() =~= (
        spec_parse_comments(conv) + opt_comments(review_comments, false) + opt_comments(reviews, true)).to_multiset(),
        is_pr ==> in_time_order(spec_thread(conv, review_comments, reviews, is_pr)),
        opt_comments(None, false) == Seq::<CommentV>::empty(),
        opt_comments(None, true) == Seq::<CommentV>::empty(),
{
    if is_pr {
        law_sort_by_time_orders_comments(
            spec_parse_comments(conv) + opt_comments(review_comments, false) + opt_comments(reviews, true),
        );
    }
}

fn head(raw: &GithubRaw) -> (r: String)
    ensures
        r@ == render_head(*raw),
{
    let mut out = owned("# ");
    append(&mut out, raw.title.as_str());
    append(&mut out, "\n\n");
    append(&mut out, "**State:** ");
    append(&mut out, raw.state.as_str());
    let ghost a = out@;
    if raw.is_pr {
        match raw.merged {
            Some(true) => append(&mut out, " (merged)"),
            _ => {
                if str_eq(raw.state.as_str(), "closed") {
                    append(&mut out, " (closed, not merged)");
                }
            },
        }
    }
    assert(out@ =~= a + merge_note(*raw));
    append(&mut out, "\n");
    append(&mut out, "**Author:** ");
    append(&mut out, raw.author.as_str());
    append(&mut out, "\n");
    let ghost b = out@;
    if raw.labels.len() > 0 {
        append(&mut out, "**Labels:** ");
        let l = join(&raw.labels, ", ");
        append(&mut out, l.as_str());
        append(&mut out, "\n");
    }
    assert(out@ =~= b + (if raw.labels@.len() > 0 {
        "**Labels:** "@ + join_with(raw.labels@.map_values(|l: String| l@), ", "@) + "\n"@
    } else {
        Seq::empty()
    }));
    append(&mut out, "\n");
    append(&mut out, raw.body.as_str());
    append(&mut out, "\n\n## Comments\n\n");
    out
}

pub fn render(raw: &GithubRaw, caps: &SourceCaps) -> (r: String)
    ensures
        r@ == spec_render(*raw, *caps),
{
    let mut out = head(raw);
    let ghost head = out@;
    let ghost cs = comments_view(raw.comments@);
    let n = raw.comments.len();
    let shown = if n > caps.max_comments {
        caps.max_comments
    } else {
        n
    };
    let mut i: usize = 0;
    while i < shown
        invariant
            shown <= n == raw.comments@.len(),
            cs == comments_view(raw.comments@),
            i <= shown,
            out@ == head + comment_blocks(cs.take(i as int)),
        decreases shown - i,
    {
        let c = &raw.comments[i];
        let ghost before = out@;
        append(&mut out, "### Comment by ");
        append(&mut out, c.author.as_str());
        append(&mut out, " (");
        append(&mut out, c.created_at.as_str());
        append(&mut out, ")\n\n");
        append(&mut out, c.body.as_str());
        append(&mut out, "\n\n");
        assert(cs.take(i + 1).drop_last() =~= cs.take(i as int));
        assert(cs.take(i + 1).last() == comment_view(raw.comments@[i as int]));
        assert(out@ =~= before + comment_block(comment_view(raw.comments@[i as int])));
        i += 1;
    }
    let ghost mid = out@;
    if n > caps.max_comments {
        let extra = n - caps.max_comments;
        append(&mut out, "_还有 ");
        let e = usize_to_string(extra);
        append(&mut out, e.as_str());
        append(&mut out, " 条评论_\n");
    }
    assert(out@ =~= head + render_thread(*raw, *caps));
    out
}

} // verus!
