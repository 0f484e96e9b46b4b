//! Specialist extractors for well-known sites: URL matching, API request
//! construction, response parsing and Markdown rendering.
use vstd::prelude::*;

use crate::config::opt_str;
use crate::text::{split_char, split_on, strip_prefix, has_prefix};

pub mod github;
pub mod stackexchange;
pub mod wikipedia;

verus! {

/// How much of a thread a renderer shows before folding the rest.
#[derive(Debug, Clone, Copy)]
pub struct SourceCaps {
    pub max_answers: usize,
    pub max_comments: usize,
}

impl Default for SourceCaps {
    fn default() -> (c: SourceCaps)
        ensures
            c.max_answers == 5,
            c.max_comments == 30,
    {
        SourceCaps { max_answers: 5, max_comments: 30 }
    }
}

/// Which specialist produced a page.
#[derive(Debug, Clone, Copy, PartialEq, Eq, Structural)]
pub enum SourceType {
    GithubIssue,
    GithubPull,
    Stackexchange,
    Wikipedia,
}

/// The parts of a parsed URL that the matchers read.
#[derive(Debug)]
pub struct UrlParts {
    pub host: Option<String>,
    pub path: String,
}

/// `Url::parse` accepts the text.
pub uninterp spec fn url_accepted(text: Seq<char>) -> bool;

/// `Url::host_str` of the URL parsed from the text.
pub uninterp spec fn url_host(text: Seq<char>) -> Option<Seq<char>>;

/// `Url::path` of the URL parsed from the text.
pub uninterp spec fn url_path(text: Seq<char>) -> Seq<char>;

/// Parses a URL with the `url` crate (`Url::parse`, then `host_str` and
/// `path`). Whether it parses, and its host and path, are named by
/// [`url_accepted`], [`url_host`] and [`url_path`] of the text; the WHATWG
/// parsing rules themselves are not restated.
#[verifier::external_body]
pub(crate) fn parse_url(text: &str) -> (r: Option<UrlParts>)
    ensures
        r is Some <==> url_accepted(text@),
        r matches Some(p) ==> opt_str(p.host) == url_host(text@) && p.path@ == url_path(text@),
{
    match url::Url::parse(text) {
        Ok(u) => Some(UrlParts { host: u.host_str().map(str::to_string), path: u.path().to_string() }),
        Err(_) => None,
    }
}

/// The pieces of a list that are not empty.
pub open spec fn drop_empty(s: Seq<Seq<char>>) -> Seq<Seq<char>>
    decreases s.len(),
{
    if s.len() == 0 {
        s
    } else if s.last().len() == 0 {
        drop_empty(s.drop_last())
    } else {
        drop_empty(s.drop_last()).push(s.last())
    }
}

/// `Url::path_segments` with empty segments dropped: `None` when the path
/// does not start with `/`.
pub open spec fn segments(path: Seq<char>) -> Option<Seq<Seq<char>>> {
    if has_prefix(path, "/"@) {
        Some(drop_empty(split_on(path.drop_first(), '/')))
    } else {
        None
    }
}

/// The non-empty `/`-separated segments of a path, if it starts with `/`.
pub fn path_segments(path: &str) -> (r: Option<Vec<String>>)
    ensures
        r is Some <==> segments(path@) is Some,
        r matches Some(v) ==> v@.len() == segments(path@)->0.len() && forall|i: int|
            0 <= i < v@.len() ==> #[trigger] v@[i]@ == segments(path@)->0[i],
{
    match strip_prefix(path, "/") {
        Some(rest) => {
            proof {
                reveal_strlit("/");
                assert(rest@ =~= path@.drop_first());
            }
            let parts = split_char(rest.as_str(), '/');
            let ghost ps = split_on(rest@, '/');
            let mut out: Vec<String> = Vec::new();
            let mut i: usize = 0;
            while i < parts.len()
                invariant
                    i <= parts@.len(),
                    parts@.len() == ps.len(),
                    forall|k: int| 0 <= k < parts@.len() ==> #[trigger] parts@[k]@ == ps[k],
                    out@.len() == drop_empty(ps.take(i as int)).len(),
                    forall|k: int|
                        0 <= k < out@.len() ==> #[trigger] out@[k]@ == drop_empty(ps.take(i as int))[k],
                decreases parts@.len() - i,
            {
                assert(ps.take(i + 1).drop_last() =~= ps.take(i as int));
                assert(ps.take(i + 1).last() == ps[i as int]);
                if !parts[i].as_str().is_empty() {
                    out.push(parts[i].clone());
                }
                i += 1;
            }
            assert(ps.take(ps.len() as int) =~= ps);
            Some(out)
        },
        None => {
            proof {
                reveal_strlit("/");
            }
            None
        },
    }
}

} // verus!
