//! Wikipedia articles, in any language edition.
use vstd::prelude::*;
use vstd::string::StringSliceAdditionalSpecFns;

use crate::error::GrokSearchError;
use crate::json::{Json, JsonV};
use crate::sources::{parse_url, url_accepted, url_host, url_path, SourceCaps, SourceType};
use crate::text::{append, lemma_split_first_piece, has_prefix, has_suffix, owned, split_char, split_on, starts_with, str_eq, strip_suffix, ends_with, trim, trim_ws};

verus! {

/// A fetched article.
#[derive(Debug)]
pub struct WikiRaw {
    pub title: String,
    pub extract: String,
    pub lang: String,
}

/// Matches `{lang}.wikipedia.org/wiki/{title}` outside the special namespaces.
pub struct WikipediaExtractor;

/// Namespaces that are not articles.
pub open spec fn excluded_ns(ns: Seq<char>) -> bool {
    ||| ns == "Special"@
    ||| ns == "Talk"@
    ||| ns == "Category"@
    ||| ns == "Help"@
    ||| ns == "User"@
    ||| ns == "Wikipedia"@
    ||| ns == "File"@
    ||| ns == "Template"@
    ||| ns == "Portal"@
    ||| ns == "Draft"@
}

fn is_excluded_ns(ns: &str) -> (r: bool)
    ensures
        r == excluded_ns(ns@),
{
    str_eq(ns, "Special") || str_eq(ns, "Talk") || str_eq(ns, "Category") || str_eq(ns, "Help")
        || str_eq(ns, "User") || str_eq(ns, "Wikipedia") || str_eq(ns, "File") || str_eq(
        ns,
        "Template",
    ) || str_eq(ns, "Portal") || str_eq(ns, "Draft")
}

/// The language edition of a host; `en` for hosts outside `wikipedia.org`.
pub open spec fn spec_lang(host: Seq<char>) -> Seq<char> {
    if has_suffix(host, ".wikipedia.org"@) {
        host.subrange(0, host.len() - ".wikipedia.org"@.len())
    } else {
        "en"@
    }
}

pub fn lang_from_host(host: &str) -> (r: String)
    ensures
        r@ == spec_lang(host@),
{
    match strip_suffix(host, ".wikipedia.org") {
        Some(l) => l,
        None => owned("en"),
    }
}

/// An article path: `/wiki/` then a non-empty title whose namespace (the
/// text before the first `:`) is not excluded.
pub open spec fn wiki_shape(host: Option<Seq<char>>, path: Seq<char>) -> bool {
    let h = match host {
        Some(h) => h,
        None => Seq::empty(),
    };
    &&& has_suffix(h, ".wikipedia.org"@)
    &&& has_prefix(path, "/wiki/"@)
    &&& {
        let title = path.subrange("/wiki/"@.len() as int, path.len() as int);
        &&& title.len() > 0
        &&& !excluded_ns(split_on(title, ':')[0])
    }
}

pub open spec fn wiki_url_matches(url: Seq<char>) -> bool {
    url_accepted(url) && wiki_shape(url_host(url), url_path(url))
}

/// Pages in the special namespaces are not articles: for any host and any
/// text after the colon, `/wiki/{ns}:{rest}` does not match, whichever URL
/// has that path.
pub proof fn law_namespaces_are_not_articles(host: Option<Seq<char>>, ns: Seq<char>, rest: Seq<char>)
    requires
        ns == "Special"@ || ns == "Talk"@ || ns == "Category"@ || ns == "Help"@ || ns == "User"@ || ns == "Wikipedia"@ || ns == "File"@ || ns == "Template"@ || ns == "Portal"@ || ns == "Draft"@,
    ensures
        !wiki_shape(host, "/wiki/"@ + ns + ":"@ + rest),
        forall|url: Seq<char>|
            #[trigger] url_path(url) == "/wiki/"@ + ns + ":"@ + rest ==> !wiki_url_matches(url),
{
    reveal_strlit("Special");
    reveal_strlit("Talk");
    reveal_strlit("Category");
    reveal_strlit("Help");
    reveal_strlit("User");
    reveal_strlit("Wikipedia");
    reveal_strlit("File");
    reveal_strlit("Template");
    reveal_strlit("Portal");
    reveal_strlit("Draft");
    reveal_strlit("/wiki/");
    reveal_strlit(":");
    let path = "/wiki/"@ + ns + ":"@ + rest;
    let title = path.subrange(6, path.len() as int);
    assert(title =~= ns + ":"@ + rest);
    assert(forall|j: int| 0 <= j < ns.len() ==> ns[j] != ':');
    assert(title[ns.len() as int] == ':');
    lemma_split_first_piece(title, ':', ns.len() as int);
    assert(title.subrange(0, ns.len() as int) =~= ns);
}

/// Whether a host and path name an article.
pub fn matches_article(host: Option<&str>, path: &str) -> (r: bool)
    ensures
        r == wiki_shape(
            match host {
                Some(h) => Some(h@),
                None => None,
            },
            path@,
        ),
{
    let h = match host {
        Some(h) => h,
        None => "",
    };
    proof {
        reveal_strlit("");
        assert(""@ =~= Seq::<char>::empty());
        reveal_strlit("/wiki/");
    }
    if !ends_with(h, ".wikipedia.org") {
        return false;
    }
    if !starts_with(path, "/wiki/") {
        return false;
    }
    let cs = crate::text::chars_of(path);
    let title = crate::text::string_of_range(&cs, 6, cs.len());
    if title.as_str().is_empty() {
        return false;
    }
    let pieces = split_char(title.as_str(), ':');
    proof {
        crate::text::lemma_split_nonempty(title@, ':');
    }
    !is_excluded_ns(pieces[0].as_str())
}

impl WikipediaExtractor {
    pub fn matches(&self, url: &str) -> (r: bool)
        ensures
            r == wiki_url_matches(url@),
    {
        match parse_url(url) {
            Some(p) => {
                let host = match &p.host {
                    Some(h) => Some(h.as_str()),
                    None => None,
                };
                matches_article(host, p.path.as_str())
            },
            None => false,
        }
    }

    pub fn kind(&self) -> (k: SourceType)
        ensures
            k == SourceType::Wikipedia,
    {
        SourceType::Wikipedia
    }
}

/// The request for an article: full plain-text body, redirects followed.
pub open spec fn spec_api_url(lang: Seq<char>, title: Seq<char>) -> Seq<char> {
    "https://"@ + lang + ".wikipedia.org/w/api.php?action=query&prop=extracts&explaintext=true&exintro=false&titles="@
        + title + "&format=json&redirects=1"@
}

/// The language and API URL for an article at a host and path. The title is
/// the path after its first six bytes (`/wiki/`), so the path must have a
/// character boundary there.
pub fn wiki_request(host: Option<&str>, path: &str) -> (r: (String, String))
    requires
        vstd::utf8::is_char_boundary(path.spec_bytes(), 6),
    ensures
        ({
            let h = match host {
                Some(h) => h@,
                None => Seq::empty(),
            };
            let title = vstd::utf8::decode_utf8(path.spec_bytes().subrange(6, path.spec_bytes().len() as int));
            &&& r.0@ == spec_lang(h)
            &&& r.1@ == spec_api_url(spec_lang(h), title)
        }),
{
    let h = match host {
        Some(h) => h,
        None => "",
    };
    proof {
        reveal_strlit("");
        assert(""@ =~= Seq::<char>::empty());
    }
    let lang = lang_from_host(h);
    let (_, title) = path.split_at(6);
    proof {
        vstd::utf8::encode_utf8_decode_utf8(title@);
    }
    let mut u = owned("https://");
    append(&mut u, lang.as_str());
    append(&mut u, ".wikipedia.org/w/api.php?action=query&prop=extracts&explaintext=true&exintro=false&titles=");
    append(&mut u, title);
    append(&mut u, "&format=json&redirects=1");
    (lang, u)
}

/// The language and API URL for the article a URL names, when the text
/// parses as a URL whose path has a character boundary after its first six
/// bytes; `None` otherwise.
pub fn wiki_request_for_url(url: &str) -> (r: Option<(String, String)>)
    ensures
        r is Some <==> url_accepted(url@) && vstd::utf8::is_char_boundary(
            vstd::utf8::encode_utf8(url_path(url@)),
            6,
        ),
        r matches Some(p) ==> {
            let h = match url_host(url@) {
                Some(h) => h,
                None => Seq::empty(),
            };
            let bytes = vstd::utf8::encode_utf8(url_path(url@));
            let title = vstd::utf8::decode_utf8(bytes.subrange(6, bytes.len() as int));
            &&& p.0@ == spec_lang(h)
            &&& p.1@ == spec_api_url(spec_lang(h), title)
        },
{
    match parse_url(url) {
        Some(p) => {
            if !p.path.as_str().is_char_boundary(6) {
                return None;
            }
            match &p.host {
                Some(h) => Some(wiki_request(Some(h.as_str()), p.path.as_str())),
                None => Some(wiki_request(None, p.path.as_str())),
            }
        },
        None => None,
    }
}

/// The first page of a query response.
pub open spec fn first_page(json: JsonV) -> Option<Option<JsonV>> {
    match json.get("query"@) {
        Some(q) => match q.get("pages"@) {
            Some(JsonV::Object(m)) => Some(if m.len() > 0 {
                Some(m[0].1)
            } else {
                None
            }),
            _ => None,
        },
        None => None,
    }
}

pub open spec fn page_text(page: JsonV, k: Seq<char>) -> Seq<char> {
    match page.get(k) {
        Some(JsonV::Str(s)) => s,
        _ => Seq::empty(),
    }
}

/// An article from a query response: the first page's title and extract;
/// an error when there are no pages or the extract is blank.
pub fn parse_article(json: &Json, lang: String) -> (r: Result<WikiRaw, GrokSearchError>)
    ensures
        match first_page(json@) {
            None => r matches Err(e) && e is Provider && e->Provider_0@ == "wikipedia: no pages"@,
            Some(None) => r matches Err(e) && e is Provider && e->Provider_0@ == "wikipedia: empty pages"@,
            Some(Some(page)) => if trim_ws(page_text(page, "extract"@)).len() == 0 {
                r matches Err(e) && e is Provider && e->Provider_0@ == "wikipedia: empty extract"@
            } else {
                r matches Ok(raw) && raw.title@ == page_text(page, "title"@) && raw.extract@
                    == page_text(page, "extract"@) && raw.lang@ == lang@
            },
        },
{
    let pages = match json.get("query") {
        Some(q) => match q.get("pages") {
            Some(p) => p.as_object(),
            None => None,
        },
        None => None,
    };
    let pages = match pages {
        Some(p) => p,
        None => {
            return Err(GrokSearchError::Provider(owned("wikipedia: no pages")));
        },
    };
    proof {
        crate::json::lemma_members_view(pages@);
    }
    if pages.len() == 0 {
        return Err(GrokSearchError::Provider(owned("wikipedia: empty pages")));
    }
    let page = &pages[0].1;
    let title = match page.get("title") {
        Some(t) => match t.as_str() {
            Some(s) => owned(s),
            None => String::new(),
        },
        None => String::new(),
    };
    let extract = match page.get("extract") {
        Some(t) => match t.as_str() {
            Some(s) => owned(s),
            None => String::new(),
        },
        None => String::new(),
    };
    let t = trim(extract.as_str());
    if t.as_str().is_empty() {
        return Err(GrokSearchError::Provider(owned("wikipedia: empty extract")));
    }
    Ok(WikiRaw { title, extract, lang })
}

/// The Markdown page of an article.
pub open spec fn spec_render(raw: WikiRaw) -> Seq<char> {
    "# "@ + raw.title@ + "\n\n"@ + raw.extract@ + "\n"@
}

pub fn render(raw: &WikiRaw, _caps: &SourceCaps) -> (r: String)
    ensures
        r@ == spec_render(*raw),
{
    let mut out = owned("# ");
    append(&mut out, raw.title.as_str());
    append(&mut out, "\n\n");
    append(&mut out, raw.extract.as_str());
    append(&mut out, "\n");
    out
}

} // verus!
