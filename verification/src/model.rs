//! Values that flow between the tools and the providers.
use vstd::prelude::*;

use crate::config::opt_str;

verus! {

/// A cited or discovered source, with the provider that produced it.
#[derive(Debug, Clone)]
pub struct Source {
    pub url: String,
    pub provider: String,
    pub title: Option<String>,
    pub description: Option<String>,
    pub published_date: Option<String>,
}

/// The view of a source.
pub struct SourceV {
    pub url: Seq<char>,
    pub provider: Seq<char>,
    pub title: Option<Seq<char>>,
    pub description: Option<Seq<char>>,
    pub published_date: Option<Seq<char>>,
}

pub open spec fn source_view(s: Source) -> SourceV {
    SourceV {
        url: s.url@,
        provider: s.provider@,
        title: opt_str(s.title),
        description: opt_str(s.description),
        published_date: opt_str(s.published_date),
    }
}

pub open spec fn sources_view(s: Seq<Source>) -> Seq<SourceV> {
    s.map_values(|x: Source| source_view(x))
}

impl Source {
    /// A source with only its URL and provider.
    pub fn new(url: &str, provider: &str) -> (s: Source)
        ensures
            source_view(s) == (SourceV {
                url: url@,
                provider: provider@,
                title: None,
                description: None,
                published_date: None,
            }),
    {
        Source {
            url: url.to_owned(),
            provider: provider.to_owned(),
            title: None,
            description: None,
            published_date: None,
        }
    }

    pub fn with_title(self, title: &str) -> (s: Source)
        ensures
            source_view(s) == (SourceV { title: Some(title@), ..source_view(self) }),
    {
        Source { title: Some(title.to_owned()), ..self }
    }

    pub fn with_description(self, description: &str) -> (s: Source)
        ensures
            source_view(s) == (SourceV { description: Some(description@), ..source_view(self) }),
    {
        Source { description: Some(description.to_owned()), ..self }
    }

    pub fn with_published_date(self, date: &str) -> (s: Source)
        ensures
            source_view(s) == (SourceV { published_date: Some(date@), ..source_view(self) }),
    {
        Source { published_date: Some(date.to_owned()), ..self }
    }
}

/// Restrictions on supplemental search results.
#[derive(Debug, Clone, Default)]
pub struct SearchFilters {
    pub recency_days: Option<u32>,
    pub include_domains: Vec<String>,
    pub exclude_domains: Vec<String>,
}


/// The arguments of a `web_search` call.
#[derive(Debug, Clone)]
pub struct WebSearchInput {
    pub query: String,
    pub platform: Option<String>,
    pub model: Option<String>,
    pub extra_sources: Option<usize>,
    pub recency_days: Option<u32>,
    pub include_domains: Vec<String>,
    pub exclude_domains: Vec<String>,
    pub include_content: Option<bool>,
}

/// The view of `web_search` arguments.
pub struct WebSearchInputV {
    pub query: Seq<char>,
    pub platform: Option<Seq<char>>,
    pub model: Option<Seq<char>>,
    pub extra_sources: Option<usize>,
    pub recency_days: Option<u32>,
    pub include_domains: Seq<Seq<char>>,
    pub exclude_domains: Seq<Seq<char>>,
    pub include_content: Option<bool>,
}

/// The views of a list of strings.
pub open spec fn strings_view(v: Seq<String>) -> Seq<Seq<char>> {
    v.map_values(|s: String| s@)
}

impl View for WebSearchInput {
    type V = WebSearchInputV;

    open spec fn view(&self) -> WebSearchInputV {
        WebSearchInputV {
            query: self.query@,
            platform: opt_str(self.platform),
            model: opt_str(self.model),
            extra_sources: self.extra_sources,
            recency_days: self.recency_days,
            include_domains: strings_view(self.include_domains@),
            exclude_domains: strings_view(self.exclude_domains@),
            include_content: self.include_content,
        }
    }
}

} // verus!
