use grok_search_rs::error::GrokSearchError;
use grok_search_rs::json::Json;
use grok_search_rs::sources::github::{
    assemble_github, comments_url, github_request, parse_comments, parse_review_bodies,
    per_page, pr_review_comments_url, pr_reviews_url, render as gh_render, sort_comments,
    GithubComment, GithubIssueExtractor, GithubPrExtractor, GithubRaw,
};
use grok_search_rs::sources::stackexchange::{
    answers_pagesize, assemble_question, is_se_host, parse_answers, ranked_order,
    render as se_render, se_request, site_from_host, SeAnswer, SeComment, SeRaw,
    StackExchangeExtractor,
};
use grok_search_rs::sources::wikipedia::{
    lang_from_host, parse_article, render as wiki_render, wiki_request, WikiRaw,
    WikipediaExtractor,
};
use grok_search_rs::sources::{SourceCaps, SourceType};

fn s(x: &str) -> Json {
    Json::Str(x.to_string())
}

fn obj(members: Vec<(&str, Json)>) -> Json {
    Json::Object(
        members
            .into_iter()
            .map(|(k, v)| (k.to_string(), v))
            .collect(),
    )
}

fn comment(author: &str, body: &str, at: &str) -> GithubComment {
    GithubComment {
        author: author.to_string(),
        body: body.to_string(),
        created_at: at.to_string(),
    }
}

fn issue_fixture() -> GithubRaw {
    GithubRaw {
        title: "Fix segfault in parser".to_string(),
        state: "open".to_string(),
        merged: None,
        author: "octocat".to_string(),
        body: "The parser crashes on empty input.".to_string(),
        labels: vec!["bug".to_string(), "good first issue".to_string()],
        comments: vec![
            comment("alice", "I can reproduce this.", "2024-01-01T00:00:00Z"),
            comment("bob", "Stack trace attached.", "2024-01-02T00:00:00Z"),
            comment("carol", "Fixed in #43.", "2024-01-03T00:00:00Z"),
        ],
        is_pr: false,
    }
}

fn pr_fixture() -> GithubRaw {
    GithubRaw {
        title: "Handle empty input in parser".to_string(),
        state: "closed".to_string(),
        merged: Some(true),
        author: "carol".to_string(),
        body: "Fixes #42.".to_string(),
        labels: vec![],
        comments: vec![comment("alice", "Approved", "2024-01-04T00:00:00Z")],
        is_pr: true,
    }
}

fn answer(accepted: bool, score: i64, author: &str, body: &str, comments: Vec<SeComment>) -> SeAnswer {
    SeAnswer {
        is_accepted: accepted,
        score,
        author: author.to_string(),
        body: body.to_string(),
        comments,
    }
}

fn se_comment(author: &str, body: &str) -> SeComment {
    SeComment {
        author: author.to_string(),
        body: body.to_string(),
    }
}

fn se_fixture() -> SeRaw {
    SeRaw {
        title: "How do I reverse a list in Python?".to_string(),
        body: "I have a list and want it backwards.".to_string(),
        site: "stackoverflow".to_string(),
        answers: vec![
            answer(false, 12, "bob", "Use a loop.", vec![se_comment("erin", "slow")]),
            answer(
                true,
                9,
                "alice",
                "Use `reversed(xs)`.",
                vec![se_comment("carol", "Also `list[::-1]`")],
            ),
            answer(false, 4, "dave", "Call `xs.reverse()`.", vec![se_comment("frank", "in place")]),
            answer(false, 1, "gina", "Sort descending.", vec![]),
        ],
    }
}

#[test]
fn comments_url_requests_one_more_than_cap() {
    let u = comments_url("o", "r", "5", 30);
    assert_eq!(
        u,
        "https://api.github.com/repos/o/r/issues/5/comments?per_page=31"
    );
}

#[test]
fn comments_url_clamps_per_page_to_github_max() {
    let u = comments_url("o", "r", "5", 250);
    assert!(u.ends_with("?per_page=100"), "got: {u}");
}

#[test]
fn pr_endpoints_target_pulls_paths() {
    assert!(pr_review_comments_url("o", "r", "7", 30)
        .starts_with("https://api.github.com/repos/o/r/pulls/7/comments?per_page=31"));
    assert!(pr_reviews_url("o", "r", "7", 30)
        .starts_with("https://api.github.com/repos/o/r/pulls/7/reviews?per_page=31"));
}

#[test]
fn parse_review_bodies_skips_empty_and_maps_submitted_at() {
    let json = Json::Array(vec![
        obj(vec![
            ("user", obj(vec![("login", s("alice"))])),
            ("body", s("needs changes")),
            ("submitted_at", s("2024-01-02T00:00:00Z")),
        ]),
        obj(vec![
            ("user", obj(vec![("login", s("bob"))])),
            ("body", s("   ")),
            ("submitted_at", s("2024-01-03T00:00:00Z")),
        ]),
        obj(vec![
            ("user", obj(vec![("login", s("carol"))])),
            ("body", s("")),
            ("submitted_at", s("2024-01-04T00:00:00Z")),
        ]),
    ]);
    let out = parse_review_bodies(&json);
    assert_eq!(out.len(), 1);
    assert_eq!(out[0].author, "alice");
    assert_eq!(out[0].created_at, "2024-01-02T00:00:00Z");
}

#[test]
fn parse_comments_maps_user_login_and_timestamps() {
    let json = Json::Array(vec![obj(vec![
        ("user", obj(vec![("login", s("dave"))])),
        ("body", s("hi")),
        ("created_at", s("2024-01-01T00:00:00Z")),
    ])]);
    let out = parse_comments(&json);
    assert_eq!(out.len(), 1);
    assert_eq!(out[0].author, "dave");
    assert_eq!(out[0].body, "hi");
    assert_eq!(out[0].created_at, "2024-01-01T00:00:00Z");
}

#[test]
fn parse_comments_of_a_non_array_is_empty() {
    assert!(parse_comments(&obj(vec![("message", s("Not Found"))])).is_empty());
    let missing = parse_comments(&Json::Array(vec![obj(vec![])]));
    assert_eq!(missing.len(), 1);
    assert_eq!(missing[0].author, "");
    assert_eq!(missing[0].body, "");
}

#[test]
fn site_from_host_preserves_meta_stackexchange() {
    assert_eq!(site_from_host("meta.stackexchange.com"), "meta.stackexchange");
}

#[test]
fn site_from_host_strips_regular_stackexchange_subdomain() {
    assert_eq!(site_from_host("math.stackexchange.com"), "math");
    assert_eq!(site_from_host("stackoverflow.com"), "stackoverflow");
}

#[test]
fn site_from_host_maps_per_site_meta_hosts() {
    assert_eq!(site_from_host("meta.stackoverflow.com"), "meta.stackoverflow");
    assert_eq!(site_from_host("meta.serverfault.com"), "meta.serverfault");
    assert_eq!(site_from_host("meta.askubuntu.com"), "meta.askubuntu");
}

#[test]
fn is_se_host_accepts_per_site_meta_hosts() {
    assert!(is_se_host("meta.stackoverflow.com"));
    assert!(is_se_host("meta.superuser.com"));
    assert!(is_se_host("meta.stackexchange.com"));
    assert!(!is_se_host("example.com"));
}

#[test]
fn answers_pagesize_requests_one_more_than_cap_capped_at_100() {
    assert_eq!(answers_pagesize(5), 6);
    assert_eq!(answers_pagesize(250), 100);
}

#[test]
fn per_page_saturates_at_the_largest_count() {
    assert_eq!(per_page(usize::MAX), 100);
    assert_eq!(per_page(0), 1);
    assert_eq!(answers_pagesize(usize::MAX), 100);
}

#[test]
fn github_issue_render_shows_title_and_state() {
    let out = gh_render(&issue_fixture(), &SourceCaps::default());
    assert!(out.contains("Fix segfault in parser"), "title: {out}");
    assert!(out.contains("open"), "state: {out}");
}

#[test]
fn github_issue_render_shows_labels() {
    let out = gh_render(&issue_fixture(), &SourceCaps::default());
    assert!(out.contains("bug"));
    assert!(out.contains("good first issue"));
}

#[test]
fn github_issue_render_folds_comments_at_cap() {
    let caps = SourceCaps {
        max_answers: 5,
        max_comments: 2,
    };
    let out = gh_render(&issue_fixture(), &caps);
    assert!(out.contains("还有 1 条评论"), "fold: {out}");
}

#[test]
fn github_pr_render_shows_merged_state() {
    let out = gh_render(&pr_fixture(), &SourceCaps::default());
    assert!(out.contains("merged"), "pr: {out}");
}

#[test]
fn github_render_exact_layout() {
    let raw = GithubRaw {
        title: "T".to_string(),
        state: "closed".to_string(),
        merged: Some(false),
        author: "a".to_string(),
        body: "B".to_string(),
        labels: vec!["x".to_string(), "y".to_string()],
        comments: vec![comment("c", "hello", "2024")],
        is_pr: true,
    };
    let out = gh_render(&raw, &SourceCaps::default());
    assert_eq!(
        out,
        "# T\n\n**State:** closed (closed, not merged)\n**Author:** a\n**Labels:** x, y\n\nB\n\n## Comments\n\n### Comment by c (2024)\n\nhello\n\n"
    );
    let issue = GithubRaw { is_pr: false, labels: vec![], comments: vec![], ..raw };
    assert_eq!(
        gh_render(&issue, &SourceCaps::default()),
        "# T\n\n**State:** closed\n**Author:** a\n\nB\n\n## Comments\n\n"
    );
}

#[test]
fn github_matcher_strict_positive_and_negative() {
    let issue = GithubIssueExtractor { token: None };
    let pr = GithubPrExtractor { token: None };

    assert!(issue.matches("https://github.com/owner/repo/issues/42"));
    assert!(pr.matches("https://github.com/owner/repo/pull/7"));

    for neg in [
        "https://github.com/",
        "https://github.com/owner/repo/issues",
        "https://github.com/owner/repo/pull/7/files",
        "https://gist.github.com/user/abc",
        "https://github.com/owner/repo/discussions/1",
        "https://github.com/owner/repo/blob/main/README.md",
    ] {
        assert!(!issue.matches(neg), "issue should reject {neg}");
        assert!(!pr.matches(neg), "pr should reject {neg}");
    }
    assert!(!issue.matches("not a url"));
    assert_eq!(issue.kind(), SourceType::GithubIssue);
    assert_eq!(pr.kind(), SourceType::GithubPull);
}

#[test]
fn github_request_builds_all_endpoints() {
    let req = github_request("/o/r/pull/7", Some("tok"), true, 30).expect("shape");
    assert_eq!(req.main_url, "https://api.github.com/repos/o/r/pulls/7");
    assert_eq!(
        req.comments_url,
        "https://api.github.com/repos/o/r/issues/7/comments?per_page=31"
    );
    assert_eq!(
        req.review_comments_url.as_deref(),
        Some("https://api.github.com/repos/o/r/pulls/7/comments?per_page=31")
    );
    assert_eq!(
        req.reviews_url.as_deref(),
        Some("https://api.github.com/repos/o/r/pulls/7/reviews?per_page=31")
    );
    assert_eq!(req.authorization.as_deref(), Some("Bearer tok"));

    let issue = github_request("/o/r/issues/5", None, false, 2).expect("shape");
    assert_eq!(issue.main_url, "https://api.github.com/repos/o/r/issues/5");
    assert_eq!(issue.review_comments_url, None);
    assert_eq!(issue.authorization, None);

    match github_request("/o/r", None, false, 2) {
        Err(GrokSearchError::Parse(m)) => assert_eq!(m, "github: unexpected URL shape"),
        other => panic!("unexpected: {other:?}"),
    }
}

#[test]
fn github_assembles_pull_request_thread_in_time_order() {
    let main = obj(vec![
        ("title", s("Add feature")),
        ("state", s("closed")),
        ("merged", Json::Bool(true)),
        ("user", obj(vec![("login", s("octo"))])),
        ("body", s("Body")),
        (
            "labels",
            Json::Array(vec![obj(vec![("name", s("enhancement"))]), obj(vec![])]),
        ),
    ]);
    let c = |who: &str, body: &str, key: &str, at: &str| {
        obj(vec![
            ("user", obj(vec![("login", s(who))])),
            ("body", s(body)),
            (key, s(at)),
        ])
    };
    let conv = Json::Array(vec![c("b", "second", "created_at", "2024-01-02")]);
    let review_comments = Json::Array(vec![c("c", "third", "created_at", "2024-01-03")]);
    let reviews = Json::Array(vec![
        c("a", "first", "submitted_at", "2024-01-01"),
        c("z", "  ", "submitted_at", "2024-01-00"),
    ]);
    let raw = assemble_github(&main, &conv, Some(&review_comments), Some(&reviews), true);
    assert_eq!(raw.title, "Add feature");
    assert_eq!(raw.merged, Some(true));
    assert_eq!(raw.author, "octo");
    assert_eq!(raw.labels, vec!["enhancement".to_string()]);
    let bodies: Vec<&str> = raw.comments.iter().map(|c| c.body.as_str()).collect();
    assert_eq!(bodies, vec!["first", "second", "third"]);

    let issue = assemble_github(&main, &conv, Some(&review_comments), None, false);
    assert_eq!(issue.comments.len(), 1);
}

#[test]
fn comment_sort_is_stable_by_timestamp() {
    let out = sort_comments(vec![
        comment("x", "3", "2024-03"),
        comment("y", "1", "2024-01"),
        comment("z", "2a", "2024-02"),
        comment("w", "2b", "2024-02"),
    ]);
    let bodies: Vec<&str> = out.iter().map(|c| c.body.as_str()).collect();
    assert_eq!(bodies, vec!["1", "2a", "2b", "3"]);
}

#[test]
fn se_render_accepted_answer_marked_and_first() {
    let out = se_render(&se_fixture(), &SourceCaps::default());
    let star = out.find("★ 采纳答案").expect("accepted marker present");
    let dave = out.find("dave").expect("non-accepted author present");
    assert!(star < dave, "accepted answer must come before non-accepted");
}

#[test]
fn se_render_folds_extra_answers_at_cap() {
    let caps = SourceCaps {
        max_answers: 2,
        max_comments: 30,
    };
    let out = se_render(&se_fixture(), &caps);
    assert!(out.contains("还有 2 条"), "fold: {out}");
}

#[test]
fn se_render_accepted_answer_includes_comments() {
    let out = se_render(&se_fixture(), &SourceCaps::default());
    assert!(out.contains("Also `list[::-1]`"), "accepted comment: {out}");
}

#[test]
fn se_render_other_answers_have_no_comments() {
    let out = se_render(&se_fixture(), &SourceCaps::default());
    let after_first_non_accepted = out.split("## 答案").nth(1).unwrap_or("");
    assert!(
        !after_first_non_accepted.contains("> **"),
        "non-accepted answers must render no comments"
    );
}

#[test]
fn se_render_exact_layout_and_comment_fold() {
    let raw = SeRaw {
        title: "Q".to_string(),
        body: "B".to_string(),
        site: "stackoverflow".to_string(),
        answers: vec![
            answer(false, -2, "n", "no", vec![]),
            answer(true, 3, "y", "yes", vec![se_comment("c1", "one"), se_comment("c2", "two")]),
        ],
    };
    let caps = SourceCaps {
        max_answers: 5,
        max_comments: 1,
    };
    assert_eq!(
        se_render(&raw, &caps),
        "# Q\n\nB\n\n---\n\n## ★ 采纳答案 (↑3)\n\nyes\n\n> **c1:** one\n_还有 1 条评论_\n\n## 答案 by n (↑-2)\n\nno\n\n"
    );
}

#[test]
fn ranking_puts_accepted_first_then_score() {
    let raw = se_fixture();
    let order = ranked_order(&raw.answers);
    let authors: Vec<&str> = order.iter().map(|&i| raw.answers[i].author.as_str()).collect();
    assert_eq!(authors, vec!["alice", "bob", "dave", "gina"]);
    let ties = vec![
        answer(false, 1, "first", "", vec![]),
        answer(false, 1, "second", "", vec![]),
    ];
    assert_eq!(ranked_order(&ties), vec![0, 1]);
}

#[test]
fn se_matcher_full_network_positive() {
    let se = StackExchangeExtractor;
    for pos in [
        "https://stackoverflow.com/questions/1234/how-do-i",
        "https://serverfault.com/questions/99",
        "https://superuser.com/questions/5678",
        "https://askubuntu.com/questions/111",
        "https://mathoverflow.net/questions/222",
        "https://math.stackexchange.com/questions/333",
        "https://codereview.stackexchange.com/questions/444",
    ] {
        assert!(se.matches(pos), "should match {pos}");
    }
    assert_eq!(se.kind(), SourceType::Stackexchange);
}

#[test]
fn se_matcher_non_question_negative() {
    let se = StackExchangeExtractor;
    for neg in [
        "https://stackoverflow.com/users/42/alice",
        "https://stackoverflow.com/tags/rust",
        "https://stackoverflow.com/questions",
    ] {
        assert!(!se.matches(neg), "should reject {neg}");
    }
    assert!(!se.matches("https://example.com/questions/1"));
}

#[test]
fn se_request_targets_question_and_answers() {
    let req = se_request(Some("math.stackexchange.com"), "/questions/333/title", 5);
    assert_eq!(req.site, "math");
    assert_eq!(
        req.question_url,
        "https://api.stackexchange.com/2.3/questions/333?site=math&filter=withbody"
    );
    assert_eq!(
        req.answers_url,
        "https://api.stackexchange.com/2.3/questions/333/answers?site=math&filter=withbody&order=desc&sort=votes&pagesize=6"
    );
}

#[test]
fn se_parses_answers_and_question() {
    let answers = obj(vec![(
        "items",
        Json::Array(vec![obj(vec![
            ("is_accepted", Json::Bool(true)),
            ("score", Json::integer(-3)),
            ("owner", obj(vec![("display_name", s("ann"))])),
            ("body", s("html body")),
            ("body_markdown", s("md body")),
            (
                "comments",
                Json::Array(vec![obj(vec![
                    ("owner", obj(vec![("display_name", s("cy"))])),
                    ("body", s("note")),
                ])]),
            ),
        ])]),
    )]);
    let parsed = parse_answers(&answers);
    assert_eq!(parsed.len(), 1);
    assert!(parsed[0].is_accepted);
    assert_eq!(parsed[0].score, -3);
    assert_eq!(parsed[0].author, "ann");
    assert_eq!(parsed[0].body, "md body");
    assert_eq!(parsed[0].comments[0].author, "cy");
    assert_eq!(parsed[0].comments[0].body, "note");

    let q = obj(vec![(
        "items",
        Json::Array(vec![obj(vec![("title", s("Title")), ("body", s("Q body"))])]),
    )]);
    let raw = assemble_question(&q, Some(&answers), "stackoverflow".to_string()).expect("question");
    assert_eq!(raw.title, "Title");
    assert_eq!(raw.body, "Q body");
    assert_eq!(raw.site, "stackoverflow");
    assert_eq!(raw.answers.len(), 1);
    let no_answers = assemble_question(&q, None, "x".to_string()).expect("question");
    assert!(no_answers.answers.is_empty());

    match assemble_question(&obj(vec![("items", Json::Array(vec![]))]), None, "x".to_string()) {
        Err(GrokSearchError::Provider(m)) => assert_eq!(m, "stackexchange: empty items"),
        other => panic!("unexpected: {other:?}"),
    }
}

#[test]
fn wikipedia_matcher_and_language() {
    let w = WikipediaExtractor;
    assert!(w.matches("https://en.wikipedia.org/wiki/Rust_(programming_language)"));
    assert!(w.matches("https://de.wikipedia.org/wiki/Berlin"));
    assert!(!w.matches("https://en.wikipedia.org/wiki/Special:Random"));
    assert!(!w.matches("https://en.wikipedia.org/wiki/Talk:Berlin"));
    assert!(!w.matches("https://en.wikipedia.org/wiki/"));
    assert!(!w.matches("https://en.wikipedia.org/w/index.php"));
    assert!(!w.matches("https://wikipedia.org/wiki/Berlin"));
    assert_eq!(w.kind(), SourceType::Wikipedia);
    assert_eq!(lang_from_host("fr.wikipedia.org"), "fr");
    assert_eq!(lang_from_host("example.com"), "en");
}

#[test]
fn wikipedia_request_and_article() {
    let (lang, url) = wiki_request(Some("de.wikipedia.org"), "/wiki/Berlin");
    assert_eq!(lang, "de");
    assert_eq!(
        url,
        "https://de.wikipedia.org/w/api.php?action=query&prop=extracts&explaintext=true&exintro=false&titles=Berlin&format=json&redirects=1"
    );
    let json = obj(vec![(
        "query",
        obj(vec![(
            "pages",
            obj(vec![(
                "123",
                obj(vec![("title", s("Berlin")), ("extract", s("Capital of Germany."))]),
            )]),
        )]),
    )]);
    let raw = parse_article(&json, "de".to_string()).expect("article");
    assert_eq!(raw.title, "Berlin");
    assert_eq!(raw.lang, "de");
    assert_eq!(wiki_render(&raw, &SourceCaps::default()), "# Berlin\n\nCapital of Germany.\n");

    let err = |j: &Json| match parse_article(j, "en".to_string()) {
        Err(GrokSearchError::Provider(m)) => m,
        other => panic!("unexpected: {other:?}"),
    };
    assert_eq!(err(&obj(vec![])), "wikipedia: no pages");
    assert_eq!(
        err(&obj(vec![("query", obj(vec![("pages", obj(vec![]))]))])),
        "wikipedia: empty pages"
    );
    assert_eq!(
        err(&obj(vec![(
            "query",
            obj(vec![("pages", obj(vec![("-1", obj(vec![("extract", s(" "))]))]))])
        )])),
        "wikipedia: empty extract"
    );
    let raw = WikiRaw {
        title: "A".to_string(),
        extract: "b".to_string(),
        lang: "en".to_string(),
    };
    assert_eq!(wiki_render(&raw, &SourceCaps::default()), "# A\n\nb\n");
}

#[test]
fn requests_built_from_url_text() {
    let req = grok_search_rs::sources::github::github_request_for_url(
        "https://github.com/o/r/pull/7",
        None,
        true,
        30,
    )
    .expect("shape");
    assert_eq!(req.main_url, "https://api.github.com/repos/o/r/pulls/7");
    match grok_search_rs::sources::github::github_request_for_url("not a url", None, false, 30) {
        Err(GrokSearchError::Parse(m)) => assert_eq!(m, "github: unexpected URL shape"),
        other => panic!("unexpected: {other:?}"),
    }
    let se = grok_search_rs::sources::stackexchange::se_request_for_url(
        "https://math.stackexchange.com/questions/333/t",
        5,
    );
    assert_eq!(se.site, "math");
    assert_eq!(
        se.question_url,
        "https://api.stackexchange.com/2.3/questions/333?site=math&filter=withbody"
    );
    let (lang, url) = grok_search_rs::sources::wikipedia::wiki_request_for_url(
        "https://fr.wikipedia.org/wiki/Paris",
    )
    .expect("article");
    assert_eq!(lang, "fr");
    assert!(url.contains("&titles=Paris&"));
    assert!(grok_search_rs::sources::wikipedia::wiki_request_for_url("https://x.org/a").is_none());
    assert!(grok_search_rs::sources::wikipedia::wiki_request_for_url("nope").is_none());
}
