use grok_search_rs::cli::setup_guide;
use grok_search_rs::error::GrokSearchError;
use grok_search_rs::json::{Json, JsonNumber};
use grok_search_rs::mcp::{
    error_reply, error_response, handle_message, handle_request, initialize_result,
    parse_string_array, parse_tool_call, success_response, tool_response, tools_list,
    web_map_output, Handled, ToolCall,
};
use grok_search_rs::model::Source;

fn s(x: &str) -> Json {
    Json::Str(x.to_string())
}

fn n(x: u64) -> Json {
    Json::Number(JsonNumber::PosInt(x))
}

fn obj(members: Vec<(&str, Json)>) -> Json {
    Json::Object(
        members
            .into_iter()
            .map(|(k, v)| (k.to_string(), v))
            .collect(),
    )
}

fn text<'a>(j: &'a Json, key: &str) -> Option<&'a str> {
    j.get(key).and_then(|v| v.as_str())
}

#[test]
fn tools_list_descriptions_guide_routing() {
    let listed = tools_list();
    let tools = listed.get("tools").and_then(|t| t.as_array()).expect("tools array");

    let desc = |name: &str| -> String {
        tools
            .iter()
            .find(|t| text(t, "name") == Some(name))
            .unwrap_or_else(|| panic!("tool {name} missing"))
            .get("description")
            .and_then(|d| d.as_str())
            .unwrap_or_else(|| panic!("tool {name} description not a string"))
            .to_string()
    };

    let web_search = desc("web_search");
    assert!(web_search.contains("discovery"), "web_search: {web_search}");
    assert!(
        web_search.contains("don't have a specific URL"),
        "web_search: {web_search}"
    );
    assert!(
        !web_search.contains("read a single page"),
        "web_search must not claim the single-page-read role: {web_search}"
    );

    let web_fetch = desc("web_fetch");
    assert!(web_fetch.contains("specific URL"), "web_fetch: {web_fetch}");
    assert!(web_fetch.contains("read a single page"), "web_fetch: {web_fetch}");
    assert!(web_fetch.contains("GitHub issue"), "web_fetch: {web_fetch}");
    assert!(
        web_fetch.contains("StackOverflow") || web_fetch.contains("StackExchange"),
        "web_fetch: {web_fetch}"
    );
    assert!(web_fetch.contains("arXiv"), "web_fetch: {web_fetch}");
    assert!(web_fetch.contains("Wikipedia"), "web_fetch: {web_fetch}");
    assert!(web_fetch.contains("web_search"), "web_fetch: {web_fetch}");

    let get_sources = desc("get_sources");
    assert!(get_sources.contains("session_id"), "get_sources: {get_sources}");
    assert!(get_sources.contains("new search"), "get_sources: {get_sources}");
}

#[test]
fn tools_list_schemas_name_required_arguments() {
    let listed = tools_list();
    let tools = listed.get("tools").and_then(|t| t.as_array()).expect("tools");
    let names: Vec<&str> = tools.iter().filter_map(|t| text(t, "name")).collect();
    assert_eq!(names, vec!["web_search", "get_sources", "web_fetch", "web_map", "doctor"]);
    let schema = tools[0].get("inputSchema").expect("schema");
    let required = schema.get("required").and_then(|r| r.as_array()).expect("required");
    assert_eq!(required[0].as_str(), Some("query"));
    let props = schema.get("properties").expect("properties");
    let content = props.get("include_content").expect("include_content");
    assert_eq!(content.get("default").and_then(|d| d.as_bool()), Some(true));
    assert_eq!(
        props.get("recency_days").and_then(|p| p.get("minimum")).and_then(|m| m.as_u64()),
        Some(1)
    );
    assert!(tools[4].get("inputSchema").and_then(|s| s.get("required")).is_none());
}

#[test]
fn initialized_notification_does_not_emit_response() {
    let request = obj(vec![
        ("jsonrpc", s("2.0")),
        ("method", s("notifications/initialized")),
        ("params", obj(vec![])),
    ]);
    assert!(matches!(handle_message(&request, "0.1.0"), Handled::Notification));
}

#[test]
fn ping_request_gets_empty_success_response() {
    let request = obj(vec![("jsonrpc", s("2.0")), ("id", n(7)), ("method", s("ping"))]);
    let response = match handle_request(&request, "0.1.0").expect("ping response") {
        Handled::Response(r) => r,
        other => panic!("unexpected: {other:?}"),
    };
    assert_eq!(response.get("id").and_then(|i| i.as_u64()), Some(7));
    match response.get("result") {
        Some(Json::Object(m)) => assert!(m.is_empty()),
        other => panic!("unexpected: {other:?}"),
    }
}

#[test]
fn web_map_returns_url_sources_without_search_metadata() {
    let request = obj(vec![
        ("jsonrpc", s("2.0")),
        ("id", n(9)),
        ("method", s("tools/call")),
        (
            "params",
            obj(vec![
                ("name", s("web_map")),
                (
                    "arguments",
                    obj(vec![("url", s("https://example.com")), ("max_results", n(2))]),
                ),
            ]),
        ),
    ]);
    let (id, url, max_results) = match handle_message(&request, "0.1.0") {
        Handled::Tool(id, ToolCall::WebMap(url, max)) => (id, url, max),
        other => panic!("unexpected: {other:?}"),
    };
    assert_eq!(max_results, 2);
    let sources: Vec<Source> = (0..max_results)
        .map(|i| {
            Source::new(&format!("https://example.com/page-{i}"), "tavily")
                .with_title("Page")
                .with_description("text")
        })
        .collect();
    let output = web_map_output(&url, &sources);
    let response = tool_response(id, output, "{}".to_string());
    let output = response
        .get("result")
        .and_then(|r| r.get("structuredContent"))
        .expect("structured");
    let listed = output.get("sources").and_then(|s| s.as_array()).expect("sources");
    assert_eq!(output.get("sources_count").and_then(|c| c.as_u64()), Some(2));
    assert_eq!(text(&listed[0], "url"), Some("https://example.com/page-0"));
    assert_eq!(text(&listed[0], "provider"), Some("tavily"));
    assert!(listed[0].get("title").is_none());
    assert!(listed[0].get("description").is_none());
    assert!(listed[0].get("published_date").is_none());
    assert_eq!(text(output, "url"), Some("https://example.com"));
    assert_eq!(response.get("id").and_then(|i| i.as_u64()), Some(9));
}

#[test]
fn tool_response_wraps_text_and_structured_content() {
    let response = tool_response(n(3), obj(vec![("a", n(1))]), "{\"a\":1}".to_string());
    let result = response.get("result").expect("result");
    let content = result.get("content").and_then(|c| c.as_array()).expect("content");
    assert_eq!(text(&content[0], "type"), Some("text"));
    assert_eq!(text(&content[0], "text"), Some("{\"a\":1}"));
    assert_eq!(
        result.get("structuredContent").and_then(|c| c.get("a")).and_then(|a| a.as_u64()),
        Some(1)
    );
    assert_eq!(text(&response, "jsonrpc"), Some("2.0"));
}

#[test]
fn initialize_reports_protocol_and_version() {
    let request = obj(vec![("id", n(1)), ("method", s("initialize"))]);
    let response = match handle_message(&request, "9.9.9") {
        Handled::Response(r) => r,
        other => panic!("unexpected: {other:?}"),
    };
    let result = response.get("result").expect("result");
    assert_eq!(text(result, "protocolVersion"), Some("2024-11-05"));
    let info = result.get("serverInfo").expect("info");
    assert_eq!(text(info, "name"), Some("grok-search-rs"));
    assert_eq!(text(info, "version"), Some("9.9.9"));
    assert!(result.get("capabilities").and_then(|c| c.get("tools")).is_some());
    assert_eq!(
        text(initialize_result("1").get("serverInfo").expect("info"), "version"),
        Some("1")
    );
}

fn error_of(request: &Json) -> (i64, String, Option<u64>) {
    match handle_message(request, "0.1.0") {
        Handled::Response(r) => {
            let e = r.get("error").expect("error");
            (
                e.get("code").and_then(|c| c.as_i64()).expect("code"),
                text(e, "message").expect("message").to_string(),
                r.get("id").and_then(|i| i.as_u64()),
            )
        }
        other => panic!("unexpected: {other:?}"),
    }
}

#[test]
fn failing_requests_get_error_responses() {
    assert_eq!(
        error_of(&obj(vec![("id", n(1))])),
        (-32602, "invalid params: missing method".to_string(), Some(1))
    );
    assert_eq!(
        error_of(&obj(vec![("id", n(2)), ("method", s("resources/list"))])),
        (-32004, "not found: unsupported method: resources/list".to_string(), Some(2))
    );
    assert_eq!(
        error_of(&obj(vec![("id", n(3)), ("method", s("tools/call"))])),
        (-32602, "invalid params: missing tool name".to_string(), Some(3))
    );
    assert_eq!(
        error_of(&obj(vec![
            ("id", n(4)),
            ("method", s("tools/call")),
            ("params", obj(vec![("name", s("nope"))])),
        ])),
        (-32004, "not found: unknown tool: nope".to_string(), Some(4))
    );
    assert_eq!(
        error_of(&obj(vec![
            ("id", n(5)),
            ("method", s("tools/call")),
            ("params", obj(vec![("name", s("web_search"))])),
        ])),
        (-32602, "invalid params: web_search.query is required".to_string(), Some(5))
    );
    let null_id = obj(vec![("id", Json::Null), ("method", s("x"))]);
    match handle_message(&null_id, "0.1.0") {
        Handled::Response(r) => assert!(matches!(r.get("id"), Some(Json::Null))),
        other => panic!("unexpected: {other:?}"),
    }
}

#[test]
fn tool_arguments_are_read() {
    let args = obj(vec![
        ("query", s("rust verus")),
        ("platform", s("github")),
        ("extra_sources", n(4)),
        ("recency_days", n(0)),
        ("include_domains", Json::Array(vec![s(" a.com "), s(""), n(3), s("b.org")])),
        ("include_content", Json::Bool(false)),
    ]);
    match parse_tool_call("web_search", &args).expect("call") {
        ToolCall::WebSearch(input) => {
            assert_eq!(input.query, "rust verus");
            assert_eq!(input.platform.as_deref(), Some("github"));
            assert_eq!(input.model, None);
            assert_eq!(input.extra_sources, Some(4));
            assert_eq!(input.recency_days, None);
            assert_eq!(input.include_domains, vec!["a.com".to_string(), "b.org".to_string()]);
            assert!(input.exclude_domains.is_empty());
            assert_eq!(input.include_content, Some(false));
        }
        other => panic!("unexpected: {other:?}"),
    }
    match parse_tool_call("web_fetch", &obj(vec![("url", s("https://x")), ("max_chars", n(0))])) {
        Ok(ToolCall::WebFetch(url, None)) => assert_eq!(url, "https://x"),
        other => panic!("unexpected: {other:?}"),
    }
    match parse_tool_call("web_fetch", &obj(vec![("url", s("https://x")), ("max_chars", n(50))])) {
        Ok(ToolCall::WebFetch(_, Some(50))) => {}
        other => panic!("unexpected: {other:?}"),
    }
    match parse_tool_call("web_map", &obj(vec![("url", s("https://x"))])) {
        Ok(ToolCall::WebMap(_, 10)) => {}
        other => panic!("unexpected: {other:?}"),
    }
    match parse_tool_call("get_sources", &obj(vec![("session_id", s("abc"))])) {
        Ok(ToolCall::GetSources(id)) => assert_eq!(id, "abc"),
        other => panic!("unexpected: {other:?}"),
    }
    assert!(matches!(parse_tool_call("doctor", &Json::Null), Ok(ToolCall::Doctor)));
    match parse_tool_call("get_sources", &obj(vec![("session_id", n(1))])) {
        Err(GrokSearchError::InvalidParams(m)) => {
            assert_eq!(m, "get_sources.session_id is required")
        }
        other => panic!("unexpected: {other:?}"),
    }
    match parse_tool_call("web_map", &obj(vec![])) {
        Err(GrokSearchError::InvalidParams(m)) => assert_eq!(m, "web_map.url is required"),
        other => panic!("unexpected: {other:?}"),
    }
    match parse_tool_call("web_fetch", &obj(vec![])) {
        Err(GrokSearchError::InvalidParams(m)) => assert_eq!(m, "web_fetch.url is required"),
        other => panic!("unexpected: {other:?}"),
    }
}

#[test]
fn string_arrays_keep_trimmed_nonblank_strings() {
    let arr = Json::Array(vec![s("x"), s("  "), Json::Bool(true), s(" y ")]);
    assert_eq!(parse_string_array(Some(&arr)), vec!["x".to_string(), "y".to_string()]);
    assert!(parse_string_array(Some(&s("x"))).is_empty());
    assert!(parse_string_array(None).is_empty());
}

#[test]
fn responses_have_the_json_rpc_shape() {
    let ok = success_response(n(1), s("r"));
    assert_eq!(text(&ok, "jsonrpc"), Some("2.0"));
    assert_eq!(text(&ok, "result"), Some("r"));
    let err = error_response(Json::Null, -32700, "parse error: eof".to_string());
    let e = err.get("error").expect("error");
    assert_eq!(e.get("code").and_then(|c| c.as_i64()), Some(-32700));
    assert_eq!(text(e, "message"), Some("parse error: eof"));
    let reply = error_reply(n(8), &GrokSearchError::Timeout("slow".to_string()));
    let e = reply.get("error").expect("error");
    assert_eq!(e.get("code").and_then(|c| c.as_i64()), Some(-32002));
    assert_eq!(text(e, "message"), Some("upstream timeout: slow"));
}

#[test]
fn error_codes_and_messages() {
    let cases = [
        (GrokSearchError::MissingConfig("TAVILY_API_KEY"), -32003, "missing required config: TAVILY_API_KEY"),
        (GrokSearchError::InvalidParams("x".into()), -32602, "invalid params: x"),
        (GrokSearchError::NotFound("x".into()), -32004, "not found: x"),
        (GrokSearchError::Timeout("x".into()), -32002, "upstream timeout: x"),
        (GrokSearchError::Provider("x".into()), -32001, "provider error: x"),
        (GrokSearchError::OAuth("x".into()), -32005, "oauth error: x"),
        (GrokSearchError::Parse("x".into()), -32700, "parse error: x"),
    ];
    for (err, code, message) in cases {
        assert_eq!(err.code(), code);
        assert_eq!(err.message(), message);
    }
}

#[test]
fn setup_guide_mentions_config_only_when_missing() {
    let with_tip = setup_guide(Some("/home/a/.config/grok-search-rs/config.toml"));
    assert!(with_tip.starts_with("grok-search-rs is an MCP server."));
    assert!(with_tip.contains("# scaffold /home/a/.config/grok-search-rs/config.toml\n"));
    assert!(with_tip.contains("$EDITOR /home/a/.config/grok-search-rs/config.toml"));
    assert!(with_tip.ends_with("Issues:  https://github.com/Episkey-G/GrokSearch-rs/issues\n"));
    let without = setup_guide(None);
    assert!(!without.contains("Tip:"));
    assert!(without.contains("GROK_SEARCH_API_KEY"));
}
