use grok_search_rs::error::GrokSearchError;
use grok_search_rs::json::{Json, JsonNumber};
use grok_search_rs::model::{SearchFilters, Source};
use grok_search_rs::providers::http::{
    collect_stream_delta, finish_sse_json, find_bytes, is_completion_event_name,
    is_event_stream, parse_sse_event, split_sse_event, status_error, SseReader, SseStep,
};
use grok_search_rs::providers::tavily::{
    extracted_content, is_key_scoped_status, limit_tavily_results, normalize_tavily_results,
    should_rotate, tavily_base, tavily_endpoint, tavily_extract_request_body,
    tavily_map_request_body, tavily_search_request_body, KeyRing,
};

fn s(x: &str) -> Json {
    Json::Str(x.to_string())
}

fn obj(members: Vec<(&str, Json)>) -> Json {
    Json::Object(
        members
            .into_iter()
            .map(|(k, v)| (k.to_string(), v))
            .collect(),
    )
}

fn text<'a>(j: &'a Json, key: &str) -> Option<&'a str> {
    j.get(key).and_then(|v| v.as_str())
}

#[test]
fn single_key_parses_to_one_entry() {
    let ring = KeyRing::parse("tvly-only");
    assert_eq!(ring.len(), 1);
    assert_eq!(ring.key(0), "tvly-only");
}

#[test]
fn comma_separated_keys_split_trim_and_drop_empties() {
    let ring = KeyRing::parse(" tvly-a, tvly-b ,, tvly-c,");
    assert_eq!(ring.len(), 3);
    assert_eq!(ring.key(0), "tvly-a");
    assert_eq!(ring.key(1), "tvly-b");
    assert_eq!(ring.key(2), "tvly-c");
}

#[test]
fn all_empty_segments_fall_back_to_raw_value() {
    let ring = KeyRing::parse("");
    assert_eq!(ring.len(), 1);
    assert_eq!(ring.key(0), "");
    let commas = KeyRing::parse(" , ,");
    assert_eq!(commas.len(), 1);
    assert_eq!(commas.key(0), " , ,");
}

#[test]
fn start_rotates_round_robin_across_requests() {
    let mut ring = KeyRing::parse("a,b,c");
    assert_eq!(ring.start(), 0);
    assert_eq!(ring.start(), 1);
    assert_eq!(ring.start(), 2);
    assert_eq!(ring.start(), 0);
}

#[test]
fn key_indexing_wraps_for_failover_offsets() {
    let ring = KeyRing::parse("a,b");
    assert_eq!(ring.key(2), "a");
    assert_eq!(ring.key(3), "b");
}

#[test]
fn key_scoped_statuses_trigger_rotation_only() {
    for status in [401, 403, 429, 432, 433] {
        assert!(is_key_scoped_status(status), "expected rotate on {status}");
    }
    for status in [400, 404, 408, 500, 502, 503] {
        assert!(!is_key_scoped_status(status), "must not rotate on {status}");
    }
}

#[test]
fn rotation_only_while_keys_remain() {
    assert!(should_rotate(Some(429), 0, 2));
    assert!(!should_rotate(Some(429), 1, 2));
    assert!(!should_rotate(Some(500), 0, 2));
    assert!(!should_rotate(None, 0, 3));
    assert!(!should_rotate(Some(401), 0, 1));
}

#[test]
fn endpoints_join_base_and_path() {
    let base = tavily_base("https://api.tavily.com//");
    assert_eq!(base, "https://api.tavily.com");
    assert_eq!(tavily_endpoint(&base, "/search"), "https://api.tavily.com/search");
    assert_eq!(tavily_endpoint(&base, "map"), "https://api.tavily.com/map");
}

#[test]
fn search_body_includes_filters_only_when_set() {
    let plain = tavily_search_request_body("rust", 5, &SearchFilters::default());
    assert_eq!(text(&plain, "query"), Some("rust"));
    assert_eq!(plain.get("max_results").and_then(|v| v.as_u64()), Some(5));
    assert_eq!(plain.get("include_answer").and_then(|v| v.as_bool()), Some(false));
    assert!(plain.get("days").is_none());
    assert!(plain.get("topic").is_none());
    assert!(plain.get("include_domains").is_none());
    assert!(plain.get("exclude_domains").is_none());

    let filters = SearchFilters {
        recency_days: Some(7),
        include_domains: vec!["a.com".to_string()],
        exclude_domains: vec![],
    };
    let body = tavily_search_request_body("news", 3, &filters);
    assert_eq!(body.get("days").and_then(|v| v.as_u64()), Some(7));
    assert_eq!(text(&body, "topic"), Some("news"));
    let inc = body.get("include_domains").and_then(|v| v.as_array()).expect("domains");
    assert_eq!(inc.len(), 1);
    assert_eq!(inc[0].as_str(), Some("a.com"));
    assert!(body.get("exclude_domains").is_none());
}

#[test]
fn map_and_extract_bodies() {
    let map = tavily_map_request_body("https://example.com", 4);
    assert_eq!(text(&map, "url"), Some("https://example.com"));
    assert_eq!(map.get("max_depth").and_then(|v| v.as_u64()), Some(1));
    assert_eq!(map.get("limit").and_then(|v| v.as_u64()), Some(4));
    let ex = tavily_extract_request_body("https://example.com/a");
    let urls = ex.get("urls").and_then(|v| v.as_array()).expect("urls");
    assert_eq!(urls[0].as_str(), Some("https://example.com/a"));
    assert_eq!(text(&ex, "format"), Some("markdown"));
}

#[test]
fn normalize_reads_strings_and_objects() {
    let raw = obj(vec![(
        "results",
        Json::Array(vec![
            s("https://bare.example"),
            obj(vec![
                ("url", s("https://full.example")),
                ("title", s("Full")),
                ("content", s("snippet")),
                ("description", s("ignored")),
                ("published_date", s("2024-05-01")),
            ]),
            obj(vec![("url", s("https://desc.example")), ("description", s("from description"))]),
            obj(vec![("title", s("no url"))]),
            Json::Null,
        ]),
    )]);
    let out = normalize_tavily_results(&raw);
    assert_eq!(out.len(), 3);
    assert_eq!(out[0].url, "https://bare.example");
    assert_eq!(out[0].provider, "tavily");
    assert_eq!(out[0].title, None);
    assert_eq!(out[1].title.as_deref(), Some("Full"));
    assert_eq!(out[1].description.as_deref(), Some("snippet"));
    assert_eq!(out[1].published_date.as_deref(), Some("2024-05-01"));
    assert_eq!(out[2].description.as_deref(), Some("from description"));
    assert!(normalize_tavily_results(&obj(vec![])).is_empty());
}

#[test]
fn limit_keeps_the_first_results() {
    let sources: Vec<Source> = (0..4)
        .map(|i| Source::new(&format!("https://e.x/{i}"), "tavily"))
        .collect();
    let two = limit_tavily_results(sources.clone(), 2);
    assert_eq!(two.len(), 2);
    assert_eq!(two[1].url, "https://e.x/1");
    assert_eq!(limit_tavily_results(sources, 9).len(), 4);
}

#[test]
fn extract_prefers_raw_content_and_rejects_blank() {
    let ok = obj(vec![(
        "results",
        Json::Array(vec![obj(vec![("raw_content", s("# Page")), ("content", s("short"))])]),
    )]);
    assert_eq!(extracted_content(&ok).expect("content"), "# Page");
    let fallback = obj(vec![("results", Json::Array(vec![obj(vec![("content", s("short"))])]))]);
    assert_eq!(extracted_content(&fallback).expect("content"), "short");
    for bad in [
        obj(vec![("results", Json::Array(vec![obj(vec![("raw_content", s("  "))])]))]),
        obj(vec![("results", Json::Array(vec![]))]),
        obj(vec![]),
    ] {
        match extracted_content(&bad) {
            Err(GrokSearchError::Provider(m)) => assert_eq!(m, "Tavily extract returned empty content"),
            other => panic!("unexpected: {other:?}"),
        }
    }
}

#[test]
fn status_and_stream_detection() {
    assert!(is_event_stream(true, "Text/Event-Stream; charset=utf-8"));
    assert!(!is_event_stream(false, "text/event-stream"));
    assert!(!is_event_stream(true, "application/json"));
    match status_error("Tavily", "429 Too Many Requests", "{\"error\":\"rate\"}") {
        GrokSearchError::Provider(m) => {
            assert_eq!(m, "Tavily returned HTTP 429 Too Many Requests: {\"error\":\"rate\"}")
        }
        other => panic!("unexpected: {other:?}"),
    }
}

#[test]
fn event_framing_splits_on_blank_lines() {
    assert_eq!(find_bytes(b"abcabc", b"ca"), Some(2));
    assert_eq!(find_bytes(b"ab", b"abc"), None);
    let (event, rest) = split_sse_event(b"data: 1\n\ndata: 2").expect("event");
    assert_eq!(event, b"data: 1".to_vec());
    assert_eq!(rest, b"data: 2".to_vec());
    let (event, rest) = split_sse_event(b"data: 1\r\n\r\nmore").expect("event");
    assert_eq!(event, b"data: 1".to_vec());
    assert_eq!(rest, b"more".to_vec());
    assert!(split_sse_event(b"data: partial\n").is_none());
}

#[test]
fn event_parsing_reads_name_and_data_lines() {
    let ev = parse_sse_event(b"event: delta\r\ndata: {\"a\":1}\ndata:  second\n: comment", "X")
        .expect("utf8");
    assert_eq!(ev.name.as_deref(), Some("delta"));
    assert_eq!(ev.data.as_deref(), Some("{\"a\":1}\nsecond"));
    let none = parse_sse_event(b"id: 4", "X").expect("utf8");
    assert_eq!(none.name, None);
    assert_eq!(none.data, None);
    match parse_sse_event(&[0xff, 0xfe], "Grok") {
        Err(GrokSearchError::Parse(m)) => assert!(m.starts_with("invalid Grok SSE UTF-8: "), "{m}"),
        other => panic!("unexpected: {other:?}"),
    }
    for n in ["done", "end", "complete", "completed", "response.completed"] {
        assert!(is_completion_event_name(n));
    }
    assert!(!is_completion_event_name("delta"));
}

#[test]
fn deltas_collect_both_api_shapes() {
    let mut out = String::new();
    let mut chat = String::new();
    let responses = obj(vec![
        ("type", s("response.output_text.delta")),
        ("delta", s("Hel")),
    ]);
    collect_stream_delta(&responses, &mut out, &mut chat);
    let chat_event = obj(vec![(
        "choices",
        Json::Array(vec![obj(vec![(
            "delta",
            obj(vec![(
                "content",
                Json::Array(vec![
                    obj(vec![("text", s("A"))]),
                    obj(vec![("content", s("B"))]),
                    obj(vec![("other", s("C"))]),
                ]),
            )]),
        )])]),
    )]);
    collect_stream_delta(&chat_event, &mut out, &mut chat);
    assert_eq!(out, "Hel");
    assert_eq!(chat, "AB");
}

fn feed(reader: &mut SseReader, bytes: &[u8]) -> Vec<SseStep> {
    reader.push_chunk(bytes);
    let mut steps = Vec::new();
    loop {
        let step = reader.next_step("Grok");
        match step {
            SseStep::NeedMore => {
                steps.push(step);
                return steps;
            }
            SseStep::Data(data) => {
                let value = parse(&data);
                if let Some(done) = reader.absorb(value) {
                    steps.push(SseStep::Done(Ok(done)));
                    return steps;
                }
                steps.push(SseStep::Data(data));
            }
            done => {
                steps.push(done);
                return steps;
            }
        }
    }
}

fn parse(data: &str) -> Json {
    match data {
        "{\"type\":\"response.output_text.delta\",\"delta\":\"Hi \"}" => obj(vec![
            ("type", s("response.output_text.delta")),
            ("delta", s("Hi ")),
        ]),
        "{\"type\":\"response.output_text.delta\",\"delta\":\"there\"}" => obj(vec![
            ("type", s("response.output_text.delta")),
            ("delta", s("there")),
        ]),
        "{\"type\":\"response.completed\"}" => obj(vec![("type", s("response.completed"))]),
        "{\"n\":1}" => obj(vec![("n", Json::Number(JsonNumber::PosInt(1)))]),
        other => panic!("unexpected data {other}"),
    }
}

#[test]
fn stream_of_responses_deltas_ends_with_output_text() {
    let mut reader = SseReader::new();
    let steps = feed(
        &mut reader,
        b"data: {\"type\":\"response.output_text.delta\",\"delta\":\"Hi \"}\n\nevent: ping\n\ndata: {\"type\":\"response.output_text.delta\",\"delta\":\"th",
    );
    assert!(matches!(steps.last(), Some(SseStep::NeedMore)));
    let steps = feed(&mut reader, b"ere\"}\n\ndata: {\"type\":\"response.completed\"}\n\n");
    match steps.last() {
        Some(SseStep::Done(Ok(v))) => assert_eq!(text(v, "output_text"), Some("Hi there")),
        other => panic!("unexpected: {other:?}"),
    }
}

#[test]
fn stream_done_marker_finishes_with_last_json() {
    let mut reader = SseReader::new();
    let steps = feed(&mut reader, b"data: {\"n\":1}\n\ndata:   \n\ndata: [DONE]\n\n");
    match steps.last() {
        Some(SseStep::Done(Ok(v))) => assert_eq!(v.get("n").and_then(|n| n.as_u64()), Some(1)),
        other => panic!("unexpected: {other:?}"),
    }
    let mut empty = SseReader::new();
    let steps = feed(&mut empty, b"event: done\n\n");
    match steps.last() {
        Some(SseStep::Done(Err(GrokSearchError::Parse(m)))) => {
            assert_eq!(m, "Grok SSE stream ended without JSON data")
        }
        other => panic!("unexpected: {other:?}"),
    }
}

#[test]
fn finished_chat_stream_is_rebuilt_as_one_choice() {
    let last = obj(vec![
        ("id", s("chatcmpl-1")),
        (
            "choices",
            Json::Array(vec![obj(vec![(
                "delta",
                obj(vec![
                    ("content", s("x")),
                    ("citations", Json::Array(vec![s("https://c.example")])),
                ]),
            )])]),
        ),
    ]);
    let v = finish_sse_json("Grok", Some(last), String::new(), "Hello world".to_string())
        .expect("value");
    assert_eq!(text(&v, "id"), Some("chatcmpl-1"));
    let choices = v.get("choices").and_then(|c| c.as_array()).expect("choices");
    assert_eq!(choices.len(), 1);
    let message = choices[0].get("message").expect("message");
    assert_eq!(text(message, "content"), Some("Hello world"));
    let cites = message.get("citations").and_then(|c| c.as_array()).expect("citations");
    assert_eq!(cites[0].as_str(), Some("https://c.example"));
    assert!(message.get("annotations").is_none());

    let out = finish_sse_json("Grok", None, "text".to_string(), "chat".to_string()).expect("v");
    assert_eq!(text(&out, "output_text"), Some("text"));
    let reply = finish_sse_json("Grok", Some(s("scalar")), String::new(), "c".to_string())
        .expect("v");
    assert!(reply.get("choices").is_some());
    assert!(matches!(
        finish_sse_json("X", None, String::new(), String::new()),
        Err(GrokSearchError::Parse(_))
    ));
}

#[test]
fn completed_event_returns_its_response() {
    let mut reader = SseReader::new();
    let done = reader.absorb(obj(vec![
        ("type", s("response.completed")),
        ("response", obj(vec![("status", s("completed"))])),
    ]));
    let v = done.expect("completed");
    assert_eq!(text(&v, "status"), Some("completed"));
    let mut reader = SseReader::new();
    assert!(reader.absorb(obj(vec![("type", s("response.created"))])).is_none());
    match reader.finish("Grok") {
        Ok(v) => assert_eq!(text(&v, "type"), Some("response.created")),
        Err(e) => panic!("unexpected: {e:?}"),
    }
}

#[test]
fn undecodable_event_ends_stream_with_parse_error() {
    let mut reader = SseReader::new();
    reader.push_chunk(&[0xff, b'\n', b'\n']);
    match reader.next_step("Grok") {
        SseStep::Done(Err(GrokSearchError::Parse(m))) => assert!(m.starts_with("invalid Grok SSE UTF-8: ")),
        other => panic!("unexpected: {other:?}"),
    }
}

#[test]
fn event_split_is_stable_when_more_bytes_arrive() {
    let (e1, r1) = split_sse_event(b"data: 1\n\nda").expect("event");
    let (e2, r2) = split_sse_event(b"data: 1\n\ndata: 2\n\n").expect("event");
    assert_eq!(e1, e2);
    assert_eq!(r1, b"da".to_vec());
    assert_eq!(r2, b"data: 2\n\n".to_vec());
    // A `\r\n\r\n` boundary gives way to a later `\n\n` one.
    let (e, _) = split_sse_event(b"a\r\n\r\nb").expect("event");
    assert_eq!(e, b"a".to_vec());
    let (e, rest) = split_sse_event(b"a\r\n\r\nb\n\nc").expect("event");
    assert_eq!(e, b"a\r\n\r\nb".to_vec());
    assert_eq!(rest, b"c".to_vec());
}
