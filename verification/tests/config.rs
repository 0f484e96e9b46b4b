use grok_search_rs::cli::{http_bind_addr, needs_setup_guide, parse_command, wants_http, Command};
use grok_search_rs::config::{
    auth_mode_value, decide_transport,
    auth_path_for, bool_literal, config_path_for, merge_env_over_file, normalize_plain_base,
    normalize_v1_base, AuthMode, Config, ConfigFile, Transport, CONFIG_TEMPLATE,
};
use grok_search_rs::sources::SourceCaps;

fn env(pairs: &[(&str, &str)]) -> Vec<(String, String)> {
    pairs
        .iter()
        .map(|(k, v)| (k.to_string(), v.to_string()))
        .collect()
}

fn args(list: &[&str]) -> Vec<String> {
    list.iter().map(|a| a.to_string()).collect()
}

#[test]
fn source_caps_defaults_hold() {
    let cfg = Config::from_env_map(Vec::<(String, String)>::new());
    assert_eq!(cfg.source_max_answers, 5);
    assert_eq!(cfg.source_max_comments, 30);
    let caps = SourceCaps::default();
    assert_eq!(caps.max_answers, 5);
    assert_eq!(caps.max_comments, 30);
}

#[test]
fn source_max_answers_reads_env() {
    let cfg = Config::from_env_map(env(&[("GROK_SEARCH_SOURCE_MAX_ANSWERS", "3")]));
    assert_eq!(cfg.source_max_answers, 3);
}

#[test]
fn source_max_comments_reads_env() {
    let cfg = Config::from_env_map(env(&[("GROK_SEARCH_SOURCE_MAX_COMMENTS", "10")]));
    assert_eq!(cfg.source_max_comments, 10);
}

#[test]
fn github_token_present_and_filtered() {
    let cfg = Config::from_env_map(env(&[("GITHUB_TOKEN", "ghp_test")]));
    assert_eq!(cfg.github_token.as_deref(), Some("ghp_test"));

    let empty = Config::from_env_map(env(&[("GITHUB_TOKEN", "")]));
    assert_eq!(empty.github_token, None);

    let unset = Config::from_env_map(Vec::<(String, String)>::new());
    assert_eq!(unset.github_token, None);

    let diag_set = cfg.redacted_diagnostics();
    assert!(
        diag_set.contains("github_token=set"),
        "expected github_token=set in: {diag_set}"
    );
    assert!(
        !diag_set.contains("ghp_test"),
        "token value leaked into diagnostics: {diag_set}"
    );

    let diag_unset = unset.redacted_diagnostics();
    assert!(
        diag_unset.contains("github_token=unset"),
        "expected github_token=unset in: {diag_unset}"
    );
}

#[test]
fn enrich_config_defaults_hold() {
    let cfg = Config::from_env_map(Vec::<(String, String)>::new());
    assert_eq!(cfg.enrich_concurrency, 3);
    assert_eq!(cfg.enrich_max_chars, 15000);
}

#[test]
fn enrich_concurrency_reads_env_and_clamps() {
    let cfg = Config::from_env_map(env(&[("GROK_SEARCH_ENRICH_CONCURRENCY", "7")]));
    assert_eq!(cfg.enrich_concurrency, 5);
}

#[test]
fn loads_openai_compatible_fields_from_env() {
    let cfg = Config::from_env_map(env(&[
        ("OPENAI_COMPATIBLE_API_URL", "https://example.com/v1"),
        ("OPENAI_COMPATIBLE_API_KEY", "sk-fake"),
        ("OPENAI_COMPATIBLE_MODEL", "grok-4.3-fast"),
    ]));
    assert_eq!(
        cfg.openai_compatible_api_url.as_deref(),
        Some("https://example.com/v1")
    );
    assert_eq!(cfg.openai_compatible_api_key.as_deref(), Some("sk-fake"));
    assert_eq!(cfg.openai_compatible_model.as_deref(), Some("grok-4.3-fast"));
}

#[test]
fn transport_defaults_to_responses_when_only_grok_set() {
    let cfg = Config::from_env_map(env(&[("GROK_SEARCH_API_KEY", "xai-fake")]));
    assert_eq!(cfg.transport, Transport::Responses);
}

#[test]
fn transport_chat_completions_when_only_compat_set() {
    let cfg = Config::from_env_map(env(&[
        ("OPENAI_COMPATIBLE_API_URL", "https://example.com/v1"),
        ("OPENAI_COMPATIBLE_API_KEY", "sk-fake"),
    ]));
    assert_eq!(cfg.transport, Transport::ChatCompletions);
}

#[test]
fn transport_prefers_grok_when_both_set() {
    let cfg = Config::from_env_map(env(&[
        ("GROK_SEARCH_API_KEY", "xai-fake"),
        ("OPENAI_COMPATIBLE_API_URL", "https://example.com/v1"),
        ("OPENAI_COMPATIBLE_API_KEY", "sk-fake"),
    ]));
    assert_eq!(cfg.transport, Transport::Responses);
}

#[test]
fn transport_stays_responses_in_oauth_mode() {
    let cfg = Config::from_env_map(env(&[
        ("GROK_SEARCH_AUTH_MODE", "OAuth"),
        ("OPENAI_COMPATIBLE_API_URL", "https://example.com/v1"),
        ("OPENAI_COMPATIBLE_API_KEY", "sk-fake"),
    ]));
    assert_eq!(cfg.grok_auth_mode, AuthMode::OAuth);
    assert_eq!(cfg.transport, Transport::Responses);
}

#[test]
fn unknown_auth_mode_falls_back_to_api_key() {
    let cfg = Config::from_env_map(env(&[("GROK_SEARCH_AUTH_MODE", "magic")]));
    assert_eq!(cfg.grok_auth_mode, AuthMode::ApiKey);
    let blank = Config::from_env_map(env(&[("GROK_SEARCH_AUTH_MODE", "  ")]));
    assert_eq!(blank.grok_auth_mode, AuthMode::ApiKey);
}

#[test]
fn defaults_hold_for_an_empty_environment() {
    let cfg = Config::from_env_map(Vec::<(String, String)>::new());
    assert_eq!(cfg.grok_api_url, "https://api.x.ai/v1");
    assert_eq!(cfg.grok_model, "grok-4-1-fast-reasoning");
    assert_eq!(cfg.tavily_api_url, "https://api.tavily.com");
    assert_eq!(cfg.firecrawl_api_url, "https://api.firecrawl.dev/v1");
    assert!(cfg.web_search_enabled);
    assert!(!cfg.x_search_enabled);
    assert!(cfg.tavily_enabled);
    assert!(cfg.firecrawl_enabled);
    assert_eq!(cfg.default_extra_sources, 3);
    assert_eq!(cfg.fallback_sources, 5);
    assert_eq!(cfg.fetch_max_chars, None);
    assert_eq!(cfg.cache_size, 256);
    assert_eq!(cfg.timeout_secs, 60);
    assert_eq!(cfg.max_inline_sources, 5);
    assert_eq!(cfg.response_max_chars, 60000);
    assert_eq!(cfg.grok_auth_mode, AuthMode::ApiKey);
    assert_eq!(cfg.transport, Transport::Responses);
}

#[test]
fn numeric_settings_parse_or_fall_back() {
    let cfg = Config::from_env_map(env(&[
        ("GROK_SEARCH_TIMEOUT_SECONDS", "0"),
        ("GROK_SEARCH_EXTRA_SOURCES", "0"),
        ("GROK_SEARCH_FETCH_MAX_CHARS", "0"),
        ("GROK_SEARCH_CACHE_SIZE", "abc"),
        ("GROK_SEARCH_ENRICH_CONCURRENCY", "0"),
    ]));
    assert_eq!(cfg.timeout_secs, 60);
    assert_eq!(cfg.default_extra_sources, 0);
    assert_eq!(cfg.fetch_max_chars, None);
    assert_eq!(cfg.cache_size, 256);
    assert_eq!(cfg.enrich_concurrency, 1);
    let cfg = Config::from_env_map(env(&[
        ("GROK_SEARCH_TIMEOUT_SECONDS", "15"),
        ("GROK_SEARCH_FETCH_MAX_CHARS", "1200"),
    ]));
    assert_eq!(cfg.timeout_secs, 15);
    assert_eq!(cfg.fetch_max_chars, Some(1200));
}

#[test]
fn boolean_literals_accept_one_true_yes() {
    for v in ["1", "true", "TRUE", "Yes", "yes"] {
        assert!(bool_literal(v), "{v}");
    }
    for v in ["0", "false", "no", "on", "", " true"] {
        assert!(!bool_literal(v), "{v}");
    }
    let cfg = Config::from_env_map(env(&[("GROK_SEARCH_X_SEARCH", "yes"), ("TAVILY_ENABLED", "off")]));
    assert!(cfg.x_search_enabled);
    assert!(!cfg.tavily_enabled);
}

#[test]
fn later_pairs_override_earlier_ones() {
    let cfg = Config::from_env_map(env(&[
        ("GROK_SEARCH_MODEL", "first"),
        ("GROK_SEARCH_MODEL", "second"),
    ]));
    assert_eq!(cfg.grok_model, "second");
}

#[test]
fn v1_base_converges_from_root_base_and_endpoints() {
    for input in [
        "https://api.example.com",
        "https://api.example.com/",
        "  https://api.example.com/v1  ",
        "https://api.example.com/v1/",
        "https://api.example.com/v1/chat/completions",
        "https://api.example.com/v1/responses",
        "https://api.example.com/v1//responses",
    ] {
        assert_eq!(
            normalize_v1_base(input),
            "https://api.example.com/v1",
            "{input}"
        );
    }
    assert_eq!(normalize_v1_base(""), "/v1");
    assert_eq!(
        normalize_v1_base(&normalize_v1_base("https://x.test/responses")),
        "https://x.test/v1"
    );
}

#[test]
fn plain_base_trims_whitespace_and_slashes() {
    assert_eq!(normalize_plain_base(" https://api.tavily.com// "), "https://api.tavily.com");
    assert_eq!(normalize_plain_base("https://api.tavily.com"), "https://api.tavily.com");
}

#[test]
fn environment_wins_over_config_file() {
    let file = ConfigFile {
        grok_model: Some("from-file".to_string()),
        tavily_api_key: Some("tvly-file".to_string()),
        cache_size: Some(12),
        x_search_enabled: Some(true),
        ..ConfigFile::default()
    };
    let cfg = Config::load_from(env(&[("GROK_SEARCH_MODEL", "from-env")]), Some(file));
    assert_eq!(cfg.grok_model, "from-env");
    assert_eq!(cfg.tavily_api_key.as_deref(), Some("tvly-file"));
    assert_eq!(cfg.cache_size, 12);
    assert!(cfg.x_search_enabled);
    let no_file = Config::load_from(env(&[("GROK_SEARCH_MODEL", "from-env")]), None);
    assert_eq!(no_file, Config::from_env_map(env(&[("GROK_SEARCH_MODEL", "from-env")])));
}

#[test]
fn config_file_maps_keys_to_environment_names() {
    let file = ConfigFile {
        grok_api_url: Some("https://gw.example".to_string()),
        timeout_seconds: Some(9),
        enrich_max_chars: Some(100),
        max_inline_sources: Some(2),
        ..ConfigFile::default()
    };
    let map = file.into_env_map();
    let get = |k: &str| map.iter().rev().find(|(key, _)| key == k).map(|(_, v)| v.clone());
    assert_eq!(get("GROK_SEARCH_URL").as_deref(), Some("https://gw.example"));
    assert_eq!(get("GROK_SEARCH_TIMEOUT_SECONDS").as_deref(), Some("9"));
    assert_eq!(get("GROK_SEARCH_ENRICH_MAX_CHARS").as_deref(), Some("100"));
    assert_eq!(get("GROK_SEARCH_MAX_INLINE_SOURCES").as_deref(), Some("2"));
    assert_eq!(get("GROK_SEARCH_MODEL"), None);
    let merged = merge_env_over_file(map, env(&[("GROK_SEARCH_TIMEOUT_SECONDS", "3")]));
    let cfg = Config::from_env_map(merged);
    assert_eq!(cfg.timeout_secs, 3);
    assert_eq!(cfg.grok_api_url, "https://gw.example/v1");
}

#[test]
fn config_path_prefers_explicit_then_home_then_profile() {
    assert_eq!(
        config_path_for(env(&[("GROK_SEARCH_CONFIG", "/etc/g.toml"), ("HOME", "/home/a")])).as_deref(),
        Some("/etc/g.toml")
    );
    assert_eq!(
        config_path_for(env(&[("HOME", "/home/a")])).as_deref(),
        Some("/home/a/.config/grok-search-rs/config.toml")
    );
    assert_eq!(
        config_path_for(env(&[("HOME", ""), ("USERPROFILE", "/users/b")])).as_deref(),
        Some("/users/b/.config/grok-search-rs/config.toml")
    );
    assert_eq!(config_path_for(Vec::<(String, String)>::new()), None);
}

#[test]
fn auth_path_sits_beside_config_unless_overridden() {
    assert_eq!(
        auth_path_for(env(&[("HOME", "/home/a")])).as_deref(),
        Some("/home/a/.config/grok-search-rs/auth.json")
    );
    assert_eq!(
        auth_path_for(env(&[("GROK_SEARCH_AUTH_FILE", "/tmp/a.json"), ("HOME", "/home/a")])).as_deref(),
        Some("/tmp/a.json")
    );
    assert_eq!(auth_path_for(Vec::<(String, String)>::new()), None);
}

#[test]
fn diagnostics_mask_keys() {
    let cfg = Config::from_env_map(env(&[
        ("GROK_SEARCH_API_KEY", "xai-1234567890"),
        ("TAVILY_API_KEY", "short"),
    ]));
    let d = cfg.redacted_diagnostics();
    assert!(d.contains("grok_api_key=xai-***7890"), "{d}");
    assert!(d.contains("tavily_api_key=***"), "{d}");
    assert!(d.contains("firecrawl_api_key=unset"), "{d}");
    assert!(d.contains("grok_auth_mode=ApiKey"), "{d}");
    assert!(d.contains("grok_auth_file=default"), "{d}");
    assert!(d.contains("timeout_seconds=60"), "{d}");
    assert!(!d.contains("1234567890"), "{d}");
    assert_eq!(cfg.github_token_status(), "unset");
}

#[test]
fn template_comments_out_every_key() {
    for line in CONFIG_TEMPLATE.lines() {
        assert!(line.is_empty() || line.starts_with('#'), "{line}");
    }
    assert!(CONFIG_TEMPLATE.contains("# enrich_max_chars"));
}

#[test]
fn command_line_picks_the_command() {
    assert_eq!(parse_command(&args(&["serve", "-V"])), Command::Version);
    assert_eq!(parse_command(&args(&["--init", "--version"])), Command::Version);
    assert_eq!(parse_command(&args(&["x", "init"])), Command::Init);
    assert_eq!(parse_command(&args(&["login"])), Command::Login);
    assert_eq!(parse_command(&args(&["status"])), Command::Status);
    assert_eq!(parse_command(&args(&["logout"])), Command::Logout);
    assert_eq!(parse_command(&args(&["x", "login"])), Command::Serve);
    assert_eq!(parse_command(&args(&[])), Command::Serve);
}

#[test]
fn http_mode_from_argument_or_transport_setting() {
    assert!(wants_http(&args(&["serve-http"]), None));
    assert!(wants_http(&args(&["--http"]), None));
    assert!(!wants_http(&args(&["x", "http"]), None));
    assert!(wants_http(&args(&[]), Some("HTTP")));
    assert!(!wants_http(&args(&[]), Some("stdio")));
}

#[test]
fn bind_address_resolution() {
    assert_eq!(http_bind_addr(&env(&[])), "0.0.0.0:3000");
    assert_eq!(
        http_bind_addr(&env(&[("GROK_SEARCH_HTTP_BIND", "127.0.0.1:9"), ("PORT", "1")])),
        "127.0.0.1:9"
    );
    assert_eq!(
        http_bind_addr(&env(&[("GROK_SEARCH_HTTP_BIND", "  "), ("HOST", "h"), ("GROK_SEARCH_HTTP_PORT", "8")])),
        "h:8"
    );
    assert_eq!(
        http_bind_addr(&env(&[("PORT", "7"), ("GROK_SEARCH_HTTP_PORT", "8")])),
        "0.0.0.0:7"
    );
}

#[test]
fn setup_guide_only_for_interactive_runs_without_key() {
    let cfg = Config::from_env_map(Vec::<(String, String)>::new());
    assert!(needs_setup_guide(&cfg, true));
    assert!(!needs_setup_guide(&cfg, false));
    let keyed = Config::from_env_map(env(&[("GROK_SEARCH_API_KEY", "k")]));
    assert!(!needs_setup_guide(&keyed, true));
    let oauth = Config::from_env_map(env(&[("GROK_SEARCH_AUTH_MODE", "oauth")]));
    assert!(!needs_setup_guide(&oauth, true));
}

#[test]
fn config_file_round_trips_through_environment() {
    let file = ConfigFile {
        grok_model: Some("m".to_string()),
        web_search_enabled: Some(false),
        x_search_enabled: Some(true),
        default_extra_sources: Some(7),
        ..ConfigFile::default()
    };
    let map = file.into_env_map();
    assert_eq!(map.len(), 4);
    let cfg = Config::from_env_map(map);
    assert_eq!(cfg.grok_model, "m");
    assert!(!cfg.web_search_enabled);
    assert!(cfg.x_search_enabled);
    assert_eq!(cfg.default_extra_sources, 7);
}

#[test]
fn auth_mode_and_transport_readers() {
    assert_eq!(auth_mode_value(&env(&[("GROK_SEARCH_AUTH_MODE", " OAuth ")])), AuthMode::OAuth);
    assert_eq!(auth_mode_value(&env(&[("GROK_SEARCH_AUTH_MODE", "api_key")])), AuthMode::ApiKey);
    assert_eq!(auth_mode_value(&env(&[])), AuthMode::ApiKey);
    let compat = env(&[
        ("OPENAI_COMPATIBLE_API_URL", "u"),
        ("OPENAI_COMPATIBLE_API_KEY", "k"),
    ]);
    assert_eq!(decide_transport(&compat, AuthMode::ApiKey), Transport::ChatCompletions);
    assert_eq!(decide_transport(&compat, AuthMode::OAuth), Transport::Responses);
    let empty_key = env(&[("OPENAI_COMPATIBLE_API_URL", "u"), ("OPENAI_COMPATIBLE_API_KEY", "")]);
    assert_eq!(decide_transport(&empty_key, AuthMode::ApiKey), Transport::Responses);
}

#[test]
fn v1_base_more_forms() {
    assert_eq!(normalize_v1_base("https://a.example/chat/completions"), "https://a.example/v1");
    assert_eq!(normalize_v1_base("https://a.example/v1/"), "https://a.example/v1");
    for e in ["", "/v1", "/v1/", "/chat/completions", "/responses", "/v1/responses"] {
        assert_eq!(normalize_v1_base(e), "/v1", "{e}");
    }
}

#[test]
fn unknown_auth_mode_is_reported_for_a_warning() {
    let warn = grok_search_rs::config::auth_mode_fallback(&env(&[("GROK_SEARCH_AUTH_MODE", " Magic ")]));
    assert_eq!(warn.as_deref(), Some("Magic"));
    for ok in ["api_key", "OAUTH", " ", ""] {
        assert_eq!(grok_search_rs::config::auth_mode_fallback(&env(&[("GROK_SEARCH_AUTH_MODE", ok)])), None);
    }
    assert_eq!(grok_search_rs::config::auth_mode_fallback(&env(&[])), None);
}
