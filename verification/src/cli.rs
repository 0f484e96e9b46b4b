//! The command line: which command the arguments ask for, where the HTTP
//! server binds, and the guide shown to someone who runs the server by hand.
use vstd::prelude::*;

use crate::config::{env_lookup, lookup, opt_str, AuthMode, Config};
use crate::text::{ascii_lower, cat, str_eq, to_ascii_lowercase, trim, trim_ws};

verus! {

/// What the program is asked to do.
#[derive(Debug, PartialEq, Eq, Structural)]
pub enum Command {
    Version,
    Init,
    Login,
    Status,
    Logout,
    Serve,
}

/// Whether any argument is one of the version flags.
pub open spec fn has_version_flag(args: Seq<Seq<char>>) -> bool {
    exists|i: int| 0 <= i < args.len() && (args[i] == "--version"@ || args[i] == "-V"@ || args[i] == "-v"@)
}

/// Whether any argument asks to scaffold the configuration.
pub open spec fn has_init_flag(args: Seq<Seq<char>>) -> bool {
    exists|i: int| 0 <= i < args.len() && (args[i] == "init"@ || args[i] == "--init"@)
}

/// The command the arguments (after the program name) ask for: a version
/// flag anywhere wins, then an init flag anywhere, then the first argument
/// naming an OAuth command; anything else serves.
pub open spec fn spec_command(args: Seq<Seq<char>>) -> Command {
    if has_version_flag(args) {
        Command::Version
    } else if has_init_flag(args) {
        Command::Init
    } else if args.len() > 0 && args[0] == "login"@ {
        Command::Login
    } else if args.len() > 0 && args[0] == "status"@ {
        Command::Status
    } else if args.len() > 0 && args[0] == "logout"@ {
        Command::Logout
    } else {
        Command::Serve
    }
}

pub open spec fn args_view(args: Seq<String>) -> Seq<Seq<char>> {
    args.map_values(|a: String| a@)
}

pub fn parse_command(args: &Vec<String>) -> (c: Command)
    ensures
        c == spec_command(args_view(args@)),
{
    let ghost av = args_view(args@);
    let mut version = false;
    let mut init = false;
    let mut i: usize = 0;
    while i < args.len()
        invariant
            i <= args@.len(),
            av == args_view(args@),
            av.len() == args@.len(),
            version <==> exists|j: int|
                0 <= j < i && (av[j] == "--version"@ || av[j] == "-V"@ || av[j] == "-v"@),
            init <==> exists|j: int| 0 <= j < i && (av[j] == "init"@ || av[j] == "--init"@),
        decreases args@.len() - i,
    {
        let a = args[i].as_str();
        assert(av[i as int] == a@);
        if str_eq(a, "--version") || str_eq(a, "-V") || str_eq(a, "-v") {
            version = true;
        }
        if str_eq(a, "init") || str_eq(a, "--init") {
            init = true;
        }
        i += 1;
    }
    if version {
        return Command::Version;
    }
    if init {
        return Command::Init;
    }
    if args.len() > 0 {
        let first = args[0].as_str();
        assert(av[0] == first@);
        if str_eq(first, "login") {
            return Command::Login;
        }
        if str_eq(first, "status") {
            return Command::Status;
        }
        if str_eq(first, "logout") {
            return Command::Logout;
        }
    }
    Command::Serve
}

/// Whether the HTTP transport is asked for: by the first argument, or by
/// the transport setting being `http` in any ASCII case.
pub open spec fn spec_wants_http(args: Seq<Seq<char>>, transport: Option<Seq<char>>) -> bool {
    (args.len() > 0 && (args[0] == "serve-http"@ || args[0] == "http"@ || args[0] == "--http"@))
        || (transport matches Some(t) && ascii_lower(t) == "http"@)
}

/// Whether to serve over HTTP; `transport` is `GROK_SEARCH_MCP_TRANSPORT`.
pub fn wants_http(args: &Vec<String>, transport: Option<&str>) -> (r: bool)
    ensures
        r == spec_wants_http(
            args_view(args@),
            match transport {
                Some(t) => Some(t@),
                None => None::<Seq<char>>,
            },
        ),
{
    let arg_http = if args.len() > 0 {
        let a = args[0].as_str();
        assert(args_view(args@)[0] == a@);
        str_eq(a, "serve-http") || str_eq(a, "http") || str_eq(a, "--http")
    } else {
        false
    };
    let env_http = match transport {
        Some(t) => {
            let l = to_ascii_lowercase(t);
            str_eq(l.as_str(), "http")
        },
        None => false,
    };
    arg_http || env_http
}

/// The address the HTTP server binds: `GROK_SEARCH_HTTP_BIND` when it is
/// not blank, else `HOST` (default `0.0.0.0`), a colon, and `PORT`, else
/// `GROK_SEARCH_HTTP_PORT` (default `3000`).
pub open spec fn spec_bind_addr(env: Seq<(String, String)>) -> Seq<char> {
    match env_lookup(env, "GROK_SEARCH_HTTP_BIND"@) {
        Some(b) if trim_ws(b).len() > 0 => b,
        _ => {
            let host = match env_lookup(env, "HOST"@) {
                Some(h) => h,
                None => "0.0.0.0"@,
            };
            let port = match env_lookup(env, "PORT"@) {
                Some(p) => p,
                None => match env_lookup(env, "GROK_SEARCH_HTTP_PORT"@) {
                    Some(p) => p,
                    None => "3000"@,
                },
            };
            host + ":"@ + port
        },
    }
}

pub fn http_bind_addr(env: &Vec<(String, String)>) -> (r: String)
    ensures
        r@ == spec_bind_addr(env@),
{
    if let Some(bind) = lookup(env, "GROK_SEARCH_HTTP_BIND") {
        let t = trim(bind.as_str());
        if !t.as_str().is_empty() {
            return bind;
        }
    }
    let host = match lookup(env, "HOST") {
        Some(h) => h,
        None => crate::text::owned("0.0.0.0"),
    };
    let port = match lookup(env, "PORT") {
        Some(p) => p,
        None => match lookup(env, "GROK_SEARCH_HTTP_PORT") {
            Some(p) => p,
            None => crate::text::owned("3000"),
        },
    };
    let mut out = cat(host.as_str(), ":");
    crate::text::append(&mut out, port.as_str());
    out
}

/// Whether someone ran the server by hand without credentials: API-key
/// mode, no key, and a terminal on standard input.
pub fn needs_setup_guide(cfg: &Config, stdin_is_terminal: bool) -> (r: bool)
    ensures
        r == (cfg@.grok_auth_mode == AuthMode::ApiKey && cfg@.grok_api_key is None
            && stdin_is_terminal),
{
    let api_key_mode = match cfg.grok_auth_mode {
        AuthMode::ApiKey => true,
        _ => false,
    };
    api_key_mode && cfg.grok_api_key.is_none() && stdin_is_terminal
}

/// The OAuth token file: the configured one, else the default location.
pub fn auth_file(cfg: &Config, default_path: Option<String>) -> (r: Option<String>)
    ensures
        opt_str(r) == match cfg@.grok_auth_file {
            Some(p) => Some(p),
            None => opt_str(default_path),
        },
{
    match &cfg.grok_auth_file {
        Some(p) => Some(p.clone()),
        None => default_path,
    }
}


/// The guide shown to someone who runs the server by hand: what it is, the
/// keys it needs, how to install it, and, when the global configuration
/// file does not exist yet, a tip naming that file.
/// The list of clients names editors and command-line clients only, and the
/// install section gives the client-neutral JSON entry rather than one
/// client's `mcp add-json` command line.
pub open spec fn spec_setup_guide(missing_config: Option<Seq<char>>) -> Seq<char> {
    r#"grok-search-rs is an MCP server. It speaks JSON-RPC over stdio and
should be launched by an MCP client (Codex CLI, Gemini CLI, Cursor,
VS Code, Windsurf, ...), not run directly.

Hosted HTTP mode
  grok-search-rs serve-http
  Exposes JSON-RPC MCP at http://HOST:PORT/mcp (default 0.0.0.0:3000).

Required keys
  GROK_SEARCH_API_KEY   xAI / Grok-compatible key   (https://x.ai/api)
  TAVILY_API_KEY        Tavily fetch + map          (https://tavily.com)
  FIRECRAWL_API_KEY     optional fetch fallback     (https://firecrawl.dev)

OAuth alternative
  grok-search-rs login
  Set GROK_SEARCH_AUTH_MODE=oauth in your MCP env or config.
  OAuth mode reuses Hermes' xAI client_id and may carry account / terms risk.

MCP client entry (stdio)
  {
    "type": "stdio",
    "command": "grok-search-rs",
    "env": {
      "GROK_SEARCH_API_KEY": "xai-...",
      "TAVILY_API_KEY": "tvly-..."
    }
  }

"#@ + match missing_config {
        Some(p) => "Tip: set keys once for every MCP client\n  grok-search-rs --init                  # scaffold "@
            + p + "\n  $EDITOR "@ + p + "    # uncomment and fill\n\n"@,
        None => Seq::empty(),
    } + r#"Docs:    https://github.com/Episkey-G/GrokSearch-rs#readme
Issues:  https://github.com/Episkey-G/GrokSearch-rs/issues
"#@
}

/// The setup guide; `missing_config` is the global configuration path when
/// that file does not exist.
pub fn setup_guide(missing_config: Option<&str>) -> (r: String)
    ensures
        r@ == spec_setup_guide(
            match missing_config {
                Some(p) => Some(p@),
                None => None::<Seq<char>>,
            },
        ),
{
    let mut guide = crate::text::owned(r#"grok-search-rs is an MCP server. It speaks JSON-RPC over stdio and
should be launched by an MCP client (Codex CLI, Gemini CLI, Cursor,
VS Code, Windsurf, ...), not run directly.

Hosted HTTP mode
  grok-search-rs serve-http
  Exposes JSON-RPC MCP at http://HOST:PORT/mcp (default 0.0.0.0:3000).

Required keys
  GROK_SEARCH_API_KEY   xAI / Grok-compatible key   (https://x.ai/api)
  TAVILY_API_KEY        Tavily fetch + map          (https://tavily.com)
  FIRECRAWL_API_KEY     optional fetch fallback     (https://firecrawl.dev)

OAuth alternative
  grok-search-rs login
  Set GROK_SEARCH_AUTH_MODE=oauth in your MCP env or config.
  OAuth mode reuses Hermes' xAI client_id and may carry account / terms risk.

MCP client entry (stdio)
  {
    "type": "stdio",
    "command": "grok-search-rs",
    "env": {
      "GROK_SEARCH_API_KEY": "xai-...",
      "TAVILY_API_KEY": "tvly-..."
    }
  }

"#);
    if let Some(p) = missing_config {
        crate::text::append(
            &mut guide,
            "Tip: set keys once for every MCP client\n  grok-search-rs --init                  # scaffold ",
        );
        crate::text::append(&mut guide, p);
        crate::text::append(&mut guide, "\n  $EDITOR ");
        crate::text::append(&mut guide, p);
        crate::text::append(&mut guide, "    # uncomment and fill\n\n");
    }
    crate::text::append(&mut guide, r#"Docs:    https://github.com/Episkey-G/GrokSearch-rs#readme
Issues:  https://github.com/Episkey-G/GrokSearch-rs/issues
"#);
    assert(guide@ =~= spec_setup_guide(
        match missing_config {
            Some(p) => Some(p@),
            None => None::<Seq<char>>,
        },
    ));
    guide
}

} // verus!
