//! Startup settings: what the environment variables, the command line and the
//! configuration file select.
use crate::text::{chars_of, decimal, parse_u64, parse_u64_str, push_decimal};
use vstd::prelude::*;

verus! {

/// `c` is the lower-case ASCII letter `l`, or its upper-case form.
pub open spec fn folds_to(c: char, l: char) -> bool {
    c == l || ('A' <= c <= 'Z' && (c as u32) + 32 == (l as u32))
}

/// `value` reads as "true" once lower-cased (`str::to_lowercase`; only the
/// ASCII letters lower to `t`, `r`, `u`, `e`), or is exactly "1".
pub open spec fn switch_on(value: Seq<char>) -> bool {
    ||| (value.len() == 4 && folds_to(value[0], 't') && folds_to(value[1], 'r') && folds_to(
        value[2],
        'u',
    ) && folds_to(value[3], 'e'))
    ||| value == "1"@
}

fn folds(c: char, l: char, u: char) -> (b: bool)
    requires
        'a' <= l <= 'z',
        (u as u32) + 32 == (l as u32),
    ensures
        b == folds_to(c, l),
{
    c == l || c == u
}

/// Whether request logging is on, given the value of `WEB_SEARCH_LOGGING_ENABLED`
/// (`None` when it is unset).
pub fn logging_enabled_from(value: Option<&str>) -> (b: bool)
    ensures
        b == match value {
            Some(v) => switch_on(v@),
            None => false,
        },
{
    match value {
        Some(v) => {
            let c = chars_of(v);
            proof {
                reveal_strlit("1");
            }
            if c.len() == 4 {
                folds(c[0], 't', 'T') && folds(c[1], 'r', 'R') && folds(c[2], 'u', 'U') && folds(
                    c[3],
                    'e',
                    'E',
                )
            } else if c.len() == 1 {
                assert("1"@ =~= seq!['1']);
                assert(c@ =~= seq![c@[0]]);
                c[0] == '1'
            } else {
                false
            }
        },
        None => false,
    }
}

/// The log directory used when `WEB_SEARCH_LOG_DIR` is unset.
pub open spec fn default_log_dir() -> Seq<char> {
    "logs"@
}

/// The log directory, given the value of `WEB_SEARCH_LOG_DIR`.
pub fn log_dir_from(value: Option<String>) -> (d: String)
    ensures
        d@ == match value {
            Some(v) => v@,
            None => default_log_dir(),
        },
{
    match value {
        Some(v) => v,
        None => String::from_str("logs"),
    }
}

/// The cooldown, in seconds, used when `DDG_BLOCK_DURATION` is unset or not a number.
pub open spec fn default_block_duration() -> u64 {
    305
}

/// The cooldown after a bot-detection answer, in seconds, given the value of
/// `DDG_BLOCK_DURATION`.
pub fn block_duration_from(value: Option<&str>) -> (d: u64)
    ensures
        d == match value {
            Some(v) => match parse_u64(v@) {
                Some(n) => n,
                None => default_block_duration(),
            },
            None => default_block_duration(),
        },
{
    match value {
        Some(v) => match parse_u64_str(v) {
            Some(n) => n,
            None => 305,
        },
        None => 305,
    }
}

/// The search endpoint used when `DDG_BASE_URL` is unset.
pub open spec fn default_base_url() -> Seq<char> {
    "https://lite.duckduckgo.com/lite/"@
}

/// The search endpoint, given the value of `DDG_BASE_URL`.
pub fn base_url_from(value: Option<String>) -> (u: String)
    ensures
        u@ == match value {
            Some(v) => v@,
            None => default_base_url(),
        },
{
    match value {
        Some(v) => v,
        None => String::from_str("https://lite.duckduckgo.com/lite/"),
    }
}

/// The User-Agent built in, for the server version `version`.
pub open spec fn builtin_user_agent(version: Seq<char>) -> Seq<char> {
    "web-search-mcp-rust/"@ + version + " (+https://github.com/k2ok/web-search-mcp-rust)"@
}

/// The User-Agent: the one given on the command line, else the one of the
/// configuration file, else the built-in one.
pub fn choose_user_agent(cli: Option<String>, config: Option<String>, version: &str) -> (ua: String)
    ensures
        ua@ == match (cli, config) {
            (Some(c), _) => c@,
            (None, Some(f)) => f@,
            (None, None) => builtin_user_agent(version@),
        },
{
    match cli {
        Some(c) => c,
        None => match config {
            Some(f) => f,
            None => {
                let mut s = String::from_str("web-search-mcp-rust/");
                s.append(version);
                s.append(" (+https://github.com/k2ok/web-search-mcp-rust)");
                s
            },
        },
    }
}

/// The session inactivity timeout: none when not given or given as zero.
pub fn session_keep_alive(timeout: Option<u64>) -> (t: Option<u64>)
    ensures
        t == match timeout {
            Some(x) => if x == 0 {
                None
            } else {
                Some(x)
            },
            None => None,
        },
{
    match timeout {
        Some(x) => if x == 0 {
            None
        } else {
            Some(x)
        },
        None => None,
    }
}

/// The SSE keep-alive interval in seconds used when none is given.
pub open spec fn default_sse_keep_alive() -> u64 {
    30
}

/// The SSE keep-alive interval in seconds.
pub fn sse_keep_alive(keep_alive: Option<u64>) -> (k: u64)
    ensures
        k == match keep_alive {
            Some(x) => x,
            None => default_sse_keep_alive(),
        },
{
    match keep_alive {
        Some(x) => x,
        None => 30,
    }
}

/// The address the HTTP server binds to: `<address>:<port>`, the address
/// being the loopback address when none is given.
pub fn bind_address(address: Option<&str>, port: u16) -> (a: String)
    ensures
        a@ == match address {
            Some(x) => x@,
            None => "127.0.0.1"@,
        } + ":"@ + decimal(port as nat),
{
    let mut s = match address {
        Some(x) => String::from_str(x),
        None => String::from_str("127.0.0.1"),
    };
    s.append(":");
    push_decimal(&mut s, port as u64);
    s
}

} // verus!
