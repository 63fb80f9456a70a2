use web_search_mcp::config::{
    base_url_from, bind_address, block_duration_from, choose_user_agent, log_dir_from,
    logging_enabled_from, session_keep_alive, sse_keep_alive,
};
use web_search_mcp::text::{
    chars_of, contains_str, is_blank_str, join_strings, parse_u64_str, trim_str, u64_to_decimal,
};
use web_search_mcp::tools::{
    default_domain, default_max_length, default_output_format, default_search_type,
    default_timeout, listed_resources, read_resource, research_prompt, same_text,
    web_search_request,
};
use web_search_mcp::user_agent::UserAgent;

#[test]
fn trimming() {
    assert_eq!(trim_str("  hello world \n"), "hello world");
    assert_eq!(trim_str("\u{3000}\u{a0}x\u{2003}"), "x");
    assert_eq!(trim_str(" \t "), "");
    assert_eq!(trim_str("ab"), "ab");
    for s in ["", " a b ", "\u{85}z\u{85}", "日本 "] {
        assert_eq!(trim_str(s), s.trim());
        assert_eq!(is_blank_str(s), s.trim().is_empty());
    }
    assert!(is_blank_str(""));
    assert!(!is_blank_str(" x "));
}

#[test]
fn chars_and_contains() {
    assert_eq!(chars_of("héllo"), vec!['h', 'é', 'l', 'l', 'o']);
    assert!(contains_str("abc Unfortunately, bots xyz", "bots"));
    assert!(contains_str("abc", ""));
    assert!(!contains_str("ab", "abc"));
    assert!(!contains_str("aab", "abb"));
    assert!(contains_str("aab", "ab"));
}

#[test]
fn joining() {
    let parts = vec!["a".to_string(), "".to_string(), "c".to_string()];
    assert_eq!(join_strings(&parts, " "), "a  c");
    assert_eq!(join_strings(&vec![], "-"), "");
    assert_eq!(join_strings(&vec!["solo".to_string()], ", "), "solo");
}

#[test]
fn decimal_round_trip() {
    for n in [0u64, 7, 10, 305, 1234567890, u64::MAX] {
        assert_eq!(u64_to_decimal(n), n.to_string());
        assert_eq!(parse_u64_str(&n.to_string()), Some(n));
    }
}

#[test]
fn parsing_like_std() {
    for s in ["", "+", "-1", "12a", " 5", "+42", "007", "18446744073709551615", "18446744073709551616", "99999999999999999999", "+0"] {
        assert_eq!(parse_u64_str(s), s.parse::<u64>().ok(), "input {:?}", s);
    }
}

#[test]
fn environment_values() {
    assert!(logging_enabled_from(Some("true")));
    assert!(logging_enabled_from(Some("TrUe")));
    assert!(logging_enabled_from(Some("1")));
    assert!(!logging_enabled_from(Some("yes")));
    assert!(!logging_enabled_from(Some("true ")));
    assert!(!logging_enabled_from(Some("11")));
    assert!(!logging_enabled_from(None));
    assert_eq!(log_dir_from(None), "logs");
    assert_eq!(log_dir_from(Some("d".to_string())), "d");
    assert_eq!(block_duration_from(None), 305);
    assert_eq!(block_duration_from(Some("60")), 60);
    assert_eq!(block_duration_from(Some("soon")), 305);
    assert_eq!(block_duration_from(Some("18446744073709551616")), 305);
    assert_eq!(base_url_from(None), "https://lite.duckduckgo.com/lite/");
    assert_eq!(base_url_from(Some("http://localhost:1".to_string())), "http://localhost:1");
}

#[test]
fn startup_choices() {
    assert_eq!(choose_user_agent(Some("cli".into()), Some("file".into()), "0.1.0"), "cli");
    assert_eq!(choose_user_agent(None, Some("file".into()), "0.1.0"), "file");
    assert_eq!(
        choose_user_agent(None, None, "0.1.0"),
        "web-search-mcp-rust/0.1.0 (+https://github.com/k2ok/web-search-mcp-rust)"
    );
    assert_eq!(session_keep_alive(None), None);
    assert_eq!(session_keep_alive(Some(0)), None);
    assert_eq!(session_keep_alive(Some(90)), Some(90));
    assert_eq!(sse_keep_alive(None), 30);
    assert_eq!(sse_keep_alive(Some(5)), 5);
    assert_eq!(bind_address(None, 4126), "127.0.0.1:4126");
    assert_eq!(bind_address(Some("0.0.0.0"), 0), "0.0.0.0:0");
}

#[test]
fn tool_defaults_and_prompt() {
    assert_eq!(default_search_type(), "text");
    assert_eq!(default_output_format(), "txt");
    assert_eq!(default_max_length(), 15000);
    assert_eq!(default_timeout(), 30);
    assert_eq!(default_domain(), "docs.python.org");
    let r = web_search_request("q".into(), "news".into(), Some(3));
    assert_eq!((r.query.as_str(), r.search_type.as_str(), r.max_results), ("q", "news", Some(3)));
    assert!(r.filters.is_none() && r.page.is_none());
    assert_eq!(web_search_request("q".into(), "text".into(), None).max_results, Some(5));
    assert_eq!(
        research_prompt("Rust", None),
        "I want to conduct a comprehensive research on the topic: Rust. Please help me find the most relevant information and synthesize it."
    );
    assert_eq!(
        research_prompt("Verus", Some("quick")),
        "I want to conduct a quick research on the topic: Verus. Please help me find the most relevant information and synthesize it."
    );
}

#[test]
fn resources() {
    let list = listed_resources();
    assert_eq!(list, vec![("web://search/docs".to_string(), "Search Documentation".to_string())]);
    assert_eq!(
        read_resource("web://search/docs").unwrap(),
        "Web Search MCP Server Documentation\n\nThis server provides tools for web search and page extraction."
    );
    assert_eq!(read_resource("web://search/doc"), None);
    assert!(same_text("ab", "ab"));
    assert!(!same_text("ab", "abc"));
}

#[test]
fn user_agent_keeps_its_string() {
    let ua = UserAgent::new("test-agent".to_string());
    assert_eq!(ua.default(), "test-agent");
}
