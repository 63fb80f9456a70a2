use web_search_mcp::models::{new_search_state, SearchRequest, SearchResponse, SearchState};
use web_search_mcp::research::search_domain_request;
use web_search_mcp::results::{extract_results, pair_results, SelectedElement};
use web_search_mcp::search::{
    log_file_name, DdgSearch, LogEntry, Phase, SearchAction, SearchError, SearchEvent, SearchStep,
};
use web_search_mcp::throttle::{is_blocked, plan_wait, room_to_schedule, schedule_request};

const SEC: u64 = 1_000_000_000;

fn request(query: &str, max_results: Option<usize>) -> SearchRequest {
    SearchRequest {
        query: query.to_string(),
        search_type: "text".to_string(),
        max_results,
        time_range: None,
        region: None,
        safesearch: None,
        page: None,
        backend: None,
        filters: None,
    }
}

fn state() -> SearchState {
    new_search_state(1, 5, 1)
}

fn finished_ok(step: SearchStep) -> SearchResponse {
    match step.action {
        SearchAction::Finish(Ok(r)) => r,
        other => panic!("unexpected action {:?}", other),
    }
}

fn finished_err(step: SearchStep) -> SearchError {
    match step.action {
        SearchAction::Finish(Err(e)) => e,
        other => panic!("unexpected action {:?}", other),
    }
}

/// Starts a search on a fresh state (no wait) and answers its request with `body`.
fn run_once(req: SearchRequest, logging: bool, body: &str) -> (SearchStep, SearchState, DdgSearch) {
    let mut st = state();
    let mut search = DdgSearch::new(req, logging, 305);
    let first = search.step(&mut st, SearchEvent::Start { now: 5 * SEC, unix_secs: 100 });
    match &first.action {
        SearchAction::Fetch { query } => assert_eq!(query, &search.request.query),
        other => panic!("unexpected action {:?}", other),
    }
    assert!(first.logs.is_empty());
    let step = search.step(
        &mut st,
        SearchEvent::Fetched { now: 6 * SEC, unix_secs: 101, body: body.to_string() },
    );
    (step, st, search)
}

const ONE_RESULT: &str = r#"
    <html>
        <body>
            <div class="result">
                <a class="result-link" href="https://example.com">Test Result</a>
                <span class="result-snippet">Test description</span>
            </div>
        </body>
    </html>
"#;

const TWO_RESULTS: &str = r#"
    <html>
        <body>
            <div class="result">
                <a class="result-link" href="https://ex1.com">R1</a>
                <span class="result-snippet">S1</span>
            </div>
            <div class="result">
                <a class="result-link" href="https://ex2.com">R2</a>
                <span class="result-snippet">S2</span>
            </div>
        </body>
    </html>
"#;

#[test]
fn test_ddg_search_basic() {
    let (step, st, search) = run_once(request("test query", Some(1)), false, ONE_RESULT);
    let res = finished_ok(step);
    assert_eq!(res.query, "test query");
    assert_eq!(res.total_results, 1);
    assert_eq!(res.results[0].title, "Test Result");
    assert_eq!(res.results[0].url, "https://example.com");
    assert_eq!(res.results[0].body, "Test description");
    assert_eq!(res.error, None);
    assert_eq!(st.last_request_end, Some(6 * SEC as u128));
    assert_eq!(search.phase, Phase::Done);
}

#[test]
fn test_ddg_search_empty_query() {
    let mut st = state();
    let mut search = DdgSearch::new(request("", None), false, 305);
    let step = search.step(&mut st, SearchEvent::Start { now: SEC, unix_secs: 1 });
    assert!(step.logs.is_empty());
    let res = finished_ok(step);
    assert_eq!(res.total_results, 0);
    assert!(res.error.unwrap().contains("Query cannot be empty"));
    assert_eq!(st, state());
}

#[test]
fn blank_query_is_empty_query() {
    let mut st = state();
    let mut search = DdgSearch::new(request(" \t\n\u{3000}", None), false, 305);
    let res = finished_ok(search.step(&mut st, SearchEvent::Start { now: SEC, unix_secs: 1 }));
    assert_eq!(res.error, Some("Query cannot be empty".to_string()));
    assert_eq!(res.query, " \t\n\u{3000}");
}

#[test]
fn test_ddg_search_max_results() {
    let (step, _, _) = run_once(request("test", Some(1)), false, TWO_RESULTS);
    let res = finished_ok(step);
    assert_eq!(res.total_results, 1);
    assert_eq!(res.results[0].title, "R1");
}

#[test]
fn all_results_without_max() {
    let (step, _, _) = run_once(request("test", None), false, TWO_RESULTS);
    let res = finished_ok(step);
    assert_eq!(res.total_results, 2);
    assert_eq!(res.results[1].url, "https://ex2.com");
    assert_eq!(res.results[1].body, "S2");
}

#[test]
fn test_ddg_search_self_blocked() {
    let now = 10 * SEC;
    let mut st = state();
    st.blocked_until = Some((now + 60 * SEC) as u128);
    let before = st;
    let mut search = DdgSearch::new(request("test", None), false, 305);
    let step = search.step(&mut st, SearchEvent::Start { now, unix_secs: 7 });
    assert!(step.logs.is_empty());
    let err = finished_err(step);
    assert_eq!(err, SearchError::TooManyRequests { block_duration: 305 });
    assert!(err.message().contains("too many requests"));
    assert_eq!(err.message(), "too many requests. do not call us while 305 secs");
    assert_eq!(st, before);
}

#[test]
fn blocked_search_logs_when_enabled() {
    let mut st = state();
    st.blocked_until = Some(u128::MAX);
    let mut search = DdgSearch::new(request("test", None), true, 12);
    let step = search.step(&mut st, SearchEvent::Start { now: 3, unix_secs: 1700 });
    assert_eq!(step.logs.len(), 1);
    match &step.logs[0] {
        LogEntry::Text { file_name, content } => {
            assert_eq!(file_name, "error_1700_0.txt");
            assert_eq!(content, "too many requests. do not call us while 12 secs");
        }
        other => panic!("unexpected log {:?}", other),
    }
}

#[test]
fn test_search_domain_basic() {
    let req = search_domain_request("os module", "docs.python.org");
    assert_eq!(req.query, "site:docs.python.org os module");
    assert_eq!(req.max_results, Some(5));
    assert_eq!(req.search_type, "text");
    let html = r#"
        <html>
            <body>
                <div class="result">
                    <a class="result-link" href="https://docs.python.org/3/library/os.html">OS Module</a>
                    <span class="result-snippet">OS module provides portable way of using OS dependent functionality.</span>
                </div>
            </body>
        </html>
    "#;
    let (step, _, _) = run_once(req, false, html);
    let res = finished_ok(step);
    assert_eq!(res.total_results, 1);
    assert_eq!(res.results[0].title, "OS Module");
    assert!(res.results[0].url.contains("docs.python.org"));
}

#[test]
fn test_logging_disabled_normal_no_log() {
    // The original input: a page without hits, run through the retry.
    let (first, second) = run_no_hits(false);
    assert_eq!(first.logs.len() + second.logs.len(), 0, "No logs should be created when logging is disabled for normal response");
}

#[test]
fn test_logging_disabled_block_logs() {
    let (step, st, _) = run_once(request("test", None), false, "Unfortunately, bots use DuckDuckGo too.");
    assert!(step.logs.len() >= 2);
    match &step.logs[0] {
        LogEntry::Text { file_name, content } => {
            assert_eq!(file_name, "error_101_0.txt");
            assert_eq!(content, "Unfortunately, bots use DuckDuckGo too.");
        }
        other => panic!("unexpected log {:?}", other),
    }
    match &step.logs[1] {
        LogEntry::Text { file_name, .. } => assert_eq!(file_name, "raw_101_0.txt"),
        other => panic!("unexpected log {:?}", other),
    }
    assert_eq!(finished_err(step), SearchError::BotDetected);
    assert_eq!(st.blocked_until, Some((6 * SEC + 305 * SEC) as u128));
    assert_eq!(st.last_request_end, Some((6 * SEC) as u128));
}

#[test]
fn test_logging_enabled_all_logs() {
    // The original input: a page without hits, run through the retry.
    let (first, second) = run_no_hits(true);
    assert!(first.logs.len() + second.logs.len() >= 2, "Logs (raw and parsed) should be created when logging is enabled");
}

#[test]
fn logging_enabled_one_hit_logs_raw_and_parsed() {
    let (step, _, _) = run_once(request("test", None), true, ONE_RESULT);
    assert_eq!(step.logs.len(), 2);
    match &step.logs[0] {
        LogEntry::Text { file_name, content } => {
            assert_eq!(file_name, "raw_101_0.txt");
            assert_eq!(content, ONE_RESULT);
        }
        other => panic!("unexpected log {:?}", other),
    }
    match &step.logs[1] {
        LogEntry::Parsed { file_name, response } => {
            assert_eq!(file_name, "parsed_101_0.json");
            assert_eq!(response.total_results, 1);
        }
        other => panic!("unexpected log {:?}", other),
    }
}

#[test]
fn bot_page_blocks_next_search() {
    let (_, mut st, _) = run_once(request("test", None), false, "<p>Unfortunately, bots use DuckDuckGo too.</p>");
    assert!(is_blocked(&st, 7 * SEC));
    assert!(is_blocked(&st, 6 * SEC + 305 * SEC - 1));
    assert!(!is_blocked(&st, 6 * SEC + 305 * SEC));
    let mut next = DdgSearch::new(request("again", None), false, 305);
    let err = finished_err(next.step(&mut st, SearchEvent::Start { now: 100 * SEC, unix_secs: 0 }));
    assert_eq!(err, SearchError::TooManyRequests { block_duration: 305 });
}

#[test]
fn empty_page_is_retried_once() {
    let mut st = state();
    let mut search = DdgSearch::new(request("test", None), false, 305);
    search.step(&mut st, SearchEvent::Start { now: SEC, unix_secs: 1 });
    let body = "<html><body><div>Test</div></body></html>".to_string();
    let step = search.step(&mut st, SearchEvent::Fetched { now: 2 * SEC, unix_secs: 1, body: body.clone() });
    match step.action {
        SearchAction::Sleep { nanos } => assert_eq!(nanos, 30 * SEC as u128),
        other => panic!("unexpected action {:?}", other),
    }
    assert_eq!(search.phase, Phase::Sleeping { attempt: 1 });
    assert_eq!(st.last_request_end, None);
    let step = search.step(&mut st, SearchEvent::Slept);
    match step.action {
        SearchAction::Fetch { query } => assert_eq!(query, "test"),
        other => panic!("unexpected action {:?}", other),
    }
    let step = search.step(&mut st, SearchEvent::Fetched { now: 40 * SEC, unix_secs: 40, body });
    let err = finished_err(step);
    assert_eq!(err, SearchError::NoResults);
    assert_eq!(err.message(), "No results found.");
    assert_eq!(st.last_request_end, Some(40 * SEC as u128));
}

#[test]
fn failed_fetch_ends_search() {
    let mut st = state();
    let mut search = DdgSearch::new(request("test", None), true, 305);
    search.step(&mut st, SearchEvent::Start { now: SEC, unix_secs: 1 });
    assert!(search.accepts(&SearchEvent::FetchFailed { now: 0, unix_secs: 0, message: String::new() }));
    assert!(!search.accepts(&SearchEvent::Slept));
    let step = search.step(
        &mut st,
        SearchEvent::FetchFailed { now: 3 * SEC, unix_secs: 9, message: "connection refused".to_string() },
    );
    assert_eq!(step.logs.len(), 1);
    match &step.logs[0] {
        LogEntry::Text { file_name, content } => {
            assert_eq!(file_name, "error_9_0.txt");
            assert_eq!(content, "connection refused");
        }
        other => panic!("unexpected log {:?}", other),
    }
    let err = finished_err(step);
    assert_eq!(err.message(), "connection refused");
    assert_eq!(st.last_request_end, Some(3 * SEC as u128));
}

#[test]
fn second_search_waits() {
    let mut st = new_search_state(7, 7, 10);
    let mut first = DdgSearch::new(request("a", None), false, 305);
    first.step(&mut st, SearchEvent::Start { now: 0, unix_secs: 0 });
    first.step(&mut st, SearchEvent::Fetched { now: SEC, unix_secs: 0, body: ONE_RESULT.to_string() });
    let mut second = DdgSearch::new(request("b", None), false, 305);
    assert!(second.needs_wait_range(&st, 2 * SEC));
    let step = second.step(&mut st, SearchEvent::Start { now: 2 * SEC, unix_secs: 2 });
    // 7 s after the first start (at 0) is 7 s; 10 s after its end (at 1 s) is 11 s.
    match step.action {
        SearchAction::Sleep { nanos } => assert_eq!(nanos, 9 * SEC as u128),
        other => panic!("unexpected action {:?}", other),
    }
    assert_eq!(st.last_request_start, Some(11 * SEC as u128));
    assert_eq!(second.phase, Phase::Sleeping { attempt: 0 });
}

#[test]
fn plan_wait_takes_the_longer_wait() {
    let mut st = new_search_state(11, 18, 10);
    st.last_request_start = Some(SEC as u128);
    st.last_request_end = Some(2 * SEC as u128);
    let w = plan_wait(&mut st, 3 * SEC, 11);
    assert_eq!(w, 9 * SEC as u128);
    assert_eq!(st.last_request_start, Some(12 * SEC as u128));
    let mut st2 = new_search_state(11, 18, 1);
    st2.last_request_start = Some(SEC as u128);
    st2.last_request_end = Some(2 * SEC as u128);
    assert_eq!(plan_wait(&mut st2, 3 * SEC, 15), 13 * SEC as u128);
}

#[test]
fn queued_search_waits_for_the_earlier_one() {
    // The previous send is scheduled 5 s ahead; with a 10 s interval the next
    // one goes 10 s after it.
    let mut st = new_search_state(10, 10, 0);
    st.last_request_start = Some(6 * SEC as u128);
    let w = plan_wait(&mut st, SEC, 10);
    assert_eq!(w, 15 * SEC as u128);
    assert_eq!(st.last_request_start, Some(16 * SEC as u128));
    let mut search = DdgSearch::new(request("q", None), false, 305);
    let mut st2 = new_search_state(10, 10, 0);
    st2.last_request_start = Some(6 * SEC as u128);
    match search.step(&mut st2, SearchEvent::Start { now: SEC, unix_secs: 0 }).action {
        SearchAction::Sleep { nanos } => assert_eq!(nanos, 15 * SEC as u128),
        other => panic!("unexpected action {:?}", other),
    }
}

#[test]
fn room_for_waits() {
    let mut st = new_search_state(1, 5, 1);
    assert!(room_to_schedule(&st));
    st.last_request_start = Some(u128::MAX);
    assert!(!room_to_schedule(&st));
}

#[test]
fn long_pause_skips_the_interval() {
    let mut st = new_search_state(11, 18, 10);
    st.last_request_start = Some(0);
    st.last_request_end = Some(SEC as u128);
    assert_eq!(plan_wait(&mut st, 20 * SEC, 18), 0);
}

#[test]
fn scheduled_wait_lies_in_range() {
    for _ in 0..20 {
        let mut st = new_search_state(3, 6, 0);
        st.last_request_start = Some(10 * SEC as u128);
        let w = schedule_request(&mut st, 10 * SEC);
        assert!(w >= 3 * SEC as u128 && w <= 6 * SEC as u128);
        assert_eq!(w % SEC as u128, 0);
        assert_eq!(st.last_request_start, Some(10 * SEC as u128 + w));
    }
}

#[test]
fn log_names() {
    assert_eq!(log_file_name("raw", 1712345678, 1, ".txt"), "raw_1712345678_1.txt");
    assert_eq!(log_file_name("parsed", 0, 0, ".json"), "parsed_0_0.json");
}

#[test]
fn extract_results_reads_links_and_snippets() {
    let html = r#"<a class="result-link" href="https://a.org">A <b>bold</b> title</a>
        <span class="result-snippet">first <i>snippet</i></span>
        <a class="result-link">no href</a>"#;
    let res = extract_results(html, None);
    assert_eq!(res.len(), 1);
    assert_eq!(res[0].title, "A  bold  title");
    assert_eq!(res[0].url, "https://a.org");
    assert_eq!(res[0].body, "first  snippet");
    assert!(extract_results("<p>nothing</p>", Some(3)).is_empty());
}

#[test]
fn pair_results_joins_texts() {
    let links = vec![
        SelectedElement { attribute: None, texts: vec!["x".to_string(), "y".to_string()] },
        SelectedElement { attribute: Some("u".to_string()), texts: vec![] },
    ];
    let snippets = vec![
        SelectedElement { attribute: None, texts: vec!["s".to_string()] },
        SelectedElement { attribute: None, texts: vec!["t".to_string(), "".to_string()] },
        SelectedElement { attribute: None, texts: vec![] },
    ];
    let r = pair_results(&links, &snippets, None);
    assert_eq!(r.len(), 2);
    assert_eq!(r[0].title, "x y");
    assert_eq!(r[0].url, "");
    assert_eq!(r[1].url, "u");
    assert_eq!(r[1].title, "");
    assert_eq!(r[1].body, "t ");
    assert_eq!(pair_results(&links, &snippets, Some(1)).len(), 1);
    assert_eq!(pair_results(&links, &snippets, Some(9)).len(), 2);
}

fn log_names_of(step: &SearchStep) -> Vec<String> {
    step.logs
        .iter()
        .map(|l| match l {
            LogEntry::Text { file_name, .. } => file_name.clone(),
            LogEntry::Parsed { file_name, .. } => file_name.clone(),
        })
        .collect()
}

/// Runs the page without hits through both attempts and returns the two steps.
fn run_no_hits(logging: bool) -> (SearchStep, SearchStep) {
    let body = "<html><body><div>Test</div></body></html>".to_string();
    let mut st = state();
    let mut search = DdgSearch::new(request("test", None), logging, 305);
    search.step(&mut st, SearchEvent::Start { now: SEC, unix_secs: 10 });
    let first = search.step(&mut st, SearchEvent::Fetched { now: 2 * SEC, unix_secs: 10, body: body.clone() });
    match first.action {
        SearchAction::Sleep { nanos } => assert_eq!(nanos, 30 * SEC as u128),
        ref other => panic!("unexpected action {:?}", other),
    }
    search.step(&mut st, SearchEvent::Slept);
    let second = search.step(&mut st, SearchEvent::Fetched { now: 33 * SEC, unix_secs: 41, body });
    (first, second)
}

#[test]
fn no_hits_with_logging_enabled_logs_both_attempts() {
    let (first, second) = run_no_hits(true);
    assert_eq!(log_names_of(&first), vec!["raw_10_0.txt".to_string(), "parsed_10_0.json".to_string()]);
    assert_eq!(log_names_of(&second), vec!["raw_41_1.txt".to_string(), "parsed_41_1.json".to_string()]);
    match &first.logs[1] {
        LogEntry::Parsed { response, .. } => assert_eq!(response.total_results, 0),
        other => panic!("unexpected log {:?}", other),
    }
    assert_eq!(finished_err(second), SearchError::NoResults);
}

#[test]
fn no_hits_with_logging_disabled_logs_nothing() {
    let (first, second) = run_no_hits(false);
    assert!(first.logs.is_empty());
    assert!(second.logs.is_empty());
    assert_eq!(finished_err(second), SearchError::NoResults);
}
