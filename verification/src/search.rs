//! One DuckDuckGo search, as a state machine: the caller performs the waits,
//! the fetches and the log writes that it asks for, and hands back what came
//! of them.
use crate::models::{
    results_view, SearchRequest, SearchResponse, SearchResponseView, SearchResult, SearchResultView,
    SearchState,
};
use crate::results::{extract_results, page_hits};
use crate::text::{contains, contains_str, decimal, is_blank, is_blank_str, push_decimal};
use crate::throttle::{
    blocked_at, blocked_from, block_from, finish_request, finished_at, has_room, is_blocked, nanos,
    planned_wait, schedule_request, scheduled,
};
use vstd::prelude::*;

verus! {

/// Why a search failed.
#[derive(Debug, Clone, PartialEq, Eq)]
pub enum SearchError {
    /// Searches are refused during the cooldown of `block_duration` seconds.
    TooManyRequests { block_duration: u64 },
    /// The search engine answered with its bot-detection page.
    BotDetected,
    /// The request could not be sent or its answer not read.
    Fetch { message: String },
    /// No hits, after the one retry.
    NoResults,
}

/// The abstract value of a [`SearchError`].
pub enum SearchErrorView {
    TooManyRequests { block_duration: u64 },
    BotDetected,
    Fetch { message: Seq<char> },
    NoResults,
}

impl View for SearchError {
    type V = SearchErrorView;

    open spec fn view(&self) -> SearchErrorView {
        match self {
            SearchError::TooManyRequests { block_duration } => SearchErrorView::TooManyRequests {
                block_duration: *block_duration,
            },
            SearchError::BotDetected => SearchErrorView::BotDetected,
            SearchError::Fetch { message } => SearchErrorView::Fetch { message: message@ },
            SearchError::NoResults => SearchErrorView::NoResults,
        }
    }
}

/// The sentence by which the search engine says that it took us for a bot.
pub open spec fn bot_notice() -> Seq<char> {
    "Unfortunately, bots use DuckDuckGo too."@
}

/// The text of an error.
pub open spec fn error_text(e: SearchErrorView) -> Seq<char> {
    match e {
        SearchErrorView::TooManyRequests { block_duration } => "too many requests. do not call us while "@
            + decimal(block_duration as nat) + " secs"@,
        SearchErrorView::BotDetected => bot_notice(),
        SearchErrorView::Fetch { message } => message,
        SearchErrorView::NoResults => "No results found."@,
    }
}

fn bot_notice_str() -> (s: &'static str)
    ensures
        s@ == bot_notice(),
{
    "Unfortunately, bots use DuckDuckGo too."
}

impl SearchError {
    /// The text of the error.
    pub fn message(&self) -> (s: String)
        ensures
            s@ == error_text(self@),
    {
        match self {
            SearchError::TooManyRequests { block_duration } => {
                let mut s = String::new();
                s.append("too many requests. do not call us while ");
                push_decimal(&mut s, *block_duration);
                s.append(" secs");
                s
            },
            SearchError::BotDetected => String::from_str(bot_notice_str()),
            SearchError::Fetch { message } => message.clone(),
            SearchError::NoResults => String::from_str("No results found."),
        }
    }
}

/// A file that the search asks to be written to the log directory.
#[derive(Debug, Clone)]
pub enum LogEntry {
    /// A text file with the given content.
    Text { file_name: String, content: String },
    /// The response, written as pretty-printed JSON.
    Parsed { file_name: String, response: SearchResponse },
}

/// The abstract value of a [`LogEntry`].
pub enum LogView {
    Text { file_name: Seq<char>, content: Seq<char> },
    Parsed { file_name: Seq<char>, response: SearchResponseView },
}

impl View for LogEntry {
    type V = LogView;

    open spec fn view(&self) -> LogView {
        match self {
            LogEntry::Text { file_name, content } => LogView::Text {
                file_name: file_name@,
                content: content@,
            },
            LogEntry::Parsed { file_name, response } => LogView::Parsed {
                file_name: file_name@,
                response: response@,
            },
        }
    }
}

/// The views of log entries.
pub open spec fn logs_view(v: Seq<LogEntry>) -> Seq<LogView> {
    v.map_values(|l: LogEntry| l@)
}

proof fn lemma_logs_view_push(v: Seq<LogEntry>, l: LogEntry)
    ensures
        logs_view(v.push(l)) == logs_view(v).push(l@),
{
    assert(logs_view(v.push(l)) =~= logs_view(v).push(l@));
}

proof fn lemma_logs_view_empty()
    ensures
        logs_view(Seq::empty()) == Seq::<LogView>::empty(),
{
    assert(logs_view(Seq::empty()) =~= Seq::<LogView>::empty());
}

/// What the caller is to do next.
#[derive(Debug)]
pub enum SearchAction {
    /// Sleep for `nanos` nanoseconds, then report `Slept`.
    Sleep { nanos: u128 },
    /// Send the search request for `query`, then report `Fetched` or `FetchFailed`.
    Fetch { query: String },
    /// The search is over, with this outcome.
    Finish(Result<SearchResponse, SearchError>),
}

/// The abstract value of a [`SearchAction`].
pub enum ActionView {
    Sleep { nanos: int },
    Fetch { query: Seq<char> },
    Finish(Result<SearchResponseView, SearchErrorView>),
}

impl View for SearchAction {
    type V = ActionView;

    open spec fn view(&self) -> ActionView {
        match self {
            SearchAction::Sleep { nanos } => ActionView::Sleep { nanos: *nanos as int },
            SearchAction::Fetch { query } => ActionView::Fetch { query: query@ },
            SearchAction::Finish(r) => ActionView::Finish(
                match r {
                    Ok(resp) => Ok(resp@),
                    Err(e) => Err(e@),
                },
            ),
        }
    }
}

/// The answer of one step: files to write first, then what to do.
#[derive(Debug)]
pub struct SearchStep {
    pub logs: Vec<LogEntry>,
    pub action: SearchAction,
}

/// What the caller reports to the search.
#[derive(Debug, Clone)]
pub enum SearchEvent {
    /// The search begins, at `now` (monotonic nanoseconds) and `unix_secs`.
    Start { now: u64, unix_secs: u64 },
    /// The requested sleep is over.
    Slept,
    /// The request, sent at `unix_secs`, was answered with `body`; it is `now`.
    Fetched { now: u64, unix_secs: u64, body: String },
    /// The request, sent at `unix_secs`, failed with `message`; it is `now`.
    FetchFailed { now: u64, unix_secs: u64, message: String },
}

/// Where a search stands.
#[derive(Debug, Clone, Copy, PartialEq, Eq)]
pub enum Phase {
    /// Not begun.
    Ready,
    /// Waiting before the request of attempt `attempt` is sent.
    Sleeping { attempt: u64 },
    /// The request of attempt `attempt` is out.
    Fetching { attempt: u64 },
    /// Over.
    Done,
}

/// One search of DuckDuckGo Lite.
#[derive(Debug, Clone)]
pub struct DdgSearch {
    pub request: SearchRequest,
    /// Whether request and response logs are written.
    pub logging_enabled: bool,
    /// The cooldown after a bot-detection answer, in seconds.
    pub block_duration: u64,
    pub phase: Phase,
}

/// The event is one that the phase waits for.
pub open spec fn event_fits(phase: Phase, event: SearchEvent) -> bool {
    match (phase, event) {
        (Phase::Ready, SearchEvent::Start { .. }) => true,
        (Phase::Sleeping { .. }, SearchEvent::Slept) => true,
        (Phase::Fetching { .. }, SearchEvent::Fetched { .. }) => true,
        (Phase::Fetching { .. }, SearchEvent::FetchFailed { .. }) => true,
        _ => false,
    }
}

/// The name of a log file: `<prefix>_<unix_secs>_<attempt><ext>`.
pub open spec fn log_name(prefix: Seq<char>, unix_secs: u64, attempt: u64, ext: Seq<char>) -> Seq<char> {
    prefix + "_"@ + decimal(unix_secs as nat) + "_"@ + decimal(attempt as nat) + ext
}

/// The answer to a query that is empty or all whitespace.
pub open spec fn empty_query_response(req: SearchRequest) -> SearchResponseView {
    SearchResponseView {
        query: req.query@,
        search_type: req.search_type@,
        total_results: 0,
        results: Seq::empty(),
        error: Some("Query cannot be empty"@),
    }
}

/// The answer that carries the hits `hits`.
pub open spec fn found_response(req: SearchRequest, hits: Seq<SearchResultView>) -> SearchResponseView {
    SearchResponseView {
        query: req.query@,
        search_type: req.search_type@,
        total_results: hits.len(),
        results: hits,
        error: None,
    }
}

/// The log entry `l`, when logging is enabled; nothing otherwise.
pub open spec fn if_enabled(enabled: bool, l: LogView) -> Seq<LogView> {
    if enabled {
        seq![l]
    } else {
        Seq::empty()
    }
}

/// The pause before the second attempt, when the first found nothing.
pub open spec fn retry_pause() -> int {
    nanos(30)
}

/// How many more attempts are made when an attempt finds nothing.
pub open spec fn max_retries() -> u64 {
    1
}

/// The outcome of a step, as a whole: the search and the shared state
/// afterwards, the files to write, and the action.
pub struct StepOutcome {
    pub phase: Phase,
    pub state: SearchState,
    pub logs: Seq<LogView>,
    pub action: ActionView,
}

/// The outcome of `Start` at `now`, when the wait was planned with `target`.
pub open spec fn start_outcome(
    search: DdgSearch,
    state: SearchState,
    now: u64,
    unix_secs: u64,
    target: u64,
) -> StepOutcome {
    if is_blank(search.request.query@) {
        StepOutcome {
            phase: Phase::Done,
            state,
            logs: Seq::empty(),
            action: ActionView::Finish(Ok(empty_query_response(search.request))),
        }
    } else if blocked_at(state, now) {
        let e = SearchErrorView::TooManyRequests { block_duration: search.block_duration };
        StepOutcome {
            phase: Phase::Done,
            state,
            logs: if_enabled(
                search.logging_enabled,
                LogView::Text {
                    file_name: log_name("error"@, unix_secs, 0, ".txt"@),
                    content: error_text(e),
                },
            ),
            action: ActionView::Finish(Err(e)),
        }
    } else {
        let wait = planned_wait(state, now, target);
        StepOutcome {
            phase: if wait > 0 {
                Phase::Sleeping { attempt: 0 }
            } else {
                Phase::Fetching { attempt: 0 }
            },
            state: scheduled(state, now, wait),
            logs: Seq::empty(),
            action: if wait > 0 {
                ActionView::Sleep { nanos: wait }
            } else {
                ActionView::Fetch { query: search.request.query@ }
            },
        }
    }
}

/// The outcome of the answer `body` to attempt `attempt`, received at `now`.
pub open spec fn fetched_outcome(
    search: DdgSearch,
    state: SearchState,
    attempt: u64,
    now: u64,
    unix_secs: u64,
    body: Seq<char>,
) -> StepOutcome {
    let raw = LogView::Text { file_name: log_name("raw"@, unix_secs, attempt, ".txt"@), content: body };
    let raw_logs = if_enabled(search.logging_enabled, raw);
    if contains(body, bot_notice()) {
        StepOutcome {
            phase: Phase::Done,
            state: finished_at(blocked_from(state, now, search.block_duration), now),
            logs: raw_logs + seq![
                LogView::Text {
                    file_name: log_name("error"@, unix_secs, attempt, ".txt"@),
                    content: bot_notice(),
                },
                raw,
            ],
            action: ActionView::Finish(Err(SearchErrorView::BotDetected)),
        }
    } else {
        let hits = page_hits(body, search.request.max_results);
        let response = found_response(search.request, hits);
        let logs = raw_logs + if_enabled(
            search.logging_enabled,
            LogView::Parsed {
                file_name: log_name("parsed"@, unix_secs, attempt, ".json"@),
                response,
            },
        );
        if hits.len() == 0 && attempt < max_retries() {
            StepOutcome {
                phase: Phase::Sleeping { attempt: (attempt + 1) as u64 },
                state,
                logs,
                action: ActionView::Sleep { nanos: retry_pause() },
            }
        } else if hits.len() == 0 {
            StepOutcome {
                phase: Phase::Done,
                state: finished_at(state, now),
                logs,
                action: ActionView::Finish(Err(SearchErrorView::NoResults)),
            }
        } else {
            StepOutcome {
                phase: Phase::Done,
                state: finished_at(state, now),
                logs,
                action: ActionView::Finish(Ok(response)),
            }
        }
    }
}

/// The outcome of a failed request of attempt `attempt`, at `now`.
pub open spec fn failed_outcome(
    search: DdgSearch,
    state: SearchState,
    attempt: u64,
    now: u64,
    unix_secs: u64,
    message: Seq<char>,
) -> StepOutcome {
    StepOutcome {
        phase: Phase::Done,
        state: finished_at(state, now),
        logs: if_enabled(
            search.logging_enabled,
            LogView::Text { file_name: log_name("error"@, unix_secs, attempt, ".txt"@), content: message },
        ),
        action: ActionView::Finish(Err(SearchErrorView::Fetch { message })),
    }
}

/// The outcome of a step of `search` on `event`, with the shared state
/// `state`; `target` is the interval drawn for the wait, where one is drawn.
pub open spec fn step_outcome(search: DdgSearch, state: SearchState, event: SearchEvent, target: u64) -> StepOutcome {
    match event {
        SearchEvent::Start { now, unix_secs } => start_outcome(search, state, now, unix_secs, target),
        SearchEvent::Slept => StepOutcome {
            phase: match search.phase {
                Phase::Sleeping { attempt } => Phase::Fetching { attempt },
                _ => search.phase,
            },
            state,
            logs: Seq::empty(),
            action: ActionView::Fetch { query: search.request.query@ },
        },
        SearchEvent::Fetched { now, unix_secs, body } => match search.phase {
            Phase::Fetching { attempt } => fetched_outcome(search, state, attempt, now, unix_secs, body@),
            _ => StepOutcome { phase: search.phase, state, logs: Seq::empty(), action: ActionView::Sleep { nanos: 0 } },
        },
        SearchEvent::FetchFailed { now, unix_secs, message } => match search.phase {
            Phase::Fetching { attempt } => failed_outcome(search, state, attempt, now, unix_secs, message@),
            _ => StepOutcome { phase: search.phase, state, logs: Seq::empty(), action: ActionView::Sleep { nanos: 0 } },
        },
    }
}

/// A target interval is drawn on this step.
pub open spec fn draws_target(search: DdgSearch, state: SearchState, event: SearchEvent) -> bool {
    match event {
        SearchEvent::Start { now, .. } => !is_blank(search.request.query@) && !blocked_at(state, now),
        _ => false,
    }
}

/// The name of a log file: `<prefix>_<unix_secs>_<attempt><ext>`.
pub fn log_file_name(prefix: &str, unix_secs: u64, attempt: u64, ext: &str) -> (s: String)
    ensures
        s@ == log_name(prefix@, unix_secs, attempt, ext@),
{
    let mut s = String::new();
    s.append(prefix);
    s.append("_");
    push_decimal(&mut s, unix_secs);
    s.append("_");
    push_decimal(&mut s, attempt);
    s.append(ext);
    s
}

fn response_with(req: &SearchRequest, results: Vec<SearchResult>) -> (r: SearchResponse)
    ensures
        r@ == found_response(*req, results_view(results@)),
{
    let n = results.len();
    SearchResponse {
        query: req.query.clone(),
        search_type: req.search_type.clone(),
        total_results: n,
        results,
        error: None,
    }
}


impl DdgSearch {
    /// A search for `request`, not begun.
    pub fn new(request: SearchRequest, logging_enabled: bool, block_duration: u64) -> (s: Self)
        ensures
            s.request == request,
            s.logging_enabled == logging_enabled,
            s.block_duration == block_duration,
            s.phase == Phase::Ready,
    {
        DdgSearch { request, logging_enabled, block_duration, phase: Phase::Ready }
    }

    /// Whether the search waits for `event`.
    pub fn accepts(&self, event: &SearchEvent) -> (b: bool)
        ensures
            b == event_fits(self.phase, *event),
    {
        match (self.phase, event) {
            (Phase::Ready, SearchEvent::Start { .. }) => true,
            (Phase::Sleeping { .. }, SearchEvent::Slept) => true,
            (Phase::Fetching { .. }, SearchEvent::Fetched { .. }) => true,
            (Phase::Fetching { .. }, SearchEvent::FetchFailed { .. }) => true,
            _ => false,
        }
    }

    /// Whether a `Start` at `now` schedules a request: the target interval is
    /// then drawn from the configured range, which must not be empty, and the
    /// state's instants must leave room for the wait (see `room_to_schedule`).
    pub fn needs_wait_range(&self, state: &SearchState, now: u64) -> (b: bool)
        ensures
            b == draws_target(*self, *state, SearchEvent::Start { now, unix_secs: 0 }),
    {
        !is_blank_str(self.request.query.as_str()) && !is_blocked(state, now)
    }

    /// Takes the next step on `event`.
    pub fn step(&mut self, state: &mut SearchState, event: SearchEvent) -> (r: SearchStep)
        requires
            event_fits(old(self).phase, event),
            draws_target(*old(self), *old(state), event) ==> old(state).min_wait <= old(
                state,
            ).max_wait && has_room(*old(state), old(state).max_wait),
        ensures
            final(self).request == old(self).request,
            final(self).logging_enabled == old(self).logging_enabled,
            final(self).block_duration == old(self).block_duration,
            exists|t: u64|
                {
                    &&& (draws_target(*old(self), *old(state), event) ==> old(state).min_wait <= t
                        <= old(state).max_wait)
                    &&& step_outcome(*old(self), *old(state), event, t) == (StepOutcome {
                        phase: final(self).phase,
                        state: *final(state),
                        logs: logs_view(r.logs@),
                        action: r.action@,
                    })
                },
    {
        match event {
            SearchEvent::Start { now, unix_secs } => {
                let r = self.on_start(state, now, unix_secs);
                proof {
                    let t = choose|t: u64|
                        {
                            &&& (!is_blank(old(self).request.query@) && !blocked_at(*old(state), now)
                                ==> old(state).min_wait <= t <= old(state).max_wait)
                            &&& start_outcome(*old(self), *old(state), now, unix_secs, t) == (StepOutcome {
                                phase: self.phase,
                                state: *state,
                                logs: logs_view(r.logs@),
                                action: r.action@,
                            })
                        };
                    assert(step_outcome(*old(self), *old(state), event, t) == (StepOutcome {
                        phase: self.phase,
                        state: *state,
                        logs: logs_view(r.logs@),
                        action: r.action@,
                    }));
                }
                r
            },
            SearchEvent::Slept => {
                let attempt = match self.phase {
                    Phase::Sleeping { attempt } => attempt,
                    _ => 0,
                };
                self.phase = Phase::Fetching { attempt };
                let r = SearchStep {
                    logs: Vec::new(),
                    action: SearchAction::Fetch { query: self.request.query.clone() },
                };
                proof {
                    assert(logs_view(r.logs@) == Seq::<LogView>::empty());
                    assert(step_outcome(*old(self), *old(state), event, 0) == (StepOutcome {
                        phase: self.phase,
                        state: *state,
                        logs: logs_view(r.logs@),
                        action: r.action@,
                    }));
                }
                r
            },
            SearchEvent::Fetched { now, unix_secs, body } => {
                let attempt = match self.phase {
                    Phase::Fetching { attempt } => attempt,
                    _ => 0,
                };
                let r = self.on_fetched(state, attempt, now, unix_secs, body);
                proof {
                    assert(step_outcome(*old(self), *old(state), event, 0) == (StepOutcome {
                        phase: self.phase,
                        state: *state,
                        logs: logs_view(r.logs@),
                        action: r.action@,
                    }));
                }
                r
            },
            SearchEvent::FetchFailed { now, unix_secs, message } => {
                let attempt = match self.phase {
                    Phase::Fetching { attempt } => attempt,
                    _ => 0,
                };
                let r = self.on_failed(state, attempt, now, unix_secs, message);
                proof {
                    assert(step_outcome(*old(self), *old(state), event, 0) == (StepOutcome {
                        phase: self.phase,
                        state: *state,
                        logs: logs_view(r.logs@),
                        action: r.action@,
                    }));
                }
                r
            },
        }
    }

    fn on_start(&mut self, state: &mut SearchState, now: u64, unix_secs: u64) -> (r: SearchStep)
        requires
            !is_blank(old(self).request.query@) && !blocked_at(*old(state), now) ==> old(
                state,
            ).min_wait <= old(state).max_wait && has_room(*old(state), old(state).max_wait),
        ensures
            final(self).request == old(self).request,
            final(self).logging_enabled == old(self).logging_enabled,
            final(self).block_duration == old(self).block_duration,
            exists|t: u64|
                {
                    &&& (!is_blank(old(self).request.query@) && !blocked_at(*old(state), now)
                        ==> old(state).min_wait <= t <= old(state).max_wait)
                    &&& start_outcome(*old(self), *old(state), now, unix_secs, t) == (StepOutcome {
                        phase: final(self).phase,
                        state: *final(state),
                        logs: logs_view(r.logs@),
                        action: r.action@,
                    })
                },
    {
        if is_blank_str(self.request.query.as_str()) {
            self.phase = Phase::Done;
            let response = SearchResponse {
                query: self.request.query.clone(),
                search_type: self.request.search_type.clone(),
                total_results: 0,
                results: Vec::new(),
                error: Some(String::from_str("Query cannot be empty")),
            };
            let r = SearchStep { logs: Vec::new(), action: SearchAction::Finish(Ok(response)) };
            proof {
                assert(results_view(response.results@) == Seq::<SearchResultView>::empty());
                assert(logs_view(r.logs@) == Seq::<LogView>::empty());
                assert(start_outcome(*old(self), *old(state), now, unix_secs, 0) == (StepOutcome {
                    phase: self.phase,
                    state: *state,
                    logs: logs_view(r.logs@),
                    action: r.action@,
                }));
            }
            return r;
        }
        if is_blocked(state, now) {
            self.phase = Phase::Done;
            let e = SearchError::TooManyRequests { block_duration: self.block_duration };
            let mut logs: Vec<LogEntry> = Vec::new();
            if self.logging_enabled {
                logs.push(
                    LogEntry::Text {
                        file_name: log_file_name("error", unix_secs, 0, ".txt"),
                        content: e.message(),
                    },
                );
            }
            let r = SearchStep { logs, action: SearchAction::Finish(Err(e)) };
            proof {
                if self.logging_enabled {
                    assert(logs_view(r.logs@) =~= seq![r.logs@[0]@]);
                } else {
                    assert(logs_view(r.logs@) =~= Seq::<LogView>::empty());
                }
                assert(start_outcome(*old(self), *old(state), now, unix_secs, 0) == (StepOutcome {
                    phase: self.phase,
                    state: *state,
                    logs: logs_view(r.logs@),
                    action: r.action@,
                }));
            }
            return r;
        }
        let ghost s0 = *state;
        let wait = schedule_request(state, now);
        let ghost t = choose|t: u64|
            s0.min_wait <= t <= s0.max_wait && wait == planned_wait(s0, now, t) && *state
                == scheduled(s0, now, wait as int);
        let action = if wait > 0 {
            self.phase = Phase::Sleeping { attempt: 0 };
            SearchAction::Sleep { nanos: wait }
        } else {
            self.phase = Phase::Fetching { attempt: 0 };
            SearchAction::Fetch { query: self.request.query.clone() }
        };
        let r = SearchStep { logs: Vec::new(), action };
        proof {
            assert(logs_view(r.logs@) == Seq::<LogView>::empty());
            assert(start_outcome(*old(self), *old(state), now, unix_secs, t) == (StepOutcome {
                phase: self.phase,
                state: *state,
                logs: logs_view(r.logs@),
                action: r.action@,
            }));
        }
        r
    }

    fn on_fetched(
        &mut self,
        state: &mut SearchState,
        attempt: u64,
        now: u64,
        unix_secs: u64,
        body: String,
    ) -> (r: SearchStep)
        ensures
            final(self).request == old(self).request,
            final(self).logging_enabled == old(self).logging_enabled,
            final(self).block_duration == old(self).block_duration,
            fetched_outcome(*old(self), *old(state), attempt, now, unix_secs, body@) == (StepOutcome {
                phase: final(self).phase,
                state: *final(state),
                logs: logs_view(r.logs@),
                action: r.action@,
            }),
    {
        let mut logs: Vec<LogEntry> = Vec::new();
        proof {
            lemma_logs_view_empty();
        }
        if self.logging_enabled {
            let l = LogEntry::Text {
                file_name: log_file_name("raw", unix_secs, attempt, ".txt"),
                content: body.clone(),
            };
            proof {
                lemma_logs_view_push(logs@, l);
            }
            logs.push(l);
            assert(logs_view(logs@) == seq![l@]);
        }
        let ghost raw_logs = logs_view(logs@);
        assert(raw_logs == if_enabled(
            self.logging_enabled,
            LogView::Text { file_name: log_name("raw"@, unix_secs, attempt, ".txt"@), content: body@ },
        ));
        if contains_str(body.as_str(), bot_notice_str()) {
            block_from(state, now, self.block_duration);
            finish_request(state, now);
            let l1 = LogEntry::Text {
                file_name: log_file_name("error", unix_secs, attempt, ".txt"),
                content: String::from_str(bot_notice_str()),
            };
            proof {
                lemma_logs_view_push(logs@, l1);
            }
            logs.push(l1);
            let l2 = LogEntry::Text {
                file_name: log_file_name("raw", unix_secs, attempt, ".txt"),
                content: body,
            };
            proof {
                lemma_logs_view_push(logs@, l2);
            }
            logs.push(l2);
            assert(logs_view(logs@) =~= raw_logs + seq![l1@, l2@]);
            self.phase = Phase::Done;
            let r = SearchStep { logs, action: SearchAction::Finish(Err(SearchError::BotDetected)) };
            return r;
        }
        let results = extract_results(body.as_str(), self.request.max_results);
        let response = response_with(&self.request, results);
        let ghost hits = page_hits(body@, self.request.max_results);
        assert(response@ == found_response(self.request, hits));
        if self.logging_enabled {
            let l = LogEntry::Parsed {
                file_name: log_file_name("parsed", unix_secs, attempt, ".json"),
                response: response.copy(),
            };
            proof {
                lemma_logs_view_push(logs@, l);
            }
            logs.push(l);
            assert(logs_view(logs@) =~= raw_logs + seq![l@]);
        } else {
            assert(logs_view(logs@) =~= raw_logs + Seq::<LogView>::empty());
        }
        if response.total_results == 0 && attempt < 1 {
            self.phase = Phase::Sleeping { attempt: attempt + 1 };
            SearchStep { logs, action: SearchAction::Sleep { nanos: 30_000_000_000 } }
        } else if response.total_results == 0 {
            finish_request(state, now);
            self.phase = Phase::Done;
            SearchStep { logs, action: SearchAction::Finish(Err(SearchError::NoResults)) }
        } else {
            finish_request(state, now);
            self.phase = Phase::Done;
            SearchStep { logs, action: SearchAction::Finish(Ok(response)) }
        }
    }

    fn on_failed(
        &mut self,
        state: &mut SearchState,
        attempt: u64,
        now: u64,
        unix_secs: u64,
        message: String,
    ) -> (r: SearchStep)
        ensures
            final(self).request == old(self).request,
            final(self).logging_enabled == old(self).logging_enabled,
            final(self).block_duration == old(self).block_duration,
            failed_outcome(*old(self), *old(state), attempt, now, unix_secs, message@) == (StepOutcome {
                phase: final(self).phase,
                state: *final(state),
                logs: logs_view(r.logs@),
                action: r.action@,
            }),
    {
        let mut logs: Vec<LogEntry> = Vec::new();
        if self.logging_enabled {
            logs.push(
                LogEntry::Text {
                    file_name: log_file_name("error", unix_secs, attempt, ".txt"),
                    content: message.clone(),
                },
            );
        }
        finish_request(state, now);
        self.phase = Phase::Done;
        proof {
            if self.logging_enabled {
                assert(logs_view(logs@) =~= seq![logs@[0]@]);
            } else {
                assert(logs_view(logs@) =~= Seq::<LogView>::empty());
            }
        }
        SearchStep { logs, action: SearchAction::Finish(Err(SearchError::Fetch { message })) }
    }
}


/// A search that gets the bot-detection page starts the cooldown: any search
/// begun before `block_duration` seconds have passed is refused with "too many
/// requests" and sends nothing, and one begun afterwards is not refused.
pub proof fn law_bot_answer_starts_cooldown(
    search: DdgSearch,
    state: SearchState,
    attempt: u64,
    now: u64,
    unix_secs: u64,
    body: Seq<char>,
    next: DdgSearch,
    later: u64,
    later_unix_secs: u64,
    target: u64,
)
    requires
        contains(body, bot_notice()),
        !is_blank(next.request.query@),
    ensures
        ({
            let after = fetched_outcome(search, state, attempt, now, unix_secs, body).state;
            let o = start_outcome(next, after, later, later_unix_secs, target);
            &&& later < now + nanos(search.block_duration) ==> {
                &&& o.action == ActionView::Finish(
                    Err(SearchErrorView::TooManyRequests { block_duration: next.block_duration }),
                )
                &&& o.state == after
            }
            &&& later >= now + nanos(search.block_duration) ==> !(o.action is Finish)
        }),
{
    crate::throttle::law_cooldown(state, now, search.block_duration, later);
}

/// An attempt that finds no hits is followed by one more, after a pause of
/// thirty seconds; the second attempt always ends the search, with an error
/// when it too finds nothing.
pub proof fn law_retry_at_most_once(
    search: DdgSearch,
    state: SearchState,
    attempt: u64,
    now: u64,
    unix_secs: u64,
    body: Seq<char>,
)
    requires
        !contains(body, bot_notice()),
    ensures
        ({
            let o = fetched_outcome(search, state, attempt, now, unix_secs, body);
            let hits = page_hits(body, search.request.max_results);
            &&& attempt >= 1 ==> o.action is Finish && o.phase == Phase::Done
            &&& attempt >= 1 && hits.len() == 0 ==> o.action == ActionView::Finish(
                Err(SearchErrorView::NoResults),
            )
            &&& attempt == 0 && hits.len() == 0 ==> o.action == ActionView::Sleep {
                nanos: retry_pause(),
            } && o.phase == (Phase::Sleeping { attempt: 1 }) && o.state == state
            &&& hits.len() > 0 ==> o.action == ActionView::Finish(
                Ok(found_response(search.request, hits)),
            )
        }),
{
}

/// Whenever a search ends after its request was sent, the instant it ended is
/// recorded, and nothing else of the shared state changes but the cooldown
/// after a bot-detection page.
pub proof fn law_end_is_recorded(
    search: DdgSearch,
    state: SearchState,
    attempt: u64,
    now: u64,
    unix_secs: u64,
    body: Seq<char>,
    message: Seq<char>,
)
    ensures
        ({
            let f = fetched_outcome(search, state, attempt, now, unix_secs, body);
            let g = failed_outcome(search, state, attempt, now, unix_secs, message);
            &&& f.action is Finish ==> f.state.last_request_end == Some(now as u128)
                && f.state.last_request_start == state.last_request_start
            &&& !contains(body, bot_notice()) ==> f.state.blocked_until == state.blocked_until
            &&& g.state == finished_at(state, now)
        }),
{
}

/// With logging off, nothing is written but the two files of a bot-detection
/// page; those two are written whatever the setting.
pub proof fn law_logs_follow_the_setting(
    search: DdgSearch,
    state: SearchState,
    attempt: u64,
    now: u64,
    unix_secs: u64,
    body: Seq<char>,
    message: Seq<char>,
    target: u64,
)
    ensures
        ({
            let f = fetched_outcome(search, state, attempt, now, unix_secs, body);
            let g = failed_outcome(search, state, attempt, now, unix_secs, message);
            let h = start_outcome(search, state, now, unix_secs, target);
            &&& !search.logging_enabled && !contains(body, bot_notice()) ==> f.logs.len() == 0
            &&& !search.logging_enabled ==> g.logs.len() == 0 && h.logs.len() == 0
            &&& contains(body, bot_notice()) ==> f.logs.len() >= 2
            &&& search.logging_enabled && !contains(body, bot_notice()) ==> f.logs.len() == 2
        }),
{
}

/// Waking from a sleep keeps the attempt number and sends the search's query,
/// without touching the shared state or writing a log; the first request of
/// every search is attempt 0, whether or not it waited for the throttle.
pub proof fn law_waking_keeps_the_attempt(search: DdgSearch, state: SearchState, attempt: u64, target: u64, now: u64, unix_secs: u64)
    ensures
        ({
            let o = step_outcome(DdgSearch { phase: Phase::Sleeping { attempt }, ..search }, state, SearchEvent::Slept, target);
            &&& o.phase == (Phase::Fetching { attempt })
            &&& o.state == state
            &&& o.logs.len() == 0
            &&& o.action == ActionView::Fetch { query: search.request.query@ }
        }),
        ({
            let o = start_outcome(search, state, now, unix_secs, target);
            &&& o.phase is Sleeping ==> o.phase == (Phase::Sleeping { attempt: 0 })
            &&& o.phase is Fetching ==> o.phase == (Phase::Fetching { attempt: 0 })
        }),
{
}

/// A search whose first page has no hits (and is no bot page) is retried after
/// thirty seconds, whether it was sent at once or after a wait for the
/// throttle.
pub proof fn law_first_empty_page_is_retried(
    search: DdgSearch,
    state: SearchState,
    now: u64,
    unix_secs: u64,
    target: u64,
    later: u64,
    later_unix_secs: u64,
    body: String,
)
    requires
        search.phase == Phase::Ready,
        !is_blank(search.request.query@),
        !blocked_at(state, now),
        !contains(body@, bot_notice()),
        page_hits(body@, search.request.max_results).len() == 0,
    ensures
        ({
            let o1 = start_outcome(search, state, now, unix_secs, target);
            let s1 = DdgSearch { phase: o1.phase, ..search };
            let o2 = step_outcome(s1, o1.state, SearchEvent::Slept, target);
            let fetching = if o1.phase is Sleeping { o2.phase } else { o1.phase };
            let st = if o1.phase is Sleeping { o2.state } else { o1.state };
            let o3 = step_outcome(
                DdgSearch { phase: fetching, ..search },
                st,
                SearchEvent::Fetched { now: later, unix_secs: later_unix_secs, body },
                target,
            );
            &&& fetching == (Phase::Fetching { attempt: 0 })
            &&& o3.action == ActionView::Sleep { nanos: 30_000_000_000 }
            &&& o3.phase == (Phase::Sleeping { attempt: 1 })
        }),
{
}

/// Every answer a search gives echoes its request: the query and the search
/// type are those of the request, and the count of hits is the number of hits
/// it carries.
pub proof fn law_answer_echoes_request(search: DdgSearch, state: SearchState, event: SearchEvent, target: u64)
    ensures
        step_outcome(search, state, event, target).action matches ActionView::Finish(Ok(r)) ==> {
            &&& r.query == search.request.query@
            &&& r.search_type == search.request.search_type@
            &&& r.total_results == r.results.len()
        },
        forall|hits: Seq<SearchResultView>|
            #![trigger found_response(search.request, hits)]
            found_response(search.request, hits).query == search.request.query@
                && found_response(search.request, hits).search_type == search.request.search_type@
                && found_response(search.request, hits).results == hits
                && found_response(search.request, hits).total_results == hits.len(),
{
}

} // verus!
