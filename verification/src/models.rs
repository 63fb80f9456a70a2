//! The values that a search takes and gives, and the throttling state that all
//! searches share.
use std::collections::HashMap;
use vstd::prelude::*;

verus! {

/// A search as a client asks for it.
#[derive(Debug, Clone)]
pub struct SearchRequest {
    pub query: String,
    pub search_type: String,
    pub max_results: Option<usize>,
    pub time_range: Option<String>,
    pub region: Option<String>,
    pub safesearch: Option<String>,
    pub page: Option<usize>,
    pub backend: Option<String>,
    pub filters: Option<HashMap<String, String>>,
}

/// One hit of a search: its title, its link and the snippet shown with it.
#[derive(Debug, Clone, PartialEq, Eq)]
pub struct SearchResult {
    pub title: String,
    pub url: String,
    pub body: String,
}

/// What a search answers.
#[derive(Debug, Clone, PartialEq, Eq)]
pub struct SearchResponse {
    pub query: String,
    pub search_type: String,
    pub total_results: usize,
    pub results: Vec<SearchResult>,
    pub error: Option<String>,
}

/// The throttling state shared by every search of the server.
///
/// Instants are nanoseconds on one monotonic clock; the waits are seconds.
#[derive(Debug, Clone, Copy, PartialEq, Eq)]
pub struct SearchState {
    /// Searches are refused until this instant, after a bot-detection answer.
    pub blocked_until: Option<u128>,
    /// When the latest search was (or is scheduled to be) sent.
    pub last_request_start: Option<u128>,
    /// When the latest search finished.
    pub last_request_end: Option<u128>,
    pub min_wait: u64,
    pub max_wait: u64,
    pub post_wait: u64,
}

/// The abstract value of a [`SearchResult`].
pub struct SearchResultView {
    pub title: Seq<char>,
    pub url: Seq<char>,
    pub body: Seq<char>,
}

impl View for SearchResult {
    type V = SearchResultView;

    open spec fn view(&self) -> SearchResultView {
        SearchResultView { title: self.title@, url: self.url@, body: self.body@ }
    }
}

/// The abstract value of a [`SearchResponse`].
pub struct SearchResponseView {
    pub query: Seq<char>,
    pub search_type: Seq<char>,
    pub total_results: nat,
    pub results: Seq<SearchResultView>,
    pub error: Option<Seq<char>>,
}

/// The view of an optional string.
pub open spec fn opt_view(s: Option<String>) -> Option<Seq<char>> {
    match s {
        Some(t) => Some(t@),
        None => None,
    }
}

/// The views of a sequence of results.
pub open spec fn results_view(v: Seq<SearchResult>) -> Seq<SearchResultView> {
    v.map_values(|r: SearchResult| r@)
}

impl View for SearchResponse {
    type V = SearchResponseView;

    open spec fn view(&self) -> SearchResponseView {
        SearchResponseView {
            query: self.query@,
            search_type: self.search_type@,
            total_results: self.total_results as nat,
            results: results_view(self.results@),
            error: opt_view(self.error),
        }
    }
}

fn copy_opt_string(s: &Option<String>) -> (c: Option<String>)
    ensures
        opt_view(c) == opt_view(*s),
{
    match s {
        Some(t) => Some(t.clone()),
        None => None,
    }
}

impl SearchResult {
    /// A copy of the hit.
    pub fn copy(&self) -> (c: SearchResult)
        ensures
            c@ == self@,
    {
        SearchResult { title: self.title.clone(), url: self.url.clone(), body: self.body.clone() }
    }
}

impl SearchResponse {
    /// A copy of the response.
    pub fn copy(&self) -> (c: SearchResponse)
        ensures
            c@ == self@,
    {
        let mut results: Vec<SearchResult> = Vec::new();
        let mut i: usize = 0;
        while i < self.results.len()
            invariant
                i <= self.results@.len(),
                results_view(results@) == results_view(self.results@).take(i as int),
            decreases self.results.len() - i,
        {
            let r = self.results[i].copy();
            let ghost prev = results@;
            results.push(r);
            proof {
                assert(results@ == prev.push(r));
                assert(results_view(results@) =~= results_view(prev).push(r@));
                assert(r@ == results_view(self.results@)[i as int]);
                assert(results_view(results@) =~= results_view(self.results@).take(i + 1));
            }
            i = i + 1;
        }
        assert(results_view(self.results@).take(self.results@.len() as int) == results_view(self.results@));
        SearchResponse {
            query: self.query.clone(),
            search_type: self.search_type.clone(),
            total_results: self.total_results,
            results,
            error: copy_opt_string(&self.error),
        }
    }
}

/// A fresh throttling state: nothing sent, nothing blocked.
pub fn new_search_state(min_wait: u64, max_wait: u64, post_wait: u64) -> (s: SearchState)
    ensures
        s.blocked_until is None,
        s.last_request_start is None,
        s.last_request_end is None,
        s.min_wait == min_wait,
        s.max_wait == max_wait,
        s.post_wait == post_wait,
{
    SearchState {
        blocked_until: None,
        last_request_start: None,
        last_request_end: None,
        min_wait,
        max_wait,
        post_wait,
    }
}

} // verus!
