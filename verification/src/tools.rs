//! What the server's tools, prompt and resource compute from their arguments.
use crate::models::SearchRequest;
use crate::text::chars_of;
use vstd::prelude::*;

verus! {

/// The search type used when none is given.
pub fn default_search_type() -> (s: String)
    ensures
        s@ == "text"@,
{
    String::from_str("text")
}

/// The output format of `fetch_page` used when none is given.
pub fn default_output_format() -> (s: String)
    ensures
        s@ == "txt"@,
{
    String::from_str("txt")
}

/// The most bytes of text `fetch_page` returns when no limit is given.
pub fn default_max_length() -> (n: usize)
    ensures
        n == 15000,
{
    15000
}

/// The timeout of `fetch_page`, in seconds, used when none is given.
pub fn default_timeout() -> (n: usize)
    ensures
        n == 30,
{
    30
}

/// The site of `search_domain` used when none is given.
pub fn default_domain() -> (s: String)
    ensures
        s@ == "docs.python.org"@,
{
    String::from_str("docs.python.org")
}

/// The number of hits `search_web` asks for when none is given.
pub open spec fn default_max_results() -> usize {
    5
}

/// The request of the `search_web` tool: the query and type given, the number
/// of hits given or else five, everything else unset.
pub fn web_search_request(query: String, search_type: String, max_results: Option<usize>) -> (r:
    SearchRequest)
    ensures
        r.query@ == query@,
        r.search_type@ == search_type@,
        r.max_results == Some(
            match max_results {
                Some(m) => m,
                None => default_max_results(),
            },
        ),
        max_results is None ==> r.max_results == Some(5usize),
        r.time_range is None,
        r.region is None,
        r.safesearch is None,
        r.page is None,
        r.backend is None,
        r.filters is None,
{
    let max_results = match max_results {
        Some(m) => Some(m),
        None => Some(5),
    };
    SearchRequest {
        query,
        search_type,
        max_results,
        time_range: None,
        region: None,
        safesearch: None,
        page: None,
        backend: None,
        filters: None,
    }
}

/// The text of the `research_topic` prompt.
pub open spec fn research_text(topic: Seq<char>, depth: Seq<char>) -> Seq<char> {
    "I want to conduct a "@ + depth + " research on the topic: "@ + topic
        + ". Please help me find the most relevant information and synthesize it."@
}

/// The text of the `research_topic` prompt for `topic`, at the depth given or
/// else "comprehensive".
pub fn research_prompt(topic: &str, depth: Option<&str>) -> (s: String)
    ensures
        s@ == research_text(
            topic@,
            match depth {
                Some(d) => d@,
                None => "comprehensive"@,
            },
        ),
{
    let d = match depth {
        Some(d) => d,
        None => "comprehensive",
    };
    let mut s = String::from_str("I want to conduct a ");
    s.append(d);
    s.append(" research on the topic: ");
    s.append(topic);
    s.append(". Please help me find the most relevant information and synthesize it.");
    s
}

/// The address of the one resource the server offers.
pub open spec fn docs_uri() -> Seq<char> {
    "web://search/docs"@
}

/// The text of the one resource the server offers.
pub open spec fn docs_text() -> Seq<char> {
    "Web Search MCP Server Documentation\n\nThis server provides tools for web search and page extraction."@
}

/// The resources the server lists: their addresses and names.
pub fn listed_resources() -> (v: Vec<(String, String)>)
    ensures
        v@.len() == 1,
        v@[0].0@ == docs_uri(),
        v@[0].1@ == "Search Documentation"@,
{
    let mut v = Vec::new();
    v.push((String::from_str("web://search/docs"), String::from_str("Search Documentation")));
    v
}

/// Whether two strings are equal.
pub fn same_text(a: &str, b: &str) -> (r: bool)
    ensures
        r == (a@ == b@),
{
    let x = chars_of(a);
    let y = chars_of(b);
    if x.len() != y.len() {
        return false;
    }
    let mut i: usize = 0;
    while i < x.len()
        invariant
            x@ == a@,
            y@ == b@,
            x@.len() == y@.len(),
            i <= x@.len(),
            forall|k: int| 0 <= k < i ==> x@[k] == y@[k],
        decreases x.len() - i,
    {
        if x[i] != y[i] {
            return false;
        }
        i = i + 1;
    }
    assert(x@ =~= y@);
    true
}

/// The text of the resource at `uri`, or `None` when there is no such resource.
pub fn read_resource(uri: &str) -> (r: Option<String>)
    ensures
        uri@ == docs_uri() ==> (r matches Some(t) && t@ == docs_text()),
        uri@ != docs_uri() ==> r is None,
{
    if same_text(uri, "web://search/docs") {
        Some(
            String::from_str(
                "Web Search MCP Server Documentation\n\nThis server provides tools for web search and page extraction.",
            ),
        )
    } else {
        None
    }
}

} // verus!
