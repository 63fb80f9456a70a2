//! Searches restricted to one site.
use crate::models::SearchRequest;
use vstd::prelude::*;

verus! {

/// The number of hits a site search asks for.
pub open spec fn site_search_max_results() -> usize {
    5
}

/// The query of a search for `query` on the site `domain`.
pub open spec fn site_query(query: Seq<char>, domain: Seq<char>) -> Seq<char> {
    "site:"@ + domain + " "@ + query
}

/// A plain text search with only the query and the number of hits set.
pub open spec fn plain_request(r: SearchRequest) -> bool {
    &&& r.search_type@ == "text"@
    &&& r.time_range is None
    &&& r.region is None
    &&& r.safesearch is None
    &&& r.page is None
    &&& r.backend is None
    &&& r.filters is None
}

/// The search for `query` on the site `domain`: a text search for
/// `site:<domain> <query>` asking for five hits.
pub fn search_domain_request(query: &str, domain: &str) -> (r: SearchRequest)
    ensures
        r.query@ == site_query(query@, domain@),
        r.max_results == Some(site_search_max_results()),
        r.max_results == Some(5usize),
        plain_request(r),
{
    let mut q = String::from_str("site:");
    q.append(domain);
    q.append(" ");
    q.append(query);
    SearchRequest {
        query: q,
        search_type: String::from_str("text"),
        max_results: Some(5),
        time_range: None,
        region: None,
        safesearch: None,
        page: None,
        backend: None,
        filters: None,
    }
}

/// A site search's query is `site:`, then the given domain, a space and the
/// given query, each found in its place; so the domain and the query can be
/// read back from it, and different domains (or queries) give different
/// queries.
pub proof fn law_site_query_names_the_site(query: Seq<char>, domain: Seq<char>, query2: Seq<char>, domain2: Seq<char>)
    ensures
        site_query(query, domain).len() == 6 + domain.len() as int + query.len(),
        site_query(query, domain).subrange(0, 5) == seq!['s', 'i', 't', 'e', ':'],
        site_query(query, domain).subrange(5, 5 + domain.len() as int) == domain,
        site_query(query, domain)[5 + domain.len() as int] == ' ',
        site_query(query, domain).subrange(6 + domain.len() as int, site_query(query, domain).len() as int)
            == query,
        domain.len() == domain2.len() && site_query(query, domain) == site_query(query2, domain2)
            ==> domain == domain2 && query == query2,
        site_query(query, domain) == site_query(query, domain2) ==> domain == domain2,
{
    reveal_strlit("site:");
    reveal_strlit(" ");
    let a = site_query(query, domain);
    assert(a.subrange(0, 5) =~= seq!['s', 'i', 't', 'e', ':']);
    assert(a.subrange(5, 5 + domain.len() as int) =~= domain);
    assert(a.subrange(6 + domain.len() as int, a.len() as int) =~= query);
    let b = site_query(query2, domain2);
    assert(b.subrange(5, 5 + domain2.len() as int) =~= domain2);
    assert(b.subrange(6 + domain2.len() as int, b.len() as int) =~= query2);
    if site_query(query, domain) == site_query(query, domain2) {
        assert(domain.len() == domain2.len());
        assert(site_query(query, domain2).subrange(5, 5 + domain2.len() as int) =~= domain2);
    }
}

} // verus!
