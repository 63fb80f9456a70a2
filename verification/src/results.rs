//! Reading the hits out of a DuckDuckGo Lite result page.
use crate::models::{results_view, SearchResult, SearchResultView};
use crate::text::{join, join_strings, views};
use vstd::prelude::*;

verus! {

/// An element that a CSS selector picked out of a page: the value of one of its
/// attributes, if it has it, and its descendant text nodes.
#[derive(Debug, Clone)]
pub struct SelectedElement {
    pub attribute: Option<String>,
    pub texts: Vec<String>,
}

/// The plain value of a selected element.
pub type ElementValue = (Option<Seq<char>>, Seq<Seq<char>>);

/// The plain value of a selected element.
pub open spec fn element_value(e: SelectedElement) -> ElementValue {
    (
        match e.attribute {
            Some(a) => Some(a@),
            None => None,
        },
        views(e.texts@),
    )
}

/// The plain values of selected elements.
pub open spec fn elements_value(v: Seq<SelectedElement>) -> Seq<ElementValue> {
    v.map_values(|e: SelectedElement| element_value(e))
}

/// The elements of the HTML document `html` that the CSS selector `selector`
/// matches, in the order `scraper::Html::select` yields them, each with its
/// attribute `attribute` and its texts; `None` when `selector` is not a valid
/// selector.
pub uninterp spec fn css_select(html: Seq<char>, selector: Seq<char>, attribute: Seq<char>) -> Option<
    Seq<ElementValue>,
>;

/// The selector of the links of a result page.
pub open spec fn link_selector() -> Seq<char> {
    ".result-link"@
}

/// The selector of the snippets of a result page.
pub open spec fn snippet_selector() -> Seq<char> {
    ".result-snippet"@
}

/// The selector of a page's title.
pub open spec fn title_selector() -> Seq<char> {
    "title"@
}

/// The selector of a page's description.
pub open spec fn description_selector() -> Seq<char> {
    "meta[name=\"description\"]"@
}

/// One of the fixed selectors the library uses.
pub open spec fn known_selector(selector: Seq<char>) -> bool {
    ||| selector == link_selector()
    ||| selector == snippet_selector()
    ||| selector == title_selector()
    ||| selector == description_selector()
}

/// Parses `html` as a document (`scraper::Html::parse_document`), parses
/// `selector` (`scraper::Selector::parse`) and lists the elements that match
/// (`scraper::Html::select`), each with `ElementRef::attr(attribute)` and the
/// strings of `ElementRef::text`.
/// Trusted: the result is `css_select` of the three arguments; what HTML
/// parsing and selector matching give is not stated beyond that name. The
/// selector is one of the library's fixed selectors: the selector parser
/// recurses once per nested `:not(`, without a limit, so arbitrary selectors
/// could exhaust the stack.
#[verifier::external_body]
pub(crate) fn select_elements(html: &str, selector: &str, attribute: &str) -> (r: Option<Vec<SelectedElement>>)
    requires
        known_selector(selector@),
    ensures
        css_select(html@, selector@, attribute@) == match r {
            Some(v) => Some(elements_value(v@)),
            None => None,
        },
{
    match scraper::Selector::parse(selector) {
        Ok(sel) => Some(
            scraper::Html::parse_document(html).select(&sel).map(
                |e| SelectedElement {
                    attribute: e.attr(attribute).map(|a| a.to_string()),
                    texts: e.text().map(|t| t.to_string()).collect(),
                },
            ).collect(),
        ),
        Err(_) => None,
    }
}

/// The hit made of the `i`-th link and the `i`-th snippet: the link's texts
/// joined by spaces, its `href` (empty when it has none), and the snippet's
/// texts joined by spaces.
pub open spec fn hit(link: ElementValue, snippet: ElementValue) -> SearchResultView {
    SearchResultView {
        title: join(link.1, seq![' ']),
        url: match link.0 {
            Some(h) => h,
            None => Seq::empty(),
        },
        body: join(snippet.1, seq![' ']),
    }
}

/// Links and snippets paired in order, as far as both go.
pub open spec fn paired(links: Seq<ElementValue>, snippets: Seq<ElementValue>) -> Seq<SearchResultView> {
    let n = if links.len() <= snippets.len() { links.len() } else { snippets.len() };
    Seq::new(n, |i: int| hit(links[i], snippets[i]))
}

/// `s` cut to at most `max` items when a maximum is given (`Vec::truncate`).
pub open spec fn at_most<A>(s: Seq<A>, max: Option<usize>) -> Seq<A> {
    match max {
        Some(m) => if m < s.len() { s.take(m as int) } else { s },
        None => s,
    }
}

/// The hits of a page whose links and snippets are given, at most `max`.
pub fn pair_results(
    links: &Vec<SelectedElement>,
    snippets: &Vec<SelectedElement>,
    max: Option<usize>,
) -> (r: Vec<SearchResult>)
    ensures
        results_view(r@) == at_most(paired(elements_value(links@), elements_value(snippets@)), max),
{
    let n = if links.len() <= snippets.len() {
        links.len()
    } else {
        snippets.len()
    };
    let limit = match max {
        Some(m) => if m < n {
            m
        } else {
            n
        },
        None => n,
    };
    let ghost full = paired(elements_value(links@), elements_value(snippets@));
    let mut r: Vec<SearchResult> = Vec::new();
    let space = " ";
    proof {
        reveal_strlit(" ");
    }
    let mut i: usize = 0;
    while i < limit
        invariant
            limit <= n,
            n == full.len(),
            n <= links@.len(),
            n <= snippets@.len(),
            space@ == seq![' '],
            full == paired(elements_value(links@), elements_value(snippets@)),
            i <= limit,
            results_view(r@) == full.take(i as int),
        decreases limit - i,
    {
        let link = &links[i];
        let snippet = &snippets[i];
        let title = join_strings(&link.texts, space);
        let url = match &link.attribute {
            Some(h) => h.clone(),
            None => String::new(),
        };
        let body = join_strings(&snippet.texts, space);
        let item = SearchResult { title, url, body };
        proof {
            assert(elements_value(links@)[i as int] == element_value(links@[i as int]));
            assert(elements_value(snippets@)[i as int] == element_value(snippets@[i as int]));
            assert(item@ == full[i as int]);
        }
        r.push(item);
        proof {
            assert(results_view(r@) == full.take(i as int).push(full[i as int]));
            assert(full.take(i + 1) == full.take(i as int).push(full[i as int]));
        }
        i = i + 1;
    }
    proof {
        match max {
            Some(m) => {
                if m >= n {
                    assert(full.take(n as int) == full);
                }
            },
            None => {
                assert(full.take(n as int) == full);
            },
        }
    }
    r
}

/// The hits of the page `html`: the elements of class `result-link` paired in
/// order with those of class `result-snippet`, at most `max`.
pub open spec fn page_hits(html: Seq<char>, max: Option<usize>) -> Seq<SearchResultView> {
    let links = css_select(html, link_selector(), "href"@);
    let snippets = css_select(html, snippet_selector(), "href"@);
    match (links, snippets) {
        (Some(l), Some(s)) => at_most(paired(l, s), max),
        _ => Seq::empty(),
    }
}

/// The hits of the result page `html`, at most `max`.
pub fn extract_results(html: &str, max: Option<usize>) -> (r: Vec<SearchResult>)
    ensures
        results_view(r@) == page_hits(html@, max),
{
    let link_selector = ".result-link";
    let snippet_selector = ".result-snippet";
    let href = "href";
    let links = select_elements(html, link_selector, href);
    let snippets = select_elements(html, snippet_selector, href);
    match (links, snippets) {
        (Some(l), Some(s)) => pair_results(&l, &s, max),
        _ => Vec::new(),
    }
}

/// A search never gives more hits than asked for, and the hits it gives are
/// the first ones of the page, in order.
pub proof fn law_hits_are_bounded(html: Seq<char>, max: Option<usize>)
    ensures
        max matches Some(m) ==> page_hits(html, max).len() <= m,
        page_hits(html, max).len() <= page_hits(html, None).len(),
        forall|i: int|
            0 <= i < page_hits(html, max).len() ==> #[trigger] page_hits(html, max)[i]
                == page_hits(html, None)[i],
{
}

/// The number of hits is exactly the smaller of the maximum (when one is
/// given) and the number of link/snippet pairs, and the hits kept are the first
/// pairs, in order, each made of the link and snippet at its position.
pub proof fn law_hit_count(links: Seq<ElementValue>, snippets: Seq<ElementValue>, max: Option<usize>)
    ensures
        ({
            let pairs = if links.len() <= snippets.len() { links.len() } else { snippets.len() };
            let r = at_most(paired(links, snippets), max);
            &&& r.len() == match max {
                Some(m) => if (m as int) < pairs { m as int } else { pairs as int },
                None => pairs as int,
            }
            &&& forall|i: int| 0 <= i < r.len() ==> #[trigger] r[i] == hit(links[i], snippets[i])
        }),
{
}

} // verus!
