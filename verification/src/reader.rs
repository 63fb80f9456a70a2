//! Turning a fetched web page into readable text.
use crate::models::opt_view;
use crate::results::{
    description_selector, title_selector, select_elements, css_select, element_value, elements_value, ElementValue, SelectedElement};
use crate::text::{chars_of, join, join_strings, string_from_chars, trim, trim_str};
use vstd::prelude::*;
use vstd::string::StringSliceAdditionalSpecFns;
use vstd::utf8::encode_utf8;

verus! {

broadcast use vstd::slice::group_slice_axioms;

/// Why a page gave no text.
#[derive(Debug, Clone, Copy, PartialEq, Eq)]
pub enum ReaderError {
    /// The page answered with an empty body.
    CouldNotDownload,
    /// The page's text is empty or all whitespace.
    NoReadableText,
    /// The HTML could not be rendered as text.
    Unrenderable,
}

/// The text of an error.
pub open spec fn reader_error_text(e: ReaderError) -> Seq<char> {
    match e {
        ReaderError::CouldNotDownload => "Could not download content."@,
        ReaderError::NoReadableText => "No readable text found."@,
        ReaderError::Unrenderable => "Could not render the page as text."@,
    }
}

impl ReaderError {
    /// The text of the error.
    pub fn message(&self) -> (s: String)
        ensures
            s@ == reader_error_text(*self),
    {
        match self {
            ReaderError::CouldNotDownload => String::from_str("Could not download content."),
            ReaderError::NoReadableText => String::from_str("No readable text found."),
            ReaderError::Unrenderable => String::from_str("Could not render the page as text."),
        }
    }
}

/// What a page says of itself: its title and its description.
#[derive(Debug, Clone)]
pub struct PageMetadata {
    /// The text of the first `title` element, trimmed.
    pub title: Option<String>,
    /// The `content` of the first `meta` element named `description`.
    pub description: Option<String>,
}

/// The abstract value of a [`PageMetadata`].
pub struct PageMetadataView {
    pub title: Option<Seq<char>>,
    pub description: Option<Seq<char>>,
}

impl View for PageMetadata {
    type V = PageMetadataView;

    open spec fn view(&self) -> PageMetadataView {
        PageMetadataView { title: opt_view(self.title), description: opt_view(self.description) }
    }
}

/// The readable text of a page.
#[derive(Debug, Clone)]
pub struct PageContent {
    /// The address the page was fetched from.
    pub url: String,
    /// The length of the whole text, in UTF-8 bytes.
    pub length: usize,
    /// The text, cut to at most the requested number of characters.
    pub content: String,
    /// The page's metadata, when it was asked for.
    pub metadata: Option<PageMetadata>,
}

/// The abstract value of a [`PageContent`].
pub struct PageContentView {
    pub url: Seq<char>,
    pub length: nat,
    pub content: Seq<char>,
    pub metadata: Option<PageMetadataView>,
}

/// The view of optional metadata.
pub open spec fn opt_metadata_view(m: Option<PageMetadata>) -> Option<PageMetadataView> {
    match m {
        Some(x) => Some(x@),
        None => None,
    }
}

impl View for PageContent {
    type V = PageContentView;

    open spec fn view(&self) -> PageContentView {
        PageContentView {
            url: self.url@,
            length: self.length as nat,
            content: self.content@,
            metadata: opt_metadata_view(self.metadata),
        }
    }
}

/// The view of a reader's result.
pub open spec fn page_result_view(r: Result<PageContent, ReaderError>) -> Result<PageContentView, ReaderError> {
    match r {
        Ok(p) => Ok(p@),
        Err(e) => Err(e),
    }
}

/// The width, in columns, that pages are rendered to.
pub open spec fn render_width() -> usize {
    80
}

/// The text that the HTML document `html` renders to at `width` columns, or
/// `None` when it cannot be rendered.
pub uninterp spec fn html_text(html: Seq<char>, width: usize) -> Option<Seq<char>>;

/// Renders `html` as plain text wrapped to `width` columns (`html2text::from_read`).
/// Trusted: the result is `html_text` of the arguments, `None` where the
/// crate reports an error; what the rendering gives is not stated beyond that name.
#[verifier::external_body]
fn render_text(html: &str, width: usize) -> (r: Option<String>)
    ensures
        opt_view(r) == html_text(html@, width),
{
    html2text::from_read(html.as_bytes(), width).ok()
}

/// The first `n` characters of `t`, or all of it when it is shorter.
pub open spec fn first_chars(t: Seq<char>, n: usize) -> Seq<char> {
    if n < t.len() {
        t.take(n as int)
    } else {
        t
    }
}

/// The page of `url` whose rendered text is `text`, with `metadata`: the text
/// trimmed, its length in UTF-8 bytes and its first `max_length` characters;
/// an error when the trimmed text is empty.
pub open spec fn page_of(
    url: Seq<char>,
    text: Seq<char>,
    metadata: Option<PageMetadataView>,
    max_length: usize,
) -> Result<PageContentView, ReaderError> {
    let t = trim(text);
    if t.len() == 0 {
        Err(ReaderError::NoReadableText)
    } else {
        Ok(
            PageContentView {
                url,
                length: encode_utf8(t).len(),
                content: first_chars(t, max_length),
                metadata,
            },
        )
    }
}

/// The attribute that holds a description.
pub open spec fn content_attribute() -> Seq<char> {
    "content"@
}

/// The metadata made of the selected title and description elements: the
/// first title's texts run together and trimmed, and the first description's
/// `content`.
pub open spec fn metadata_of(titles: Option<Seq<ElementValue>>, descriptions: Option<Seq<ElementValue>>) -> PageMetadataView {
    PageMetadataView {
        title: match titles {
            Some(t) => if t.len() > 0 {
                Some(trim(join(t[0].1, Seq::empty())))
            } else {
                None
            },
            None => None,
        },
        description: match descriptions {
            Some(d) => if d.len() > 0 {
                d[0].0
            } else {
                None
            },
            None => None,
        },
    }
}

/// The metadata of the HTML document `html`.
pub open spec fn page_metadata(html: Seq<char>) -> PageMetadataView {
    metadata_of(
        css_select(html, title_selector(), content_attribute()),
        css_select(html, description_selector(), content_attribute()),
    )
}

/// The optional elements' plain values.
pub open spec fn opt_elements_value(v: Option<Vec<SelectedElement>>) -> Option<Seq<ElementValue>> {
    match v {
        Some(x) => Some(elements_value(x@)),
        None => None,
    }
}

/// The metadata made of the selected title and description elements.
pub fn metadata_from(titles: &Option<Vec<SelectedElement>>, descriptions: &Option<Vec<SelectedElement>>) -> (m: PageMetadata)
    ensures
        m@ == metadata_of(opt_elements_value(*titles), opt_elements_value(*descriptions)),
{
    let title = match titles {
        Some(t) => if t.len() > 0 {
            proof {
                assert(elements_value(t@)[0] == element_value(t@[0]));
            }
            let joined = join_strings(&t[0].texts, "");
            proof {
                reveal_strlit("");
                assert(""@ =~= Seq::<char>::empty());
            }
            Some(trim_str(joined.as_str()))
        } else {
            None
        },
        None => None,
    };
    let description = match descriptions {
        Some(d) => if d.len() > 0 {
            proof {
                assert(elements_value(d@)[0] == element_value(d@[0]));
            }
            match &d[0].attribute {
                Some(a) => Some(a.clone()),
                None => None,
            }
        } else {
            None
        },
        None => None,
    };
    PageMetadata { title, description }
}

/// The metadata of the page `html`.
pub fn page_metadata_from(html: &str) -> (m: PageMetadata)
    ensures
        m@ == page_metadata(html@),
{
    let titles = select_elements(html, "title", "content");
    let descriptions = select_elements(html, "meta[name=\"description\"]", "content");
    metadata_from(&titles, &descriptions)
}

/// The page of `url` whose rendered text is `text`, with `metadata`.
pub fn page_from_text(url: &str, text: &str, metadata: Option<PageMetadata>, max_length: usize) -> (r: Result<
    PageContent,
    ReaderError,
>)
    ensures
        page_result_view(r) == page_of(url@, text@, opt_metadata_view(metadata), max_length),
{
    let t = trim_str(text);
    let ts = t.as_str();
    if ts.is_empty() {
        return Err(ReaderError::NoReadableText);
    }
    let n = ts.as_bytes().len();
    assert(ts.spec_bytes() == encode_utf8(trim(text@)));
    let chars = chars_of(ts);
    let keep = if max_length < chars.len() {
        max_length
    } else {
        chars.len()
    };
    let content = string_from_chars(&chars, 0, keep);
    proof {
        if max_length >= chars@.len() {
            assert(chars@.subrange(0, keep as int) == chars@);
        }
    }
    Ok(PageContent { url: url.to_owned(), length: n, content, metadata })
}

/// The page of `url` whose body is `body`, as the reader serves it: an error
/// for an empty body or one that does not render; else the page of the
/// rendered text, with the page's metadata when `include_metadata` is set.
pub fn fetch_page(url: &str, body: &str, include_metadata: bool, max_length: usize) -> (r: Result<
    PageContent,
    ReaderError,
>)
    ensures
        page_result_view(r) == if body@.len() == 0 {
            Err(ReaderError::CouldNotDownload)
        } else {
            match html_text(body@, render_width()) {
                None => Err(ReaderError::Unrenderable),
                Some(text) => page_of(
                    url@,
                    text,
                    if include_metadata {
                        Some(page_metadata(body@))
                    } else {
                        None
                    },
                    max_length,
                ),
            }
        },
{
    if body.is_empty() {
        return Err(ReaderError::CouldNotDownload);
    }
    match render_text(body, 80) {
        None => Err(ReaderError::Unrenderable),
        Some(text) => {
            let metadata = if include_metadata {
                Some(page_metadata_from(body))
            } else {
                None
            };
            page_from_text(url, text.as_str(), metadata, max_length)
        },
    }
}

/// A page's content is the whole trimmed text when that has at most
/// `max_length` characters, and otherwise its first `max_length` characters:
/// a prefix of the trimmed text as long as the smaller of the two. The length
/// reported is that of the whole trimmed text in UTF-8 bytes, and the url and
/// metadata are those given.
pub proof fn law_content_is_a_bounded_prefix(
    url: Seq<char>,
    text: Seq<char>,
    metadata: Option<PageMetadataView>,
    max_length: usize,
)
    ensures
        page_of(url, text, metadata, max_length) matches Ok(p) ==> {
            let t = trim(text);
            &&& p.content.len() == if (max_length as int) < t.len() { max_length as int } else { t.len() as int }
            &&& forall|i: int| 0 <= i < p.content.len() ==> #[trigger] p.content[i] == t[i]
            &&& t.len() <= max_length ==> p.content == t
            &&& p.length == encode_utf8(t).len()
            &&& p.url == url
            &&& p.metadata == metadata
        },
        trim(text).len() > 0 <==> page_of(url, text, metadata, max_length) is Ok,
{
}

} // verus!
