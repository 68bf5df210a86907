//! Reading an article's metadata from the `<meta>` tags of its page, the
//! choice of extractor, and the documents that extractors hand over.

use vstd::prelude::*;
use crate::epub::Document;
use crate::html::{select_attr_values, selected_attr_values, opt_string_view};
use crate::weburl::{file_name_from_url, parse_url, url_error_view, url_file_name, url_parse_result, UrlError, UrlErrorView};
use crate::text::{join_path, join_path_str};

verus! {

/// The `content` attribute of the last element of `html` that `selector`
/// matches; `None` where nothing matches, where that element has no such
/// attribute, or where the selector is refused.
pub open spec fn meta_content(html: Seq<char>, selector: Seq<char>) -> Option<Seq<char>> {
    match selected_attr_values(html, selector, "content"@) {
        Some(values) => if values.len() == 0 {
            None
        } else {
            values.last()
        },
        None => None,
    }
}

/// The CSS selector of the `<meta>` elements whose attribute `key` is `value`.
pub open spec fn meta_selector(key: Seq<char>, value: Seq<char>) -> Seq<char> {
    "meta["@ + key + "=\""@ + value + "\"]"@
}

/// The `content` of the last `<meta>` element of `html` whose `key` is `value`.
pub open spec fn meta_value(html: Seq<char>, key: Seq<char>, value: Seq<char>) -> Option<Seq<char>> {
    meta_content(html, meta_selector(key, value))
}

/// The first of `a`, `b` that is present.
pub open spec fn first_present(a: Option<Seq<char>>, b: Option<Seq<char>>) -> Option<Seq<char>> {
    match a {
        Some(x) => Some(x),
        None => b,
    }
}

/// The publication date of the page `html`: the `article:published_time`
/// meta name, else the `og:updated_time` meta property, else the
/// `datePublished` meta itemprop.
pub open spec fn page_date(html: Seq<char>) -> Option<Seq<char>> {
    first_present(
        meta_value(html, "name"@, "article:published_time"@),
        first_present(
            meta_value(html, "property"@, "og:updated_time"@),
            meta_value(html, "itemprop"@, "datePublished"@),
        ),
    )
}

/// The title of the page `html`: the `og:title` meta property, else the
/// `twitter:title` meta name.
pub open spec fn page_title(html: Seq<char>) -> Option<Seq<char>> {
    first_present(
        meta_value(html, "property"@, "og:title"@),
        meta_value(html, "name"@, "twitter:title"@),
    )
}

/// The author of the page `html`: the `og:author` meta property.
pub open spec fn page_author(html: Seq<char>) -> Option<Seq<char>> {
    meta_value(html, "property"@, "og:author"@)
}

/// The `content` read for a selector is that of the last element it
/// matches, and absent where it matches nothing or is refused.
pub proof fn lemma_last_match_wins(html: Seq<char>, selector: Seq<char>)
    ensures
        selected_attr_values(html, selector, "content"@) is Some && selected_attr_values(
            html,
            selector,
            "content"@,
        )->0.len() > 0 ==> meta_content(html, selector) == selected_attr_values(
            html,
            selector,
            "content"@,
        )->0.last(),
        selected_attr_values(html, selector, "content"@) is Some && selected_attr_values(
            html,
            selector,
            "content"@,
        )->0.len() == 0 ==> meta_content(html, selector) is None,
        selected_attr_values(html, selector, "content"@) is None ==> meta_content(html, selector) is None,
{
}

/// The author of a page is the `content` of its last
/// `<meta property="og:author">` element and nothing else: a page without
/// one has no author, whatever other metadata it has.
pub proof fn lemma_author_from_og_author(html: Seq<char>)
    ensures
        page_author(html) == meta_content(html, "meta[property=\"og:author\"]"@),
        selected_attr_values(html, "meta[property=\"og:author\"]"@, "content"@) matches Some(v)
            && v.len() == 0 ==> page_author(html) is None,
{
    reveal_strlit("meta[property=\"og:author\"]");
    reveal_strlit("meta[");
    reveal_strlit("property");
    reveal_strlit("=\"");
    reveal_strlit("og:author");
    reveal_strlit("\"]");
    assert(meta_selector("property"@, "og:author"@) =~= "meta[property=\"og:author\"]"@);
}

/// The title of a page is the `content` of its last
/// `<meta property="og:title">`, and only where the page has none, that of
/// its last `<meta name="twitter:title">`.
pub proof fn lemma_title_sources(html: Seq<char>)
    ensures
        meta_content(html, "meta[property=\"og:title\"]"@) is Some ==> page_title(html)
            == meta_content(html, "meta[property=\"og:title\"]"@),
        meta_content(html, "meta[property=\"og:title\"]"@) is None ==> page_title(html)
            == meta_content(html, "meta[name=\"twitter:title\"]"@),
{
    reveal_strlit("meta[property=\"og:title\"]");
    reveal_strlit("meta[name=\"twitter:title\"]");
    reveal_strlit("meta[");
    reveal_strlit("property");
    reveal_strlit("name");
    reveal_strlit("=\"");
    reveal_strlit("og:title");
    reveal_strlit("twitter:title");
    reveal_strlit("\"]");
    assert(meta_selector("property"@, "og:title"@) =~= "meta[property=\"og:title\"]"@);
    assert(meta_selector("name"@, "twitter:title"@) =~= "meta[name=\"twitter:title\"]"@);
}

/// The date of a page is the `content` of its last
/// `<meta name="article:published_time">`; where it has none, that of its
/// last `<meta property="og:updated_time">`; where it has neither, that of
/// its last `<meta itemprop="datePublished">`.
pub proof fn lemma_date_sources(html: Seq<char>)
    ensures
        meta_content(html, "meta[name=\"article:published_time\"]"@) is Some ==> page_date(html)
            == meta_content(html, "meta[name=\"article:published_time\"]"@),
        meta_content(html, "meta[name=\"article:published_time\"]"@) is None && meta_content(
            html,
            "meta[property=\"og:updated_time\"]"@,
        ) is Some ==> page_date(html) == meta_content(html, "meta[property=\"og:updated_time\"]"@),
        meta_content(html, "meta[name=\"article:published_time\"]"@) is None && meta_content(
            html,
            "meta[property=\"og:updated_time\"]"@,
        ) is None ==> page_date(html) == meta_content(html, "meta[itemprop=\"datePublished\"]"@),
{
    reveal_strlit("meta[name=\"article:published_time\"]");
    reveal_strlit("meta[property=\"og:updated_time\"]");
    reveal_strlit("meta[itemprop=\"datePublished\"]");
    reveal_strlit("meta[");
    reveal_strlit("property");
    reveal_strlit("name");
    reveal_strlit("itemprop");
    reveal_strlit("=\"");
    reveal_strlit("article:published_time");
    reveal_strlit("og:updated_time");
    reveal_strlit("datePublished");
    reveal_strlit("\"]");
    assert(meta_selector("name"@, "article:published_time"@)
        =~= "meta[name=\"article:published_time\"]"@);
    assert(meta_selector("property"@, "og:updated_time"@)
        =~= "meta[property=\"og:updated_time\"]"@);
    assert(meta_selector("itemprop"@, "datePublished"@) =~= "meta[itemprop=\"datePublished\"]"@);
}

/// Reads metadata out of the `<meta>` tags of a page.
pub struct MetaScraper {
    fragment: String,
}

impl View for MetaScraper {
    type V = Seq<char>;

    /// The HTML that the scraper reads.
    closed spec fn view(&self) -> Seq<char> {
        self.fragment@
    }
}

impl MetaScraper {
    /// A scraper of the page `html`, read as an HTML fragment.
    pub fn new(html: &str) -> (r: Self)
        ensures
            r@ == html@,
    {
        MetaScraper { fragment: html.to_string() }
    }

    fn extract_from_meta_string(&self, meta_string: &str) -> (r: Option<String>)
        ensures
            opt_string_view(r) == meta_content(self@, meta_string@),
    {
        match select_attr_values(self.fragment.as_str(), meta_string, "content") {
            Some(mut values) => {
                let ghost all = values@;
                let last = values.pop();
                match last {
                    Some(content) => {
                        assert(all.last() == content);
                        content
                    },
                    None => None,
                }
            },
            None => None,
        }
    }

    fn meta_selector_text(key: &str, value: &str) -> (r: String)
        ensures
            r@ == meta_selector(key@, value@),
    {
        let r = "meta[".to_string().concat(key).concat("=\"").concat(value).concat("\"]");
        r
    }

    fn extract_meta_name(&self, name: &str) -> (r: Option<String>)
        ensures
            opt_string_view(r) == meta_value(self@, "name"@, name@),
    {
        let selector = Self::meta_selector_text("name", name);
        self.extract_from_meta_string(selector.as_str())
    }

    fn extract_meta_property(&self, property: &str) -> (r: Option<String>)
        ensures
            opt_string_view(r) == meta_value(self@, "property"@, property@),
    {
        let selector = Self::meta_selector_text("property", property);
        self.extract_from_meta_string(selector.as_str())
    }

    fn extract_meta_itemprop(&self, itemprop: &str) -> (r: Option<String>)
        ensures
            opt_string_view(r) == meta_value(self@, "itemprop"@, itemprop@),
    {
        let selector = Self::meta_selector_text("itemprop", itemprop);
        self.extract_from_meta_string(selector.as_str())
    }

    /// The publication date of the page (see [`page_date`]).
    pub fn extract_date(&self) -> (r: Option<String>)
        ensures
            opt_string_view(r) == page_date(self@),
    {
        match self.extract_meta_name("article:published_time") {
            Some(d) => Some(d),
            None => match self.extract_meta_property("og:updated_time") {
                Some(og_d) => Some(og_d),
                None => self.extract_meta_itemprop("datePublished"),
            },
        }
    }

    /// The title of the page (see [`page_title`]).
    pub fn extract_title(&self) -> (r: Option<String>)
        ensures
            opt_string_view(r) == page_title(self@),
    {
        match self.extract_meta_property("og:title") {
            Some(t) => Some(t),
            None => self.extract_meta_name("twitter:title"),
        }
    }

    /// `document` with its title, author and date replaced by those that
    /// the page's meta tags give (absent where they give none).
    pub fn fill_metadata(&self, document: Document) -> (r: Document)
        ensures
            opt_string_view(r.title) == page_title(self@),
            opt_string_view(r.byline) == page_author(self@),
            opt_string_view(r.date) == page_date(self@),
            r.content == document.content,
            r.plain_text == document.plain_text,
    {
        let mut document = document;
        document.title = self.extract_title();
        document.byline = self.extract_author();
        document.date = self.extract_date();
        document
    }

    /// The author of the page (see [`page_author`]).
    pub fn extract_author(&self) -> (r: Option<String>)
        ensures
            opt_string_view(r) == page_author(self@),
    {
        self.extract_meta_property("og:author")
    }
}

/// The article extractor to run on a page.
#[derive(Clone, Copy, Debug, PartialEq, Eq)]
pub enum ParserKind {
    ReadabiliPy,
    ReadabilityJs,
    ReadabilityRs,
}

impl ParserKind {
    /// The extractor chosen by its short name: `py`, `js` or `rs`; the
    /// Rust one for any other name, the empty one included.
    pub fn from_name(name: &str) -> (r: ParserKind)
        ensures
            r == (if name@ == "py"@ {
                ParserKind::ReadabiliPy
            } else if name@ == "js"@ {
                ParserKind::ReadabilityJs
            } else {
                ParserKind::ReadabilityRs
            }),
    {
        let name = name.to_string();
        if name == "py".to_string() {
            ParserKind::ReadabiliPy
        } else if name == "js".to_string() {
            ParserKind::ReadabilityJs
        } else {
            ParserKind::ReadabilityRs
        }
    }

    /// Whether this extractor runs as an outside command that writes the
    /// document as JSON, rather than in process.
    pub fn runs_external_command(&self) -> (r: bool)
        ensures
            r == !(*self is ReadabilityRs),
    {
        match self {
            ParserKind::ReadabilityRs => false,
            _ => true,
        }
    }
}

/// Turns the output of the article extractors into documents.
pub struct Parser {}

/// What `readability::extractor::extract` finds in the page `html` read
/// from the URL that `url` parses to: the article's title, its HTML and its
/// plain text; `None` where it fails.
pub uninterp spec fn readability_product(html: Seq<char>, url: Seq<char>) -> Option<
    (Seq<char>, Seq<char>, Seq<char>),
>;

/// Calls `readability::extractor::extract` on the bytes of `html` with the
/// URL that `url` parses to (which the precondition says it does). Claimed:
/// the result is [`readability_product`] of the arguments.
#[verifier::external_body]
fn readability_extract(html: &str, url: &str) -> (r: Option<(String, String, String)>)
    requires
        url_parse_result(url@) is Ok,
    ensures
        match r {
            Some((t, c, x)) => readability_product(html@, url@) == Some((t@, c@, x@)),
            None => readability_product(html@, url@) is None,
        },
{
    let url = url::Url::parse(url).unwrap();
    match readability::extractor::extract(&mut html.as_bytes(), &url) {
        Ok(product) => Some((product.title, product.content, product.text)),
        Err(_) => None,
    }
}

/// Why the in-process extractor made no document.
#[derive(Clone, Debug)]
pub enum ExtractError {
    /// The page's URL does not parse.
    UrlParseError(UrlError),
    /// The extractor failed on the page.
    Unreadable,
}

/// The document that the in-process extractor makes of the page `html`
/// read from `target`, as plain values: title, HTML and text of the
/// article; `Unknown` author and date.
pub open spec fn native_document(target: Seq<char>, html: Seq<char>) -> Result<
    (Seq<char>, Seq<char>, Seq<char>),
    Option<UrlErrorView>,
> {
    match url_parse_result(target) {
        Err(e) => Err(Some(e)),
        Ok(_) => match readability_product(html, target) {
            Some(p) => Ok(p),
            None => Err(None),
        },
    }
}

/// Where the external extractor reads the page and writes the document.
#[derive(Clone, Debug)]
pub struct ExtractionPaths {
    /// The file that the downloaded page is saved to.
    pub html_path: String,
    /// The file that the extractor writes the document to, as JSON.
    pub json_path: String,
}

/// The in-process extractor's document is what Readability finds in the
/// page: its title, its article HTML as the content and its plain text, in
/// that order; there is one exactly where the page's URL parses and
/// Readability succeeds.
pub proof fn lemma_native_document_is_readabilitys(target: Seq<char>, html: Seq<char>)
    ensures
        native_document(target, html) is Ok <==> (url_parse_result(target) is Ok
            && readability_product(html, target) is Some),
        native_document(target, html) is Ok ==> Some(native_document(target, html)->Ok_0)
            == readability_product(html, target),
        url_parse_result(target) is Err ==> native_document(target, html) == Err::<
            (Seq<char>, Seq<char>, Seq<char>),
            Option<UrlErrorView>,
        >(Some(url_parse_result(target)->Err_0)),
{
}

impl Parser {
    /// The document that the in-process extractor makes of the page `html`
    /// downloaded from `target` (see [`native_document`]).
    pub fn default(target: &str, html: &str) -> (r: Result<Document, ExtractError>)
        ensures
            match r {
                Ok(d) => {
                    &&& d.title is Some && d.content is Some && d.plain_text is Some
                    &&& native_document(target@, html@) == Ok::<
                        (Seq<char>, Seq<char>, Seq<char>),
                        Option<UrlErrorView>,
                    >((d.title->0@, d.content->0@, d.plain_text->0@))
                    &&& opt_string_view(d.byline) == Some("Unknown"@)
                    &&& opt_string_view(d.date) == Some("Unknown"@)
                    &&& url_parse_result(target@) is Ok
                    &&& readability_product(html@, target@) matches Some((t, c, x)) && d.title->0@
                        == t && d.content->0@ == c && d.plain_text->0@ == x
                },
                Err(ExtractError::UrlParseError(e)) => native_document(target@, html@) == Err::<
                    (Seq<char>, Seq<char>, Seq<char>),
                    Option<UrlErrorView>,
                >(Some(url_error_view(e))),
                Err(ExtractError::Unreadable) => native_document(target@, html@) == Err::<
                    (Seq<char>, Seq<char>, Seq<char>),
                    Option<UrlErrorView>,
                >(None),
            },
            url_parse_result(target@) is Ok && readability_product(html@, target@) is Some
                ==> r is Ok,
    {
        match parse_url(target) {
            Err(e) => Err(ExtractError::UrlParseError(e)),
            Ok(_) => match readability_extract(html, target) {
                Some((title, content, text)) => Ok(Self::document_of(title, content, text)),
                None => Err(ExtractError::Unreadable),
            },
        }
    }

    /// The document of an article with the title `title`, the HTML
    /// `content` and the plain text `text`, whose author and date are
    /// `Unknown`.
    pub fn document_of(title: String, content: String, text: String) -> (r: Document)
        ensures
            r.title == Some(title),
            r.content == Some(content),
            r.plain_text == Some(text),
            r.byline matches Some(b) && b@ == "Unknown"@,
            r.date matches Some(d) && d@ == "Unknown"@,
    {
        Document {
            title: Some(title),
            byline: Some("Unknown".to_string()),
            date: Some("Unknown".to_string()),
            content: Some(content),
            plain_text: Some(text),
        }
    }

    /// The files of an external extraction in the directory `tmp_dir`: the
    /// page is saved under the name of the file that its final URL
    /// `response_url` points at (`tmp.bin` where it points at none), and
    /// the document is written to `document.json`.
    pub fn readabilipy_paths(tmp_dir: &str, response_url: &str) -> (r: ExtractionPaths)
        ensures
            r.html_path@ == join_path(tmp_dir@, url_file_name(response_url@, "tmp.bin"@)),
            r.json_path@ == join_path(tmp_dir@, "document.json"@),
    {
        let file_name = file_name_from_url(response_url, "tmp.bin");
        ExtractionPaths {
            html_path: join_path_str(tmp_dir, file_name.as_str()),
            json_path: join_path_str(tmp_dir, "document.json"),
        }
    }
}

} // verus!
