//! The article that an epub is made of, and the decisions around building
//! the epub that do not touch the network, the disk or the templates.

use vstd::prelude::*;
use crate::weburl::{parse_url, url_parse_result, url_result_view, UrlError};

verus! {

/// An article as an extractor hands it over.
#[derive(Clone, Debug)]
pub struct Document {
    pub title: Option<String>,
    /// The author.
    pub byline: Option<String>,
    pub date: Option<String>,
    pub content: Option<String>,
    pub plain_text: Option<String>,
}

/// The text put into the epub for each field of a document.
#[derive(Clone, Debug)]
pub struct EpubText {
    pub title: String,
    pub author: String,
    pub date: String,
    pub content: String,
}

/// `o` as characters, or `default` where it is absent.
pub open spec fn or_default(o: Option<String>, default: Seq<char>) -> Seq<char> {
    match o {
        Some(s) => s@,
        None => default,
    }
}

fn text_or(o: &Option<String>, default: &str) -> (r: String)
    ensures
        r@ == or_default(*o, default@),
{
    match o {
        Some(s) => s.clone(),
        None => default.to_string(),
    }
}

impl Document {
    /// Checks the URL of the page to turn into an epub: the parsed URL's
    /// serialization, or why it is not a URL.
    pub fn check_target(target: &str) -> (r: Result<String, UrlError>)
        ensures
            url_result_view(r) == url_parse_result(target@),
    {
        parse_url(target)
    }

    /// The text of the epub: each field of the document, or a placeholder
    /// that says it is unknown.
    pub fn epub_text(&self) -> (r: EpubText)
        ensures
            r.title@ == or_default(self.title, "Title unknown"@),
            r.author@ == or_default(self.byline, "Author unknown"@),
            r.date@ == or_default(self.date, "Date unknown"@),
            r.content@ == or_default(self.content, "Content unknown"@),
    {
        EpubText {
            title: text_or(&self.title, "Title unknown"),
            author: text_or(&self.byline, "Author unknown"),
            date: text_or(&self.date, "Date unknown"),
            content: text_or(&self.content, "Content unknown"),
        }
    }
}

/// The name of the epub file written for the output name `output`.
pub fn epub_file_name(output: &str) -> (r: String)
    ensures
        r@ == output@ + ".epub"@,
{
    output.to_string().concat(".epub")
}

} // verus!
