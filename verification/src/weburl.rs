//! URLs, held as the text that `url::Url` serializes them to. What only the
//! `url` crate can compute (parsing, resolving a reference against a base,
//! the path of a URL) comes from it through the trusted items below; the
//! choices made on those results are verified.

use vstd::prelude::*;
use url::ParseError;
use crate::text::{after_last, to_chars, find_last, from_chars, last_index_of, lemma_last_index_bounds};

verus! {

/// Why a text could not be made into a URL.
#[derive(Clone, Debug)]
pub enum UrlError {
    /// The text is a relative reference, and no base URL was given.
    RelativeUrlWithoutBase,
    /// Any other failure, with the message that the `url` crate gives for it.
    Other(String),
}

impl UrlError {
    /// The message that describes the failure.
    pub fn message(&self) -> (r: String)
        ensures
            r@ == match self {
                UrlError::RelativeUrlWithoutBase => "relative URL without a base"@,
                UrlError::Other(m) => m@,
            },
    {
        match self {
            UrlError::RelativeUrlWithoutBase => "relative URL without a base".to_string(),
            UrlError::Other(m) => m.clone(),
        }
    }
}

/// A `UrlError` with its message taken as a sequence of characters.
pub open spec fn url_error_view(e: UrlError) -> UrlErrorView {
    match e {
        UrlError::RelativeUrlWithoutBase => UrlErrorView::RelativeUrlWithoutBase,
        UrlError::Other(m) => UrlErrorView::Other(m@),
    }
}

/// The mathematical counterpart of [`UrlError`].
pub ghost enum UrlErrorView {
    RelativeUrlWithoutBase,
    Other(Seq<char>),
}

/// A parsed URL's serialization, or the failure, as plain values.
pub open spec fn url_result_view(r: Result<String, UrlError>) -> Result<Seq<char>, UrlErrorView> {
    match r {
        Ok(s) => Ok(s@),
        Err(e) => Err(url_error_view(e)),
    }
}

/// What `url::Url::parse` gives for `input`: the serialization of the URL,
/// or the failure.
pub uninterp spec fn url_parse_result(input: Seq<char>) -> Result<Seq<char>, UrlErrorView>;

/// What `url::Url::join` gives when the URL that `base` parses to resolves
/// `input`: the serialization of the result, or the failure.
pub uninterp spec fn url_join_result(base: Seq<char>, input: Seq<char>) -> Result<
    Seq<char>,
    UrlErrorView,
>;

/// What `url::Url::path` gives for the URL that `url` parses to; `None`
/// where `url` does not parse.
pub uninterp spec fn url_path_result(url: Seq<char>) -> Option<Seq<char>>;

/// Calls `url::Url::parse`. Claimed: the result is the serialization of the
/// parsed URL (`String::from(Url)`), or the error, told apart as a relative
/// reference without a base or any other error with its `Display` message;
/// and it depends on `input` alone.
#[verifier::external_body]
pub(crate) fn parse_url(input: &str) -> (r: Result<String, UrlError>)
    ensures
        url_result_view(r) == url_parse_result(input@),
{
    match url::Url::parse(input) {
        Ok(u) => Ok(String::from(u)),
        Err(ParseError::RelativeUrlWithoutBase) => Err(UrlError::RelativeUrlWithoutBase),
        Err(e) => Err(UrlError::Other(e.to_string())),
    }
}

/// Calls `url::Url::join` on the URL that `base` parses to (which the
/// precondition says it does). Claimed: the result is the serialization of
/// the resolved URL, or the error as in [`parse_url`], and it depends on
/// `base` and `input` alone.
#[verifier::external_body]
pub(crate) fn join_url(base: &str, input: &str) -> (r: Result<String, UrlError>)
    requires
        url_parse_result(base@) is Ok,
    ensures
        url_result_view(r) == url_join_result(base@, input@),
{
    let base = url::Url::parse(base).unwrap();
    match base.join(input) {
        Ok(u) => Ok(String::from(u)),
        Err(ParseError::RelativeUrlWithoutBase) => Err(UrlError::RelativeUrlWithoutBase),
        Err(e) => Err(UrlError::Other(e.to_string())),
    }
}

/// Calls `url::Url::path` on the URL that `url` parses to. Claimed: the
/// result is that path, `None` exactly where `url` does not parse, and it
/// depends on `url` alone.
#[verifier::external_body]
pub(crate) fn url_path(url: &str) -> (r: Option<String>)
    ensures
        match r {
            Some(p) => url_path_result(url@) == Some(p@),
            None => url_path_result(url@) is None,
        },
        r is Some <==> url_parse_result(url@) is Ok,
{
    match url::Url::parse(url) {
        Ok(u) => Some(u.path().to_string()),
        Err(_) => None,
    }
}

/// The name of the file that a URL points at: the last segment of its path
/// (`Url::path_segments`: the path after its leading `/`, split at every
/// `/`) when that segment is not empty, and `fallback` otherwise, also
/// where the path does not start with `/` or the text is no URL.
pub open spec fn url_file_name(url: Seq<char>, fallback: Seq<char>) -> Seq<char> {
    match url_path_result(url) {
        Some(path) => if path.len() > 0 && path[0] == '/' && after_last(path, '/').len() > 0 {
            after_last(path, '/')
        } else {
            fallback
        },
        None => fallback,
    }
}

/// A URL whose path is `dir + "/" + seg`, with `dir` empty or starting
/// with `/` and `seg` a non-empty segment without `/`, points at the file
/// `seg`; one whose path ends with `/`, or does not start with one, or that
/// is no URL, points at the fallback.
pub proof fn lemma_url_file_name_is_last_segment(url: Seq<char>, fallback: Seq<char>, dir: Seq<char>, seg: Seq<char>)
    ensures
        url_path_result(url) == Some(dir + seq!['/'] + seg) && (dir.len() == 0 || dir[0] == '/')
            && seg.len() > 0 && !seg.contains('/') ==> url_file_name(url, fallback) == seg,
        url_path_result(url) == Some(dir + seq!['/']) ==> url_file_name(url, fallback) == fallback,
        url_path_result(url) matches Some(p) && (p.len() == 0 || p[0] != '/') ==> url_file_name(
            url,
            fallback,
        ) == fallback,
        url_path_result(url) is None ==> url_file_name(url, fallback) == fallback,
{
    let p = dir + seq!['/'] + seg;
    if url_path_result(url) == Some(p) && (dir.len() == 0 || dir[0] == '/') && seg.len() > 0
        && !seg.contains('/') {
        lemma_last_index_bounds(p, '/');
        assert(p[dir.len() as int] == '/');
        assert forall|j: int| dir.len() < j < p.len() implies p[j] != '/' by {
            assert(p[j] == seg[j - dir.len() - 1]);
        }
        assert(last_index_of(p, '/') == dir.len());
        assert(after_last(p, '/') =~= seg);
        assert(p[0] == '/');
    }
    let q = dir + seq!['/'];
    if url_path_result(url) == Some(q) {
        lemma_last_index_bounds(q, '/');
        assert(last_index_of(q, '/') == dir.len());
        assert(after_last(q, '/').len() == 0);
    }
}

/// The name of the file that the URL `url` points at (see [`url_file_name`]).
pub fn file_name_from_url(url: &str, fallback: &str) -> (r: String)
    ensures
        r@ == url_file_name(url@, fallback@),
        fallback@.len() > 0 ==> r@.len() > 0,
        !r@.contains('/') || r@ == fallback@,
{
    match url_path(url) {
        Some(path) => {
            let cs = to_chars(path.as_str());
            if cs.len() > 0 && cs[0] == '/' {
                match find_last(&cs, '/') {
                    Some(i) => {
                        let seg = from_chars(&cs, i + 1, cs.len());
                        assert(seg@ =~= after_last(path@, '/'));
                        if seg.as_str().unicode_len() > 0 {
                            proof {
                                lemma_after_last_has_no(path@, '/');
                            }
                            seg
                        } else {
                            fallback.to_string()
                        }
                    },
                    None => {
                        proof {
                            lemma_last_index_bounds(path@, '/');
                            assert(path@[0] == '/');
                        }
                        fallback.to_string()
                    },
                }
            } else {
                fallback.to_string()
            }
        },
        None => fallback.to_string(),
    }
}

proof fn lemma_after_last_has_no(s: Seq<char>, c: char)
    ensures
        !after_last(s, c).contains(c),
{
    lemma_last_index_bounds(s, c);
    let i = last_index_of(s, c);
    let a = after_last(s, c);
    assert forall|k: int| 0 <= k < a.len() implies a[k] != c by {
        assert(a[k] == s[i + 1 + k]);
    }
}

} // verus!
