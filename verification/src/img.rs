//! The images of an article: which ones it shows, their absolute URLs, and
//! the names under which they are stored.

use vstd::prelude::*;
use crate::html::{find_tag_attr_values, tag_attr_values, opt_strings_view};
use crate::text::{extension_of, file_extension, join_path, join_path_str, lemma_extension_split, replace_all, replace_all_str};
use crate::weburl::{file_name_from_url, join_url, parse_url, url_file_name, url_join_result, url_parse_result, UrlError, UrlErrorView};

verus! {

/// What is known of one downloaded image.
#[derive(Clone, Debug)]
pub struct ImgMeta {
    /// The absolute URL the image was requested from (serialized).
    pub url: Option<String>,
    /// The file name, without its extension.
    pub filename: Option<String>,
    /// The extension of the file name, if it has one.
    pub extension: Option<String>,
    /// Where the image is stored.
    pub local_path: Option<String>,
}

/// Why an image reference could not be made absolute.
#[derive(Clone, Debug)]
pub enum AbsoluteUrlError {
    /// The reference is neither an absolute URL nor a relative one.
    Unparsable(UrlError),
    /// The reference is relative, and the page's own URL does not parse.
    InvalidTarget(UrlError),
    /// The reference is relative, and resolving it against the page fails.
    Unresolvable(UrlError),
}

/// The mathematical counterpart of [`AbsoluteUrlError`].
pub ghost enum AbsoluteUrlErrorView {
    Unparsable(UrlErrorView),
    InvalidTarget(UrlErrorView),
    Unresolvable(UrlErrorView),
}

/// The absolute URL that the image reference `img` on the page `target`
/// stands for: `img` itself where it parses; where it is relative, `img`
/// resolved against the page's URL; a failure otherwise.
pub open spec fn absolute_url(target: Seq<char>, img: Seq<char>) -> Result<
    Seq<char>,
    AbsoluteUrlErrorView,
> {
    match url_parse_result(img) {
        Ok(u) => Ok(u),
        Err(UrlErrorView::RelativeUrlWithoutBase) => match url_parse_result(target) {
            Ok(_) => match url_join_result(target, img) {
                Ok(u) => Ok(u),
                Err(e) => Err(AbsoluteUrlErrorView::Unresolvable(e)),
            },
            Err(e) => Err(AbsoluteUrlErrorView::InvalidTarget(e)),
        },
        Err(e) => Err(AbsoluteUrlErrorView::Unparsable(e)),
    }
}

/// An [`AbsoluteUrlError`] as a plain value.
pub open spec fn absolute_error_view(e: AbsoluteUrlError) -> AbsoluteUrlErrorView {
    match e {
        AbsoluteUrlError::Unparsable(u) => AbsoluteUrlErrorView::Unparsable(
            crate::weburl::url_error_view(u),
        ),
        AbsoluteUrlError::InvalidTarget(u) => AbsoluteUrlErrorView::InvalidTarget(
            crate::weburl::url_error_view(u),
        ),
        AbsoluteUrlError::Unresolvable(u) => AbsoluteUrlErrorView::Unresolvable(
            crate::weburl::url_error_view(u),
        ),
    }
}

/// The name an image is stored under, before its extension is taken off:
/// the file that its final URL points at, or `tmp_img.jpg`.
pub open spec fn image_file_name(response_url: Seq<char>) -> Seq<char> {
    url_file_name(response_url, "tmp_img.jpg"@)
}

/// The file name without the extension: every `.` + extension in it taken
/// out (as `str::replace` does); the whole name where it has no extension.
pub open spec fn stem_of(name: Seq<char>) -> Seq<char> {
    match file_extension(name) {
        Some(e) => replace_all(name, seq!['.'] + e, Seq::empty()),
        None => name,
    }
}

/// An image stored as `s + "." + e`, where the extension `e` has no `.` and
/// `"." + e` does not occur inside `s`, is recorded with the file name `s`
/// and the extension `e`: only the extension is split off, and file name,
/// `.` and extension rebuild the stored name.
pub proof fn lemma_image_name_split(s: Seq<char>, e: Seq<char>)
    requires
        s.len() > 0,
        !e.contains('.'),
        !(s == seq!['.'] && e.len() == 0),
        forall|i: int|
            0 <= i && i + e.len() + 1 <= s.len() ==> #[trigger] s.subrange(i, i + e.len() + 1)
                != seq!['.'] + e,
    ensures
        file_extension(s + seq!['.'] + e) == Some(e),
        stem_of(s + seq!['.'] + e) == s,
        stem_of(s + seq!['.'] + e) + seq!['.'] + e == s + seq!['.'] + e,
{
    lemma_extension_split(s, e);
}

/// A stored name without an extension is recorded as it is.
pub proof fn lemma_image_name_without_extension(name: Seq<char>)
    requires
        file_extension(name) is None,
    ensures
        stem_of(name) == name,
{
}

/// An image reference that is already a URL stands for itself, whatever
/// the page.
pub proof fn lemma_absolute_reference_kept(target: Seq<char>, img: Seq<char>)
    requires
        url_parse_result(img) is Ok,
    ensures
        absolute_url(target, img) == Ok::<Seq<char>, AbsoluteUrlErrorView>(url_parse_result(img)->Ok_0),
{
}

/// A relative image reference on a page whose URL parses is resolved, as
/// written, against the page's URL: the result is what `Url::join` gives
/// for the page and the reference, and its failure is reported as such.
pub proof fn lemma_relative_reference_joined(target: Seq<char>, img: Seq<char>)
    requires
        url_parse_result(img) == Err::<Seq<char>, UrlErrorView>(UrlErrorView::RelativeUrlWithoutBase),
        url_parse_result(target) is Ok,
    ensures
        url_join_result(target, img) is Ok ==> absolute_url(target, img) == Ok::<
            Seq<char>,
            AbsoluteUrlErrorView,
        >(url_join_result(target, img)->Ok_0),
        url_join_result(target, img) is Err ==> absolute_url(target, img) == Err::<
            Seq<char>,
            AbsoluteUrlErrorView,
        >(AbsoluteUrlErrorView::Unresolvable(url_join_result(target, img)->Err_0)),
{
}

/// A relative image reference on a page whose URL does not parse cannot be
/// resolved, and the page's failure is reported.
pub proof fn lemma_relative_reference_bad_page(target: Seq<char>, img: Seq<char>)
    requires
        url_parse_result(img) == Err::<Seq<char>, UrlErrorView>(UrlErrorView::RelativeUrlWithoutBase),
        url_parse_result(target) is Err,
    ensures
        absolute_url(target, img) == Err::<Seq<char>, AbsoluteUrlErrorView>(
            AbsoluteUrlErrorView::InvalidTarget(url_parse_result(target)->Err_0),
        ),
{
}

/// Turns the images of the page `target` into files under `tmp_dir_path`.
pub struct ImgProc {
    target: String,
    tmp_dir_path: String,
}

impl ImgProc {
    /// A processor for the images of the page `target`, stored under
    /// `tmp_dir_path`.
    pub fn new(target: String, tmp_dir_path: String) -> (r: Self)
        ensures
            r.target() == target@,
            r.tmp_dir_path() == tmp_dir_path@,
    {
        ImgProc { target, tmp_dir_path }
    }

    /// The page the images belong to.
    pub closed spec fn target(&self) -> Seq<char> {
        self.target@
    }

    /// The directory the images are stored in.
    pub closed spec fn tmp_dir_path(&self) -> Seq<char> {
        self.tmp_dir_path@
    }

    /// The `src` of every `<img>` of the article `content`, in document
    /// order (`None` for one without `src`).
    pub fn image_sources(content: &str) -> (r: Vec<Option<String>>)
        ensures
            opt_strings_view(r@) == tag_attr_values(content@, "img"@, "src"@),
    {
        find_tag_attr_values(content, "img", "src")
    }

    /// The absolute URL of the image reference `img_url` (see [`absolute_url`]).
    pub fn absolute_checker(&self, img_url: &str) -> (r: Result<String, AbsoluteUrlError>)
        ensures
            match r {
                Ok(u) => absolute_url(self.target(), img_url@) == Ok::<Seq<char>, AbsoluteUrlErrorView>(u@),
                Err(e) => absolute_url(self.target(), img_url@) == Err::<Seq<char>, AbsoluteUrlErrorView>(
                    absolute_error_view(e),
                ),
            },
    {
        match parse_url(img_url) {
            Ok(url) => Ok(url),
            Err(UrlError::RelativeUrlWithoutBase) => match parse_url(self.target.as_str()) {
                Ok(_) => match join_url(self.target.as_str(), img_url) {
                    Ok(url) => Ok(url),
                    Err(e) => Err(AbsoluteUrlError::Unresolvable(e)),
                },
                Err(e) => Err(AbsoluteUrlError::InvalidTarget(e)),
            },
            Err(e) => Err(AbsoluteUrlError::Unparsable(e)),
        }
    }

    /// What is recorded of the image requested from `image_url` whose
    /// response came from `response_url`: it is stored under
    /// `tmp_dir_path` by the name of the file that `response_url` points
    /// at; that name's extension is recorded apart and taken out of the
    /// recorded file name.
    pub fn image_meta(&self, image_url: String, response_url: &str) -> (r: ImgMeta)
        ensures
            r.url == Some(image_url),
            r.filename matches Some(f) && f@ == stem_of(image_file_name(response_url@)),
            match r.extension {
                Some(e) => file_extension(image_file_name(response_url@)) == Some(e@),
                None => file_extension(image_file_name(response_url@)) is None,
            },
            r.local_path matches Some(p) && p@ == join_path(
                self.tmp_dir_path(),
                image_file_name(response_url@),
            ),
    {
        let filename = file_name_from_url(response_url, "tmp_img.jpg");
        let local_path = join_path_str(self.tmp_dir_path.as_str(), filename.as_str());
        let ext = extension_of(filename.as_str());
        let stem = match &ext {
            Some(e) => {
                let point_ext = ".".to_string().concat(e.as_str());
                proof {
                    reveal_strlit(".");
                    assert(point_ext@ =~= seq!['.'] + e@);
                }
                replace_all_str(filename.as_str(), point_ext.as_str(), "")
            },
            None => filename.clone(),
        };
        proof {
            reveal_strlit("");
            assert(""@ =~= Seq::<char>::empty());
        }
        ImgMeta {
            url: Some(image_url),
            filename: Some(stem),
            extension: ext,
            local_path: Some(local_path),
        }
    }
}

impl ImgMeta {
    /// The media type the image is added to the epub with: `image/` and its
    /// extension, `image/png` where it has none.
    pub fn media_type(&self) -> (r: String)
        ensures
            r@ == "image/"@ + match self.extension {
                Some(e) => e@,
                None => "png"@,
            },
    {
        match &self.extension {
            Some(e) => "image/".to_string().concat(e.as_str()),
            None => "image/".to_string().concat("png"),
        }
    }
}

} // verus!
