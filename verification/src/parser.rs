//! The headings of a page, read with `kuchiki`.

use vstd::prelude::*;
use crate::html::{select_first_children, selected_first_children, first_children_view};

verus! {

/// Reads the `<h1>` headings of a page.
pub struct KuchikiParser {}

/// Why the headings of a page could not all be read.
#[derive(Clone, Copy, Debug, PartialEq, Eq)]
pub enum HeadingFailure {
    /// The selector was refused.
    InvalidSelector,
    /// A heading has no child.
    NoChild,
    /// A heading's first child is not text.
    NotText,
}

/// The texts of a page's headings, in document order, up to the first that
/// could not be read, and why that one could not.
#[derive(Clone, Debug)]
pub struct Headings {
    pub titles: Vec<String>,
    pub failure: Option<HeadingFailure>,
}

/// The texts read from the first children `cs`, up to the first child that
/// is missing or is not text.
pub open spec fn heading_texts(cs: Seq<Option<Option<Seq<char>>>>) -> Seq<Seq<char>>
    decreases cs.len(),
{
    if cs.len() == 0 {
        Seq::empty()
    } else {
        match cs[0] {
            Some(Some(t)) => seq![t] + heading_texts(cs.skip(1)),
            _ => Seq::empty(),
        }
    }
}

/// Why reading the first children `cs` stops early, if it does.
pub open spec fn heading_failure(cs: Seq<Option<Option<Seq<char>>>>) -> Option<HeadingFailure>
    decreases cs.len(),
{
    if cs.len() == 0 {
        None
    } else {
        match cs[0] {
            Some(Some(_)) => heading_failure(cs.skip(1)),
            Some(None) => Some(HeadingFailure::NotText),
            None => Some(HeadingFailure::NoChild),
        }
    }
}

/// No more texts are read than there are headings, and every heading's
/// text is read when reading does not stop early.
pub proof fn lemma_heading_count(cs: Seq<Option<Option<Seq<char>>>>)
    ensures
        heading_texts(cs).len() <= cs.len(),
        heading_failure(cs) is None ==> heading_texts(cs).len() == cs.len(),
    decreases cs.len(),
{
    if cs.len() > 0 {
        lemma_heading_count(cs.skip(1));
    }
}

/// Where reading does not stop early, the texts read are those of the
/// headings, one for each, in document order.
pub proof fn lemma_heading_texts_in_order(cs: Seq<Option<Option<Seq<char>>>>, i: int)
    requires
        heading_failure(cs) is None,
        0 <= i < cs.len(),
    ensures
        cs[i] == Some(Some(heading_texts(cs)[i])),
    decreases cs.len(),
{
    if i > 0 {
        lemma_heading_texts_in_order(cs.skip(1), i - 1);
        lemma_heading_count(cs.skip(1));
    }
}

impl KuchikiParser {
    /// The texts of the `<h1>` headings of the page `html` (each one's
    /// first child), up to the first one that has no child or whose first
    /// child is not text.
    pub fn parse(html: &str) -> (r: Headings)
        ensures
            match selected_first_children(html@, "h1"@) {
                Some(cs) => r.titles@.map_values(|t: String| t@) == heading_texts(cs)
                    && r.failure == heading_failure(cs),
                None => r.titles@.len() == 0 && r.failure == Some(HeadingFailure::InvalidSelector),
            },
    {
        match select_first_children(html, "h1") {
            None => Headings { titles: Vec::new(), failure: Some(HeadingFailure::InvalidSelector) },
            Some(children) => {
                let ghost cs = first_children_view(children@);
                let mut titles: Vec<String> = Vec::new();
                let mut failure: Option<HeadingFailure> = None;
                let mut i: usize = 0;
                assert(cs.skip(0) =~= cs);
                while i < children.len()
                    invariant
                        i <= children.len(),
                        cs == first_children_view(children@),
                        selected_first_children(html@, "h1"@) == Some(cs),
                        failure is None,
                        titles@.map_values(|t: String| t@) + heading_texts(cs.skip(i as int))
                            == heading_texts(cs),
                        heading_failure(cs.skip(i as int)) == heading_failure(cs),
                    decreases children.len() - i,
                {
                    let ghost rest = cs.skip(i as int);
                    assert(rest[0] == cs[i as int]);
                    assert(rest.skip(1) =~= cs.skip(i + 1));
                    match &children[i] {
                        Some(Some(t)) => {
                            let ghost before = titles@;
                            titles.push(t.clone());
                            assert(titles@.map_values(|t: String| t@) =~= before.map_values(
                                |t: String| t@,
                            ).push(t@));
                            assert(seq![t@] + heading_texts(cs.skip(i + 1)) == heading_texts(rest));
                        },
                        Some(None) => {
                            assert(heading_texts(rest) =~= Seq::<Seq<char>>::empty());
                            assert(titles@.map_values(|t: String| t@) + Seq::<Seq<char>>::empty()
                                =~= titles@.map_values(|t: String| t@));
                            return Headings { titles, failure: Some(HeadingFailure::NotText) };
                        },
                        None => {
                            assert(heading_texts(rest) =~= Seq::<Seq<char>>::empty());
                            assert(titles@.map_values(|t: String| t@) + Seq::<Seq<char>>::empty()
                                =~= titles@.map_values(|t: String| t@));
                            return Headings { titles, failure: Some(HeadingFailure::NoChild) };
                        },
                    }
                    i = i + 1;
                }
                assert(cs.skip(i as int) =~= Seq::<Option<Option<Seq<char>>>>::empty());
                assert(titles@.map_values(|t: String| t@) + Seq::<Seq<char>>::empty()
                    =~= titles@.map_values(|t: String| t@));
                Headings { titles, failure }
            },
        }
    }
}

} // verus!
