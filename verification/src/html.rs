//! What the library reads out of HTML. Parsing HTML and matching selectors
//! is the work of outside crates (`scraper`, `soup`, `kuchiki`); each
//! trusted item below takes HTML text and hands back plain values, named by
//! a spec function of its arguments, since HTML parsing depends on its
//! input alone.

use vstd::prelude::*;
use kuchiki::traits::TendrilSink;
use soup::{NodeExt, QueryBuilderExt};

verus! {

/// A list of optional strings, taken as sequences of characters.
pub open spec fn opt_strings_view(v: Seq<Option<String>>) -> Seq<Option<Seq<char>>> {
    v.map_values(|o: Option<String>| opt_string_view(o))
}

/// An optional string, taken as a sequence of characters.
pub open spec fn opt_string_view(o: Option<String>) -> Option<Seq<char>> {
    match o {
        Some(s) => Some(s@),
        None => None,
    }
}

/// What the first child of an element is, as plain values: `None` where
/// there is no child, `Some(None)` where it is not a text node, and
/// `Some(Some(t))` for a text node holding `t`.
pub open spec fn first_children_view(v: Seq<Option<Option<String>>>) -> Seq<Option<Option<Seq<char>>>> {
    v.map_values(|o: Option<Option<String>>| match o {
        Some(c) => Some(opt_string_view(c)),
        None => None,
    })
}

/// For the HTML fragment `html` as `scraper::Html::parse_fragment` parses
/// it, the value of the attribute `attr` of every element that the CSS
/// selector `selector` matches, in document order; `None` where
/// `scraper::Selector::parse` refuses the selector.
pub uninterp spec fn selected_attr_values(
    html: Seq<char>,
    selector: Seq<char>,
    attr: Seq<char>,
) -> Option<Seq<Option<Seq<char>>>>;

/// For the HTML document `html` as `soup::Soup::new` parses it, the value
/// (`NodeExt::get`) of the attribute `attr` of every element named `tag`
/// that `QueryBuilder::find_all` yields, in that order.
pub uninterp spec fn tag_attr_values(html: Seq<char>, tag: Seq<char>, attr: Seq<char>) -> Seq<
    Option<Seq<char>>,
>;

/// For the HTML document `html` as `kuchiki::parse_html` parses it, the
/// first child of every element that `NodeRef::select` yields for
/// `selector` (see [`first_children_view`]); `None` where the selector is
/// refused.
pub uninterp spec fn selected_first_children(html: Seq<char>, selector: Seq<char>) -> Option<
    Seq<Option<Option<Seq<char>>>>,
>;

/// Calls `scraper::Selector::parse`, `scraper::Html::parse_fragment`,
/// `scraper::Html::select` and `scraper::node::Element::attr`. Claimed: the
/// result is [`selected_attr_values`] of the arguments.
#[verifier::external_body]
pub(crate) fn select_attr_values(html: &str, selector: &str, attr: &str) -> (r: Option<Vec<Option<String>>>)
    ensures
        match r {
            Some(v) => selected_attr_values(html@, selector@, attr@) == Some(opt_strings_view(v@)),
            None => selected_attr_values(html@, selector@, attr@) is None,
        },
{
    let selector = scraper::Selector::parse(selector).ok()?;
    let fragment = scraper::Html::parse_fragment(html);
    let mut values = Vec::new();
    for element in fragment.select(&selector) {
        values.push(element.value().attr(attr).map(String::from));
    }
    Some(values)
}

/// Calls `soup::Soup::new`, `QueryBuilderExt::tag`, `QueryBuilder::find_all`
/// and `NodeExt::get`. Claimed: the result is [`tag_attr_values`] of the
/// arguments.
#[verifier::external_body]
pub(crate) fn find_tag_attr_values(html: &str, tag: &str, attr: &str) -> (r: Vec<Option<String>>)
    ensures
        opt_strings_view(r@) == tag_attr_values(html@, tag@, attr@),
{
    let soup = soup::Soup::new(html);
    let mut values = Vec::new();
    for node in soup.tag(tag).find_all() {
        values.push(node.get(attr));
    }
    values
}

/// Calls `kuchiki::parse_html`, `NodeRef::select`, `NodeRef::first_child`
/// and `NodeRef::as_text`. Claimed: the result is
/// [`selected_first_children`] of the arguments.
#[verifier::external_body]
pub(crate) fn select_first_children(html: &str, selector: &str) -> (r: Option<Vec<Option<Option<String>>>>)
    ensures
        match r {
            Some(v) => selected_first_children(html@, selector@) == Some(first_children_view(v@)),
            None => selected_first_children(html@, selector@) is None,
        },
{
    let document = kuchiki::parse_html().one(html);
    let mut children = Vec::new();
    for matched in document.select(selector).ok()? {
        children.push(match matched.as_node().first_child() {
            Some(child) => Some(child.as_text().map(|t| t.borrow().clone())),
            None => None,
        });
    }
    Some(children)
}

} // verus!
