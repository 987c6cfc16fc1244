//! Queries on HTML pages, through the `domparser` crate.
//!
//! Each query parses the page text and walks the resulting tree, so what it
//! returns is a function of the page text and the query alone.

use vstd::prelude::*;

verus! {

/// The text of every element of `html` that `selector` matches, in document
/// order, as `domparser::DomNode::select_all` finds them from the root.
pub uninterp spec fn dom_all_texts(html: Seq<char>, selector: Seq<char>) -> Seq<Seq<char>>;

/// For every element of `html` that `selector` matches, in document order,
/// its text and the value of its attribute `attribute`.
pub uninterp spec fn dom_all_anchors(html: Seq<char>, selector: Seq<char>, attribute: Seq<char>) -> Seq<(Seq<char>, Option<Seq<char>>)>;

/// For every element of `html` that `outer` matches, in document order, the
/// text and attribute `attribute` of each element below it that `inner`
/// matches, in document order.
pub uninterp spec fn dom_nested_anchors(
    html: Seq<char>,
    outer: Seq<char>,
    inner: Seq<char>,
    attribute: Seq<char>,
) -> Seq<Seq<(Seq<char>, Option<Seq<char>>)>>;

/// The first of `texts`, if any.
pub open spec fn first_text(texts: Seq<Seq<char>>) -> Option<Seq<char>> {
    if texts.len() > 0 {
        Some(texts[0])
    } else {
        None
    }
}

/// Parses `html` with `domparser::parse` and returns the text
/// (`DomNode::text`) of the element that `DomNode::select` finds for
/// `selector`. `select` and `select_all` walk the tree in the same order and
/// `select` stops at the first match, so the result is the first text that
/// `select_all` gives.
#[verifier::external_body]
pub(crate) fn select_text(html: &str, selector: &str) -> (r: Option<String>)
    ensures
        r.deep_view() == first_text(dom_all_texts(html@, selector@)),
{
    domparser::parse(html.to_string()).select(selector.to_string()).map(|node| node.text())
}

/// Parses `html` with `domparser::parse` and returns the text of each element
/// that `DomNode::select_all` finds for `selector`.
#[verifier::external_body]
pub(crate) fn select_all_texts(html: &str, selector: &str) -> (r: Vec<String>)
    ensures
        r.deep_view() == dom_all_texts(html@, selector@),
{
    domparser::parse(html.to_string())
        .select_all(selector.to_string())
        .iter()
        .map(|node| node.text())
        .collect()
}

/// Parses `html` with `domparser::parse` and returns, for each element that
/// `DomNode::select_all` finds for `selector`, its text and
/// `DomNode::get_attribute(attribute)`.
#[verifier::external_body]
pub(crate) fn select_all_anchors(html: &str, selector: &str, attribute: &str) -> (r: Vec<(String, Option<String>)>)
    ensures
        r.deep_view() == dom_all_anchors(html@, selector@, attribute@),
{
    domparser::parse(html.to_string())
        .select_all(selector.to_string())
        .iter()
        .map(|node| (node.text(), node.get_attribute(attribute.to_string())))
        .collect()
}

/// Parses `html` with `domparser::parse`; for each element that
/// `DomNode::select_all` finds for `outer`, returns the text and
/// `get_attribute(attribute)` of each element that its own
/// `select_all(inner)` finds.
#[verifier::external_body]
pub(crate) fn select_nested_anchors(html: &str, outer: &str, inner: &str, attribute: &str) -> (r: Vec<Vec<(String, Option<String>)>>)
    ensures
        r.deep_view() == dom_nested_anchors(html@, outer@, inner@, attribute@),
{
    domparser::parse(html.to_string())
        .select_all(outer.to_string())
        .iter()
        .map(|group| {
            group
                .select_all(inner.to_string())
                .iter()
                .map(|node| (node.text(), node.get_attribute(attribute.to_string())))
                .collect()
        })
        .collect()
}

} // verus!
