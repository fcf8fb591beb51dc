//! HTML documents, parsed and queried with `scraper`.
//!
//! A node is named by its position in the order in which the parser made
//! the nodes. What a query returns is a function of the text that was
//! parsed and of the query; the contracts give each such function a name.

use vstd::prelude::*;
use scraper::{ElementRef, Html, Selector};

verus! {

/// A parsed document as `scraper` holds it.
#[verifier::external_type_specification]
#[verifier::external_body]
pub struct ExHtml(scraper::Html);

/// The text that a parsed document was made from.
pub uninterp spec fn html_source(doc: scraper::Html) -> Seq<char>;

/// The elements of the document parsed from `source` that match the CSS
/// selector group `css`, in the order of `Html::select`; nothing where
/// `css` is no selector group.
pub uninterp spec fn css_matches(source: Seq<char>, css: Seq<char>) -> Option<Seq<usize>>;

/// The elements below the element `scope` that match `css`, in the order
/// of `ElementRef::select`; nothing where `css` is no selector group or
/// `scope` is no element.
pub uninterp spec fn css_matches_under(source: Seq<char>, scope: usize, css: Seq<char>) -> Option<
    Seq<usize>,
>;

/// The text nodes below the element `node`, joined in document order;
/// nothing where `node` is no element.
pub uninterp spec fn element_text(source: Seq<char>, node: usize) -> Option<Seq<char>>;

/// The value of the attribute `name` of the element `node`; nothing where
/// it has none or `node` is no element.
pub uninterp spec fn element_attr(source: Seq<char>, node: usize, name: Seq<char>) -> Option<
    Seq<char>,
>;

/// The text of the node that follows `node` among its siblings; nothing
/// where no node follows or the one that does is no text.
pub uninterp spec fn sibling_text(source: Seq<char>, node: usize) -> Option<Seq<char>>;

/// Calls `Html::parse_document`, which never fails.
#[verifier::external_body]
fn parse_document(text: &str) -> (doc: Html)
    ensures
        html_source(doc) == text@,
{
    Html::parse_document(text)
}

/// Calls `Selector::parse` and `Html::select`, and gives each element by
/// its position among the document's nodes.
#[verifier::external_body]
fn select_all(doc: &Html, css: &str) -> (r: Option<Vec<usize>>)
    ensures
        match r {
            Some(found) => css_matches(html_source(*doc), css@) == Some(found@),
            None => css_matches(html_source(*doc), css@) is None,
        },
{
    let selector = Selector::parse(css).ok()?;
    Some(doc.select(&selector).map(|e| doc.tree.nodes().position(|n| n == *e).unwrap()).collect())
}

/// Calls `Selector::parse` and `ElementRef::select` on the element at
/// `scope`, and gives each element by its position among the document's
/// nodes.
#[verifier::external_body]
fn select_under(doc: &Html, scope: usize, css: &str) -> (r: Option<Vec<usize>>)
    ensures
        match r {
            Some(found) => css_matches_under(html_source(*doc), scope, css@) == Some(found@),
            None => css_matches_under(html_source(*doc), scope, css@) is None,
        },
{
    let selector = Selector::parse(css).ok()?;
    let element = doc.tree.nodes().nth(scope).and_then(ElementRef::wrap)?;
    Some(
        element.select(&selector).map(|e| doc.tree.nodes().position(|n| n == *e).unwrap()).collect(),
    )
}

/// Calls `ElementRef::text` on the element at `node` and joins the pieces.
#[verifier::external_body]
fn text_of(doc: &Html, node: usize) -> (r: Option<String>)
    ensures
        match r {
            Some(found) => element_text(html_source(*doc), node) == Some(found@),
            None => element_text(html_source(*doc), node) is None,
        },
{
    doc.tree.nodes().nth(node).and_then(ElementRef::wrap).map(|e| e.text().collect())
}

/// Calls `Element::attr` on the element at `node`.
#[verifier::external_body]
fn attr_of(doc: &Html, node: usize, name: &str) -> (r: Option<String>)
    ensures
        match r {
            Some(found) => element_attr(html_source(*doc), node, name@) == Some(found@),
            None => element_attr(html_source(*doc), node, name@) is None,
        },
{
    let element = doc.tree.nodes().nth(node).and_then(ElementRef::wrap)?;
    element.value().attr(name).map(|v| v.to_string())
}

/// Calls `NodeRef::next_sibling` on the node at `node` and `Node::as_text`
/// on what follows.
#[verifier::external_body]
fn text_after(doc: &Html, node: usize) -> (r: Option<String>)
    ensures
        match r {
            Some(found) => sibling_text(html_source(*doc), node) == Some(found@),
            None => sibling_text(html_source(*doc), node) is None,
        },
{
    let next = doc.tree.nodes().nth(node).and_then(|n| n.next_sibling())?;
    next.value().as_text().map(|t| t.to_string())
}

/// The elements that match `css` in the whole document; none where `css`
/// is no selector group.
pub open spec fn selected(source: Seq<char>, css: Seq<char>) -> Seq<usize> {
    match css_matches(source, css) {
        Some(found) => found,
        None => Seq::empty(),
    }
}

/// The elements below `scope` that match `css`; none where there is no
/// such selection.
pub open spec fn selected_under(source: Seq<char>, scope: usize, css: Seq<char>) -> Seq<usize> {
    match css_matches_under(source, scope, css) {
        Some(found) => found,
        None => Seq::empty(),
    }
}

/// The first element below `scope` that matches `css`.
pub open spec fn first_under(source: Seq<char>, scope: usize, css: Seq<char>) -> Option<usize> {
    if selected_under(source, scope, css).len() > 0 {
        Some(selected_under(source, scope, css)[0])
    } else {
        None
    }
}

/// The text of the first element below `scope` that matches `css`.
pub open spec fn first_text_under(source: Seq<char>, scope: usize, css: Seq<char>) -> Option<
    Seq<char>,
> {
    match first_under(source, scope, css) {
        Some(node) => element_text(source, node),
        None => None,
    }
}

/// The attribute `name` of the first element below `scope` that matches
/// `css`.
pub open spec fn first_attr_under(
    source: Seq<char>,
    scope: usize,
    css: Seq<char>,
    name: Seq<char>,
) -> Option<Seq<char>> {
    match first_under(source, scope, css) {
        Some(node) => element_attr(source, node, name),
        None => None,
    }
}

/// A parsed HTML document. Its view is the text it was parsed from.
pub struct Document {
    html: Html,
}

impl View for Document {
    type V = Seq<char>;

    closed spec fn view(&self) -> Seq<char> {
        html_source(self.html)
    }
}

impl Document {
    /// Parses `text`. Parsing does not fail: malformed markup is repaired.
    pub fn parse(text: &str) -> (doc: Document)
        ensures
            doc@ == text@,
    {
        Document { html: parse_document(text) }
    }

    /// The elements of the document that match `css`.
    pub fn select(&self, css: &str) -> (r: Vec<usize>)
        ensures
            r@ == selected(self@, css@),
    {
        match select_all(&self.html, css) {
            Some(found) => found,
            None => Vec::new(),
        }
    }

    /// The elements below `scope` that match `css`.
    pub fn select_under(&self, scope: usize, css: &str) -> (r: Vec<usize>)
        ensures
            r@ == selected_under(self@, scope, css@),
    {
        match select_under(&self.html, scope, css) {
            Some(found) => found,
            None => Vec::new(),
        }
    }

    /// The first element below `scope` that matches `css`.
    pub fn first_under(&self, scope: usize, css: &str) -> (r: Option<usize>)
        ensures
            r == first_under(self@, scope, css@),
    {
        let found = self.select_under(scope, css);
        if found.len() > 0 {
            Some(found[0])
        } else {
            None
        }
    }

    /// The text below the element `node`.
    pub fn text(&self, node: usize) -> (r: Option<String>)
        ensures
            crate::types::opt_text(r) == element_text(self@, node),
    {
        text_of(&self.html, node)
    }

    /// The attribute `name` of the element `node`.
    pub fn attr(&self, node: usize, name: &str) -> (r: Option<String>)
        ensures
            crate::types::opt_text(r) == element_attr(self@, node, name@),
    {
        attr_of(&self.html, node, name)
    }

    /// The text node that directly follows `node`.
    pub fn text_after(&self, node: usize) -> (r: Option<String>)
        ensures
            crate::types::opt_text(r) == sibling_text(self@, node),
    {
        text_after(&self.html, node)
    }

    /// The text of the first element below `scope` that matches `css`.
    pub fn first_text_under(&self, scope: usize, css: &str) -> (r: Option<String>)
        ensures
            crate::types::opt_text(r) == first_text_under(self@, scope, css@),
    {
        match self.first_under(scope, css) {
            Some(node) => self.text(node),
            None => None,
        }
    }

    /// The attribute `name` of the first element below `scope` that
    /// matches `css`.
    pub fn first_attr_under(&self, scope: usize, css: &str, name: &str) -> (r: Option<String>)
        ensures
            crate::types::opt_text(r) == first_attr_under(self@, scope, css@, name@),
    {
        match self.first_under(scope, css) {
            Some(node) => self.attr(node, name),
            None => None,
        }
    }
}

} // verus!
