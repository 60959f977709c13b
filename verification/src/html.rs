//! Access to parsed HTML pages through the `scraper` crate.
//!
//! A page is parsed once and keeps its source text, which is its view.  An
//! element of the page is named by its position among the nodes of the
//! parsed tree, in the order in which the tree stores them.  What the
//! queries return is named: parsing HTML and matching CSS selectors take
//! pages to state, and depend on the page text and the query alone.

use vstd::prelude::*;

verus! {

#[verifier::external_type_specification]
#[verifier::external_body]
pub struct ExHtml(scraper::Html);

#[verifier::external_type_specification]
#[verifier::external_body]
pub struct ExSelector(scraper::Selector);

/// An HTML document parsed from its source text.
pub struct HtmlPage {
    source: String,
    doc: scraper::Html,
}

impl View for HtmlPage {
    type V = Seq<char>;

    /// The source text the page was parsed from.
    closed spec fn view(&self) -> Seq<char> {
        self.source@
    }
}

/// A CSS selector compiled from its text.
pub struct CssSelector {
    source: String,
    compiled: scraper::Selector,
}

impl View for CssSelector {
    type V = Seq<char>;

    /// The text the selector was compiled from.
    closed spec fn view(&self) -> Seq<char> {
        self.source@
    }
}

/// Whether `scraper::Selector::parse` accepts the text `s`.
pub uninterp spec fn css_selector_valid(s: Seq<char>) -> bool;

/// Positions of the elements of the document `page` that `Html::select`
/// yields for the selector `selector`, in the order it yields them.
pub uninterp spec fn html_select_all(page: Seq<char>, selector: Seq<char>) -> Seq<usize>;

/// Positions of the elements below the element at position `scope` that
/// `ElementRef::select` yields for the selector `selector`, in the order it
/// yields them.
pub uninterp spec fn html_select_within(page: Seq<char>, scope: usize, selector: Seq<char>) -> Seq<
    usize,
>;

/// The text of the element at position `element`: what `ElementRef::text`
/// yields, joined.
pub uninterp spec fn html_text(page: Seq<char>, element: usize) -> Seq<char>;

/// The value of the attribute `name` of the element at position `element`,
/// as `ElementRef::attr` gives it.
pub uninterp spec fn html_attr(page: Seq<char>, element: usize, name: Seq<char>) -> Option<Seq<char>>;

impl HtmlPage {
    /// Calls `scraper::Html::parse_document`, which never fails; the page
    /// keeps `source` as its view.
    #[verifier::external_body]
    pub(crate) fn parse(source: &str) -> (r: HtmlPage)
        ensures
            r@ == source@,
    {
        HtmlPage { source: source.to_string(), doc: scraper::Html::parse_document(source) }
    }

    /// Calls `scraper::Html::select` and gives the positions of the elements
    /// it yields; the result is named `html_select_all` of the page and the
    /// selector.
    #[verifier::external_body]
    pub(crate) fn select_all(&self, selector: &CssSelector) -> (r: Vec<usize>)
        ensures
            r@ == html_select_all(self@, selector@),
    {
        let nodes = || self.doc.tree.nodes();
        self.doc.select(&selector.compiled).map(
            |e| nodes().position(|n| n.id() == e.id()).unwrap_or(usize::MAX),
        ).collect()
    }

    /// Calls `scraper::ElementRef::select` on the element at position
    /// `scope` and gives the positions of the elements it yields (none where
    /// `scope` is not an element); the result is named `html_select_within`
    /// of the page, the scope and the selector.
    #[verifier::external_body]
    pub(crate) fn select_within(&self, scope: usize, selector: &CssSelector) -> (r: Vec<usize>)
        ensures
            r@ == html_select_within(self@, scope, selector@),
    {
        let nodes = || self.doc.tree.nodes();
        match nodes().nth(scope).and_then(scraper::ElementRef::wrap) {
            Some(e) => e.select(&selector.compiled).map(
                |x| nodes().position(|n| n.id() == x.id()).unwrap_or(usize::MAX),
            ).collect(),
            None => Vec::new(),
        }
    }

    /// Calls `scraper::ElementRef::text` on the element at position
    /// `element` and joins the pieces (empty where `element` is not an
    /// element); the result is named `html_text` of the page and the
    /// position.
    #[verifier::external_body]
    pub(crate) fn text(&self, element: usize) -> (r: String)
        ensures
            r@ == html_text(self@, element),
    {
        match self.doc.tree.nodes().nth(element).and_then(scraper::ElementRef::wrap) {
            Some(e) => e.text().collect::<String>(),
            None => String::new(),
        }
    }

    /// Calls `scraper::ElementRef::attr` on the element at position
    /// `element` (`None` where it is not an element); the result is named
    /// `html_attr` of the page, the position and the attribute name.
    #[verifier::external_body]
    pub(crate) fn attr(&self, element: usize, name: &str) -> (r: Option<String>)
        ensures
            match r {
                Some(s) => html_attr(self@, element, name@) == Some(s@),
                None => html_attr(self@, element, name@) is None,
            },
    {
        match self.doc.tree.nodes().nth(element).and_then(scraper::ElementRef::wrap) {
            Some(e) => e.attr(name).map(|a| a.to_string()),
            None => None,
        }
    }
}

impl CssSelector {
    /// Calls `scraper::Selector::parse`; `None` where it rejects `source`,
    /// as named by `css_selector_valid`.
    #[verifier::external_body]
    pub(crate) fn parse(source: &str) -> (r: Option<CssSelector>)
        ensures
            r is Some == css_selector_valid(source@),
            r matches Some(s) ==> s@ == source@,
    {
        match scraper::Selector::parse(source) {
            Ok(compiled) => Some(CssSelector { source: source.to_string(), compiled }),
            Err(_) => None,
        }
    }
}

} // verus!
