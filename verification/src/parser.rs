//! Parsers of the BOE auction pages and of the cadastre responses.
//!
//! Each parser reads an HTML (or XML) document through the queries of
//! `crate::html`; its result is stated over what those queries return.

use vstd::prelude::*;
use crate::concepts::{concept_for_key, BoeConcept, InvalidBoeConcept};
use crate::html::{
    css_selector_valid, html_attr, html_select_all, html_select_within, html_text, CssSelector,
    HtmlPage,
};
use crate::table::ConceptTable;
use crate::text::{
    after_last_space, after_last_space_exec, before_dash, before_dash_exec, chars_of, decimal,
    decimal_text, owned, parse_u32, parse_u32_spec, replace, replace_all, string_of, to_uppercase,
    trim, trimmed, uppercase, find, find_from_exec, lemma_find_from, string_of_range, white_from,
    white_from_exec,
};
use crate::types::{auction_state_of_word, AuctionState};

verus! {

/// Root of the BOE auction portal; the links of its pages are relative to
/// it.
pub const BASE_BOE_URL: &'static str = "https://subastas.boe.es/";

/// Why a page could not be parsed.
#[derive(Debug, PartialEq, Eq)]
pub enum ParseError {
    /// A CSS selector that the parser uses was rejected.
    InvalidSelector,
    /// An element that the page should hold is missing.
    MissingElement,
    /// An attribute that an element should carry is missing.
    MissingAttribute,
    /// A table row heading names no BOE concept.
    InvalidConcept(InvalidBoeConcept),
}

/// What a parse error stands for.
pub enum ParseFailure {
    /// A CSS selector was rejected.
    InvalidSelector,
    /// An element is missing.
    MissingElement,
    /// An attribute is missing.
    MissingAttribute,
    /// The heading text that names no concept.
    InvalidConcept(Seq<char>),
}

impl View for ParseError {
    type V = ParseFailure;

    open spec fn view(&self) -> ParseFailure {
        match self {
            ParseError::InvalidSelector => ParseFailure::InvalidSelector,
            ParseError::MissingElement => ParseFailure::MissingElement,
            ParseError::MissingAttribute => ParseFailure::MissingAttribute,
            ParseError::InvalidConcept(c) => ParseFailure::InvalidConcept(c@),
        }
    }
}

/// A parse result seen through the views of its values.
pub open spec fn table_result(r: Result<ConceptTable, ParseError>) -> Result<
    Map<BoeConcept, Seq<char>>,
    ParseFailure,
> {
    match r {
        Ok(t) => Ok(t@),
        Err(e) => Err(e@),
    }
}

/// The selector compiled from `text`, or `InvalidSelector`.
fn selector(text: &str) -> (r: Result<CssSelector, ParseError>)
    ensures
        r is Ok == css_selector_valid(text@),
        r matches Ok(s) ==> s@ == text@,
        r matches Err(e) ==> e == ParseError::InvalidSelector,
{
    match CssSelector::parse(text) {
        Some(s) => Ok(s),
        None => Err(ParseError::InvalidSelector),
    }
}

// ---------------------------------------------------------------------------
// Tables
// ---------------------------------------------------------------------------

/// Adds to `acc` the concept and text of each row of `rows`, in order: the
/// row's first `th` names the concept (trimmed, compared in upper case) and
/// its first `td` gives the text (trimmed).
pub open spec fn table_rows(page: Seq<char>, rows: Seq<usize>, acc: Map<BoeConcept, Seq<char>>) -> Result<
    Map<BoeConcept, Seq<char>>,
    ParseFailure,
>
    decreases rows.len(),
{
    if rows.len() == 0 {
        Ok(acc)
    } else {
        let ths = html_select_within(page, rows[0], "th"@);
        let tds = html_select_within(page, rows[0], "td"@);
        if ths.len() == 0 || tds.len() == 0 {
            Err(ParseFailure::MissingElement)
        } else {
            let heading = trim(html_text(page, ths[0]));
            match concept_for_key(uppercase(heading)) {
                None => Err(ParseFailure::InvalidConcept(heading)),
                Some(c) => table_rows(
                    page,
                    rows.drop_first(),
                    acc.insert(c, trim(html_text(page, tds[0]))),
                ),
            }
        }
    }
}

/// The table in the first element of `page` that `container` selects: for
/// each `tr` in it, see `table_rows`.
pub open spec fn html_table(page: Seq<char>, container: Seq<char>) -> Result<
    Map<BoeConcept, Seq<char>>,
    ParseFailure,
> {
    if !css_selector_valid(container) {
        Err(ParseFailure::InvalidSelector)
    } else if html_select_all(page, container).len() == 0 {
        Err(ParseFailure::MissingElement)
    } else if !(css_selector_valid("tr"@) && css_selector_valid("th"@) && css_selector_valid(
        "td"@,
    )) {
        Err(ParseFailure::InvalidSelector)
    } else {
        table_rows(
            page,
            html_select_within(page, html_select_all(page, container)[0], "tr"@),
            Map::empty(),
        )
    }
}

/// Reads the table in the first element that `container` selects.
pub fn parse_html_table(page: &HtmlPage, container: &str) -> (r: Result<ConceptTable, ParseError>)
    ensures
        table_result(r) == html_table(page@, container@),
{
    let data_selector = selector(container)?;
    let containers = page.select_all(&data_selector);
    if containers.len() == 0 {
        return Err(ParseError::MissingElement);
    }
    let data = containers[0];
    let tr_selector = selector("tr")?;
    let th_selector = selector("th")?;
    let td_selector = selector("td")?;
    let rows = page.select_within(data, &tr_selector);
    let mut result = ConceptTable::new();
    let mut i: usize = 0;
    assert(rows@.skip(0) =~= rows@);
    while i < rows.len()
        invariant
            i <= rows@.len(),
            rows@ == html_select_within(page@, data, "tr"@),
            th_selector@ == "th"@,
            td_selector@ == "td"@,
            html_table(page@, container@) == table_rows(page@, rows@.skip(i as int), result@),
        decreases rows@.len() - i,
    {
        let row = rows[i];
        let ghost rest = rows@.skip(i as int);
        assert(rest[0] == row);
        assert(rest.drop_first() =~= rows@.skip(i + 1));
        let ths = page.select_within(row, &th_selector);
        let tds = page.select_within(row, &td_selector);
        if ths.len() == 0 || tds.len() == 0 {
            return Err(ParseError::MissingElement);
        }
        let th_text = page.text(ths[0]);
        let heading = trimmed(th_text.as_str());
        let concept = match BoeConcept::from_name(heading.as_str()) {
            Ok(c) => c,
            Err(e) => {
                return Err(ParseError::InvalidConcept(e));
            },
        };
        let td_text = page.text(tds[0]);
        result.insert(concept, trimmed(td_text.as_str()));
        i = i + 1;
    }
    assert(rows@.skip(i as int) =~= Seq::<usize>::empty());
    Ok(result)
}

/// It parses a `page` containing the auction management information and
/// returns the different boe concepts and values in a table.
pub fn parse_management_auction_page(page: &str) -> (r: Result<ConceptTable, ParseError>)
    ensures
        table_result(r) == html_table(page@, "div[id=idBloqueDatos2]"@),
{
    let doc = HtmlPage::parse(page);
    parse_html_table(&doc, "div[id=idBloqueDatos2]")
}

/// It parses a `page` containing the main auction information and
/// returns the different boe concepts and values in a table.
pub fn parse_main_auction_page(page: &str) -> (r: Result<ConceptTable, ParseError>)
    ensures
        table_result(r) == html_table(page@, "div[id=idBloqueDatos1]"@),
{
    let doc = HtmlPage::parse(page);
    parse_html_table(&doc, "div[id=idBloqueDatos1]")
}

/// The table of an asset block: the table in the first element that
/// `container` selects, with the header of the block, its first `h4` in
/// upper case, under `Header`.
pub open spec fn asset_table(page: Seq<char>, container: Seq<char>) -> Result<
    Map<BoeConcept, Seq<char>>,
    ParseFailure,
> {
    if !css_selector_valid("h4"@) || !css_selector_valid(container) {
        Err(ParseFailure::InvalidSelector)
    } else {
        match html_table(page, container) {
            Err(e) => Err(e),
            Ok(m) => {
                let headers = html_select_within(
                    page,
                    html_select_all(page, container)[0],
                    "h4"@,
                );
                if headers.len() == 0 {
                    Err(ParseFailure::MissingElement)
                } else {
                    Ok(m.insert(BoeConcept::Header, uppercase(trim(html_text(page, headers[0])))))
                }
            },
        }
    }
}

/// Reads an asset block, see `asset_table`.
fn parse_asset_block(page: &HtmlPage, container: &str) -> (r: Result<ConceptTable, ParseError>)
    ensures
        table_result(r) == asset_table(page@, container@),
{
    let h4_selector = selector("h4")?;
    let data_selector = selector(container)?;
    let mut result = parse_html_table(page, container)?;
    let containers = page.select_all(&data_selector);
    if containers.len() == 0 {
        return Err(ParseError::MissingElement);
    }
    let headers = page.select_within(containers[0], &h4_selector);
    if headers.len() == 0 {
        return Err(ParseError::MissingElement);
    }
    let text = page.text(headers[0]);
    let header = trimmed(text.as_str());
    result.insert(BoeConcept::Header, to_uppercase(header.as_str()));
    Ok(result)
}

/// It parses a `page` containing the auction assets information and
/// returns the different boe concepts and values in a table.
pub fn parse_asset_auction_page(page: &str) -> (r: Result<ConceptTable, ParseError>)
    ensures
        table_result(r) == asset_table(page@, "div[id^=idBloqueLote]"@),
{
    let doc = HtmlPage::parse(page);
    parse_asset_block(&doc, "div[id^=idBloqueLote]")
}

/// The selector of the block of lot `lot_id`.
pub open spec fn lot_selector(lot_id: Seq<char>) -> Seq<char> {
    "div[id=idBloqueLote"@ + lot_id + "]"@
}

/// The selector of the block of lot `lot_id`, see `lot_selector`.
fn lot_selector_text(lot_id: &str) -> (r: String)
    ensures
        r@ == lot_selector(lot_id@),
{
    let mut div = owned("div[id=idBloqueLote");
    div.append(lot_id);
    div.append("]");
    div
}

/// It parses lot `lot_id` in lot auction `page` returning the concepts or
/// error.
///
/// # Panics
///
/// The `h4` selector and the selector of the lot's block must be valid: a
/// lot id that breaks the block selector (such as one holding `]`) is not
/// accepted.
pub fn parse_lot_auction_page(page: &str, lot_id: &str) -> (r: Result<ConceptTable, ParseError>)
    requires
        css_selector_valid("h4"@),
        css_selector_valid(lot_selector(lot_id@)),
    ensures
        table_result(r) == asset_table(page@, lot_selector(lot_id@)),
{
    let div = lot_selector_text(lot_id);
    let doc = HtmlPage::parse(page);
    parse_asset_block(&doc, div.as_str())
}

/// Lot `lot_id` of lot auction `page` as `parse_lot_auction_page` reads it,
/// or `None` where the `h4` selector or the selector of the lot's block is
/// not valid, on which `parse_lot_auction_page` is not called.
pub fn try_parse_lot_auction_page(page: &str, lot_id: &str) -> (r: Option<
    Result<ConceptTable, ParseError>,
>)
    ensures
        r is Some == (css_selector_valid("h4"@) && css_selector_valid(lot_selector(lot_id@))),
        r matches Some(t) ==> table_result(t) == asset_table(page@, lot_selector(lot_id@)),
{
    let div = lot_selector_text(lot_id);
    if CssSelector::parse("h4").is_none() || CssSelector::parse(div.as_str()).is_none() {
        return None;
    }
    Some(parse_lot_auction_page(page, lot_id))
}

// ---------------------------------------------------------------------------
// Links
// ---------------------------------------------------------------------------

/// The strings of a vector, seen through their views.
pub open spec fn texts(v: Seq<String>) -> Seq<Seq<char>> {
    v.map_values(|s: String| s@)
}

/// The absolute links of the `href` attributes of `anchors`, in order,
/// skipping anchors without one.
pub open spec fn anchor_links(page: Seq<char>, anchors: Seq<usize>) -> Seq<Seq<char>>
    decreases anchors.len(),
{
    if anchors.len() == 0 {
        Seq::empty()
    } else {
        let rest = anchor_links(page, anchors.drop_last());
        match html_attr(page, anchors.last(), "href"@) {
            Some(h) => rest.push(BASE_BOE_URL@ + h),
            None => rest,
        }
    }
}

/// The links of the lots of a lot auction page: those of the anchors in its
/// first `ul.navlistver`.
pub open spec fn lot_links(page: Seq<char>) -> Result<Seq<Seq<char>>, ParseFailure> {
    if !css_selector_valid("ul.navlistver"@) || !css_selector_valid("a"@) {
        Err(ParseFailure::InvalidSelector)
    } else if html_select_all(page, "ul.navlistver"@).len() == 0 {
        Err(ParseFailure::MissingElement)
    } else {
        Ok(
            anchor_links(
                page,
                html_select_within(page, html_select_all(page, "ul.navlistver"@)[0], "a"@),
            ),
        )
    }
}

/// `BASE_BOE_URL` followed by `href`.
fn absolute_link(href: &str) -> (r: String)
    ensures
        r@ == BASE_BOE_URL@ + href@,
{
    let mut link = owned(BASE_BOE_URL);
    link.append(href);
    link
}

/// It parses lot auction `page` and return the links for each lot or error.
pub fn parse_lot_auction_page_links(page: &str) -> (r: Result<Vec<String>, ParseError>)
    ensures
        match r {
            Ok(v) => lot_links(page@) == Ok::<Seq<Seq<char>>, ParseFailure>(texts(v@)),
            Err(e) => lot_links(page@) == Err::<Seq<Seq<char>>, ParseFailure>(e@),
        },
{
    let mut result: Vec<String> = Vec::new();
    let doc = HtmlPage::parse(page);
    let ul_selector = selector("ul.navlistver")?;
    let a_selector = selector("a")?;
    let uls = doc.select_all(&ul_selector);
    if uls.len() == 0 {
        return Err(ParseError::MissingElement);
    }
    let anchors = doc.select_within(uls[0], &a_selector);
    let mut i: usize = 0;
    while i < anchors.len()
        invariant
            i <= anchors@.len(),
            doc@ == page@,
            texts(result@) == anchor_links(page@, anchors@.take(i as int)),
        decreases anchors@.len() - i,
    {
        assert(anchors@.take(i + 1).drop_last() =~= anchors@.take(i as int));
        if let Some(href) = doc.attr(anchors[i], "href") {
            result.push(absolute_link(href.as_str()));
        }
        i = i + 1;
        assert(texts(result@) =~= anchor_links(page@, anchors@.take(i as int)));
    }
    assert(anchors@.take(i as int) =~= anchors@);
    Ok(result)
}

/// The links of the management and assets pages of a main auction page:
/// the `href` of the second and third anchors of its first `ul.navlist`.
pub open spec fn main_auction_links(page: Seq<char>) -> Result<(Seq<char>, Seq<char>), ParseFailure> {
    if !css_selector_valid("ul.navlist"@) {
        Err(ParseFailure::InvalidSelector)
    } else if html_select_all(page, "ul.navlist"@).len() == 0 {
        Err(ParseFailure::MissingElement)
    } else if !css_selector_valid("a"@) {
        Err(ParseFailure::InvalidSelector)
    } else {
        let anchors = html_select_within(page, html_select_all(page, "ul.navlist"@)[0], "a"@);
        if anchors.len() < 2 {
            Err(ParseFailure::MissingElement)
        } else {
            match html_attr(page, anchors[1], "href"@) {
                None => Err(ParseFailure::MissingAttribute),
                Some(management) => if anchors.len() < 3 {
                    Err(ParseFailure::MissingElement)
                } else {
                    match html_attr(page, anchors[2], "href"@) {
                        None => Err(ParseFailure::MissingAttribute),
                        Some(assets) => Ok(
                            (BASE_BOE_URL@ + management, BASE_BOE_URL@ + assets),
                        ),
                    }
                },
            }
        }
    }
}

/// It parses main auction `page` returning the links for auction and
/// management or error.
pub fn parse_main_auction_links(page: &str) -> (r: Result<(String, String), ParseError>)
    ensures
        match r {
            Ok((m, a)) => main_auction_links(page@) == Ok::<(Seq<char>, Seq<char>), ParseFailure>(
                (m@, a@),
            ),
            Err(e) => main_auction_links(page@) == Err::<(Seq<char>, Seq<char>), ParseFailure>(
                e@,
            ),
        },
{
    let doc = HtmlPage::parse(page);
    let links_selector = selector("ul.navlist")?;
    let lists = doc.select_all(&links_selector);
    if lists.len() == 0 {
        return Err(ParseError::MissingElement);
    }
    let link_selector = selector("a")?;
    let anchors = doc.select_within(lists[0], &link_selector);
    if anchors.len() < 2 {
        return Err(ParseError::MissingElement);
    }
    let management_link = match doc.attr(anchors[1], "href") {
        Some(h) => h,
        None => {
            return Err(ParseError::MissingAttribute);
        },
    };
    if anchors.len() < 3 {
        return Err(ParseError::MissingElement);
    }
    let asset_link = match doc.attr(anchors[2], "href") {
        Some(h) => h,
        None => {
            return Err(ParseError::MissingAttribute);
        },
    };
    Ok((absolute_link(management_link.as_str()), absolute_link(asset_link.as_str())))
}

// ---------------------------------------------------------------------------
// Result pages
// ---------------------------------------------------------------------------

/// Number of auctions that a result page lists.
pub const RESULTS_PER_PAGE: u32 = 500;

/// The number of results that the first `div.paginar` of a main page
/// announces: its text, trimmed, after the last space, without `.`, read as
/// a `u32`; `None` where there is no such element or it does not read.
pub open spec fn paginar_results(page: Seq<char>) -> Option<u32> {
    if !css_selector_valid("div.paginar"@) {
        None
    } else if html_select_all(page, "div.paginar"@).len() == 0 {
        None
    } else {
        parse_u32_spec(
            replace_all(
                after_last_space(trim(html_text(page, html_select_all(page, "div.paginar"@)[0]))),
                "."@,
                ""@,
            ),
        )
    }
}

/// The `href` of the first anchor of the first `div.paginar2`: `Some(None)`
/// where there is no such element, attribute or anchor, `None` where a
/// selector is rejected.
pub open spec fn paginar_href(page: Seq<char>) -> Option<Option<Seq<char>>> {
    if !css_selector_valid("div.paginar2"@) {
        None
    } else if html_select_all(page, "div.paginar2"@).len() == 0 {
        Some(None)
    } else if !css_selector_valid("a"@) {
        None
    } else {
        let anchors = html_select_within(page, html_select_all(page, "div.paginar2"@)[0], "a"@);
        if anchors.len() == 0 {
            Some(None)
        } else {
            Some(html_attr(page, anchors[0], "href"@))
        }
    }
}

/// Number of result pages for `results` auctions.
pub open spec fn page_count(results: u32) -> nat {
    (results / RESULTS_PER_PAGE + 1) as nat
}

/// Whether the number of result pages of a main page can be read, and the
/// numbers of its links fit in a `u32`.
pub open spec fn extra_pages_readable(page: Seq<char>) -> bool {
    &&& paginar_results(page) is Some
    &&& paginar_href(page) is Some
    &&& paginar_href(page)->0 is Some ==> page_count(paginar_results(page)->0) * RESULTS_PER_PAGE
        <= u32::MAX
}

/// The links of result pages `1` to `n`: `template`, a `-`, the number of
/// the first result of the page, a `-` and the number of results per page.
pub open spec fn page_links(template: Seq<char>, n: nat) -> Seq<Seq<char>> {
    Seq::new(
        n,
        |i: int|
            BASE_BOE_URL@ + template + "-"@ + decimal(((i + 1) * RESULTS_PER_PAGE) as nat) + "-"@
                + decimal(RESULTS_PER_PAGE as nat),
    )
}

/// The links of the result pages after the first of a main page: from the
/// template (the part before the first `-`) of the `href` of the first
/// anchor of `div.paginar2`, one link per page of results, the last one
/// dropped.
pub open spec fn extra_pages(page: Seq<char>) -> Seq<Seq<char>> {
    let all = match paginar_href(page)->0 {
        Some(h) => page_links(before_dash(h), page_count(paginar_results(page)->0)),
        None => Seq::empty(),
    };
    if all.len() == 0 {
        all
    } else {
        all.drop_last()
    }
}

/// One link per result page after the first: with a page link template,
/// `parse_extra_pages` gives `page_count - 1` links, the `k`-th of which
/// asks for the results from `(k + 1) * RESULTS_PER_PAGE` on; without one it
/// gives none.
pub proof fn lemma_extra_pages_count(page: Seq<char>)
    requires
        extra_pages_readable(page),
    ensures
        paginar_href(page)->0 is None ==> extra_pages(page).len() == 0,
        paginar_href(page)->0 matches Some(h) ==> extra_pages(page).len() == page_count(
            paginar_results(page)->0,
        ) - 1 && forall|k: int|
            0 <= k < extra_pages(page).len() ==> #[trigger] extra_pages(page)[k] == BASE_BOE_URL@
                + before_dash(h) + "-"@ + decimal(((k + 1) * RESULTS_PER_PAGE) as nat) + "-"@
                + decimal(RESULTS_PER_PAGE as nat),
{
}

/// The number of results that `div.paginar` announces.
fn read_paginar_results(doc: &HtmlPage) -> (r: Option<u32>)
    ensures
        r == paginar_results(doc@),
{
    let sel = match CssSelector::parse("div.paginar") {
        Some(s) => s,
        None => {
            return None;
        },
    };
    let paragraphs = doc.select_all(&sel);
    if paragraphs.len() == 0 {
        return None;
    }
    let text = doc.text(paragraphs[0]);
    let t = trimmed(text.as_str());
    let tv = chars_of(t.as_str());
    let last = after_last_space_exec(&tv);
    let word = string_of(&last);
    proof {
        reveal_strlit(".");
    }
    let digits = replace(word.as_str(), ".", "");
    parse_u32(digits.as_str())
}

/// The `href` of the first anchor of `div.paginar2`, see `paginar_href`.
fn read_paginar_href(doc: &HtmlPage) -> (r: Option<Option<String>>)
    ensures
        match r {
            None => paginar_href(doc@) is None,
            Some(None) => paginar_href(doc@) == Some(None::<Seq<char>>),
            Some(Some(h)) => paginar_href(doc@) == Some(Some(h@)),
        },
{
    let div_sel = match CssSelector::parse("div.paginar2") {
        Some(s) => s,
        None => {
            return None;
        },
    };
    let divs = doc.select_all(&div_sel);
    if divs.len() == 0 {
        return Some(None);
    }
    let a_sel = match CssSelector::parse("a") {
        Some(s) => s,
        None => {
            return None;
        },
    };
    let anchors = doc.select_within(divs[0], &a_sel);
    if anchors.len() == 0 {
        return Some(None);
    }
    Some(doc.attr(anchors[0], "href"))
}

/// It parses `main_page` to determine the total number of auctions pages,
/// it returns their links.
pub fn parse_extra_pages(main_page: &str) -> (r: Vec<String>)
    requires
        extra_pages_readable(main_page@),
    ensures
        texts(r@) == extra_pages(main_page@),
{
    let doc = HtmlPage::parse(main_page);
    let mut result: Vec<String> = Vec::new();
    let results = match read_paginar_results(&doc) {
        Some(n) => n,
        None => 0,
    };
    let pages = results / RESULTS_PER_PAGE + 1;
    let href = match read_paginar_href(&doc) {
        Some(h) => h,
        None => None,
    };
    let ghost all: Seq<Seq<char>> = Seq::empty();
    if let Some(href_tmp) = href {
        let hv = chars_of(href_tmp.as_str());
        let href_template = before_dash_exec(&hv);
        let per_page = decimal_text(RESULTS_PER_PAGE);
        let mut page: u32 = 1;
        while page <= pages
            invariant
                1 <= page <= pages + 1,
                pages == page_count(results),
                pages * RESULTS_PER_PAGE <= u32::MAX,
                per_page@ == decimal(RESULTS_PER_PAGE as nat),
                texts(result@) =~= page_links(href_template@, (page - 1) as nat),
            decreases pages + 1 - page,
        {
            let mut link = owned(BASE_BOE_URL);
            link.append(href_template.as_str());
            link.append("-");
            assert(page * RESULTS_PER_PAGE <= pages * RESULTS_PER_PAGE) by (nonlinear_arith)
                requires
                    page <= pages,
            ;
            let first = decimal_text(page * RESULTS_PER_PAGE);
            link.append(first.as_str());
            link.append("-");
            link.append(per_page.as_str());
            let ghost expected = BASE_BOE_URL@ + href_template@ + "-"@ + decimal(
                (page * RESULTS_PER_PAGE) as nat,
            ) + "-"@ + decimal(RESULTS_PER_PAGE as nat);
            assert(link@ =~= expected);
            let ghost before = result@;
            result.push(link);
            assert(texts(result@) =~= texts(before).push(expected));
            assert(page_links(href_template@, page as nat) =~= page_links(
                href_template@,
                (page - 1) as nat,
            ).push(expected));
            page = page + 1;
        }
        proof {
            all = page_links(href_template@, pages as nat);
        }
    }
    assert(texts(result@) =~= all);
    result.pop();
    assert(texts(result@) =~= extra_pages(main_page@));
    result
}

/// The links of the result pages after the first, or `None` where
/// `parse_extra_pages` would not read the page (see
/// `extra_pages_readable`).
pub fn try_parse_extra_pages(main_page: &str) -> (r: Option<Vec<String>>)
    ensures
        r is Some == extra_pages_readable(main_page@),
        r matches Some(v) ==> texts(v@) == extra_pages(main_page@),
{
    let doc = HtmlPage::parse(main_page);
    let results = match read_paginar_results(&doc) {
        Some(n) => n,
        None => {
            return None;
        },
    };
    match read_paginar_href(&doc) {
        None => None,
        Some(None) => Some(parse_extra_pages(main_page)),
        Some(Some(_)) => {
            if results / RESULTS_PER_PAGE + 1 > 0xffff_ffff / RESULTS_PER_PAGE {
                None
            } else {
                Some(parse_extra_pages(main_page))
            }
        },
    }
}

/// The text that precedes the state of an auction in a result entry.
pub const AUCTION_STATE_STR: &'static str = "Estado: ";

/// The state that the text of a result entry gives: the word that follows
/// `Estado: ` up to the next whitespace; `Unknown` without `Estado: `, and
/// `None` where no whitespace follows or the word names no state.
pub open spec fn entry_state(text: Seq<char>) -> Option<AuctionState> {
    match find(text, AUCTION_STATE_STR@) {
        None => Some(AuctionState::Unknown),
        Some(i) => {
            let begin = i + AUCTION_STATE_STR@.len();
            match white_from(text, begin) {
                None => None,
                Some(end) => auction_state_of_word(text.subrange(begin, end)),
            }
        },
    }
}

/// The link and state of the result entry at position `li`: the absolute
/// link of the `href` of its first `a.resultado-busqueda-link-otro`, and the
/// state its text gives; `None` where an anchor, the link or the state is
/// missing.
pub open spec fn result_entry(page: Seq<char>, li: usize) -> Option<(Seq<char>, AuctionState)> {
    let anchors = html_select_within(page, li, "a.resultado-busqueda-link-otro"@);
    if anchors.len() == 0 {
        None
    } else {
        match html_attr(page, anchors[0], "href"@) {
            None => None,
            Some(h) => match entry_state(html_text(page, li)) {
                None => None,
                Some(state) => Some((BASE_BOE_URL@ + h, state)),
            },
        }
    }
}

/// The positions of the result entries of a page.
pub open spec fn result_items(page: Seq<char>) -> Seq<usize> {
    html_select_all(page, "li.resultado-busqueda"@)
}

/// Whether every result entry of a page has a link and a state.
pub open spec fn result_page_readable(page: Seq<char>) -> bool {
    &&& css_selector_valid("li.resultado-busqueda"@)
    &&& css_selector_valid("a.resultado-busqueda-link-otro"@)
    &&& forall|i: int|
        0 <= i < result_items(page).len() ==> (#[trigger] result_entry(
            page,
            result_items(page)[i],
        )) is Some
}

/// The link and state of each result entry of a page, in order.
pub open spec fn result_page(page: Seq<char>) -> Seq<(Seq<char>, AuctionState)> {
    result_items(page).map_values(|li: usize| result_entry(page, li)->0)
}

/// Result entries seen through the views of their links.
pub open spec fn entries(v: Seq<(String, AuctionState)>) -> Seq<(Seq<char>, AuctionState)> {
    v.map_values(|e: (String, AuctionState)| (e.0@, e.1))
}

/// The state of a result entry's text, see `entry_state`.
fn read_entry_state(text: &str) -> (r: Option<AuctionState>)
    ensures
        r == entry_state(text@),
{
    let v = chars_of(text);
    let n = v.len();
    let marker = chars_of(AUCTION_STATE_STR);
    proof {
        lemma_find_from(v@, marker@, 0);
    }
    match find_from_exec(&v, &marker, 0) {
        None => Some(AuctionState::Unknown),
        Some(index) => {
            let begin = index + marker.len();
            match white_from_exec(&v, begin) {
                None => None,
                Some(end) => {
                    let word = string_of_range(&v, begin, end);
                    AuctionState::from_word(word.as_str())
                },
            }
        },
    }
}

/// The link and state of the entry at `li`, see `result_entry`.
fn read_result_entry(doc: &HtmlPage, li: usize, anchor_selector: &CssSelector) -> (r: Option<
    (String, AuctionState),
>)
    requires
        anchor_selector@ == "a.resultado-busqueda-link-otro"@,
    ensures
        match r {
            Some(e) => result_entry(doc@, li) == Some((e.0@, e.1)),
            None => result_entry(doc@, li) is None,
        },
{
    let anchors = doc.select_within(li, anchor_selector);
    if anchors.len() == 0 {
        return None;
    }
    let href = doc.attr(anchors[0], "href")?;
    let text = doc.text(li);
    let state = read_entry_state(text.as_str())?;
    Some((absolute_link(href.as_str()), state))
}

/// The entries of a result page, or `None` where one of them lacks a link
/// or a state.
fn read_result_entries(doc: &HtmlPage) -> (r: Option<Vec<(String, AuctionState)>>)
    ensures
        r is Some == result_page_readable(doc@),
        r matches Some(v) ==> entries(v@) == result_page(doc@),
{
    let li_selector = CssSelector::parse("li.resultado-busqueda")?;
    let anchor_selector = CssSelector::parse("a.resultado-busqueda-link-otro")?;
    let items = doc.select_all(&li_selector);
    let mut result: Vec<(String, AuctionState)> = Vec::new();
    let mut i: usize = 0;
    while i < items.len()
        invariant
            i <= items@.len(),
            items@ == result_items(doc@),
            anchor_selector@ == "a.resultado-busqueda-link-otro"@,
            result@.len() == i,
            forall|j: int| 0 <= j < i ==> (#[trigger] result_entry(doc@, items@[j])) is Some,
            entries(result@) =~= result_page(doc@).take(i as int),
        decreases items@.len() - i,
    {
        match read_result_entry(doc, items[i], &anchor_selector) {
            Some(e) => {
                let ghost before = result@;
                result.push(e);
                assert(entries(result@) =~= entries(before).push((e.0@, e.1)));
                assert(result_page(doc@).take(i + 1) =~= result_page(doc@).take(i as int).push(
                    result_entry(doc@, items@[i as int])->0,
                ));
            },
            None => {
                return None;
            },
        }
        i = i + 1;
    }
    assert(result_page(doc@).take(i as int) =~= result_page(doc@));
    Some(result)
}

/// It parses auction result `page` to return a Vec with tuples with auctions
/// links and state.
pub fn parse_result_page(page: &str) -> (r: Vec<(String, AuctionState)>)
    requires
        result_page_readable(page@),
    ensures
        entries(r@) == result_page(page@),
{
    let doc = HtmlPage::parse(page);
    match read_result_entries(&doc) {
        Some(v) => v,
        None => Vec::new(),
    }
}

/// The entries of a result page, or `None` where `parse_result_page` would
/// not read it (see `result_page_readable`).
pub fn try_parse_result_page(page: &str) -> (r: Option<Vec<(String, AuctionState)>>)
    ensures
        r is Some == result_page_readable(page@),
        r matches Some(v) ==> entries(v@) == result_page(page@),
{
    let doc = HtmlPage::parse(page);
    if read_result_entries(&doc).is_some() {
        Some(parse_result_page(page))
    } else {
        None
    }
}

// ---------------------------------------------------------------------------
// Cadastre
// ---------------------------------------------------------------------------

/// The text of the first element that `name` selects; `InvalidSelector` or
/// `MissingElement` where there is none.
pub open spec fn first_text(page: Seq<char>, name: Seq<char>) -> Result<Seq<char>, ParseFailure> {
    if !css_selector_valid(name) {
        Err(ParseFailure::InvalidSelector)
    } else if html_select_all(page, name).len() == 0 {
        Err(ParseFailure::MissingElement)
    } else {
        Ok(html_text(page, html_select_all(page, name)[0]))
    }
}

/// The text of the first element that `name` selects.
fn read_first_text(doc: &HtmlPage, name: &str) -> (r: Result<String, ParseError>)
    ensures
        match r {
            Ok(t) => first_text(doc@, name@) == Ok::<Seq<char>, ParseFailure>(t@),
            Err(e) => first_text(doc@, name@) == Err::<Seq<char>, ParseFailure>(e@),
        },
{
    let sel = selector(name)?;
    let found = doc.select_all(&sel);
    if found.len() == 0 {
        return Err(ParseError::MissingElement);
    }
    Ok(doc.text(found[0]))
}

/// What a cadastre coordinates response gives: the texts of its first
/// `xcen` and `ycen` elements, or the error of the first one missing.
pub open spec fn coordinate_texts(body: Seq<char>) -> Result<(Seq<char>, Seq<char>), ParseFailure> {
    match first_text(body, "xcen"@) {
        Err(e) => Err(e),
        Ok(x) => match first_text(body, "ycen"@) {
            Err(e) => Err(e),
            Ok(y) => Ok((x, y)),
        },
    }
}

/// The texts of the coordinates of a cadastre coordinates response (its
/// `xcen` and `ycen` elements), which are read as numbers outside this
/// library.
pub fn parse_coordinate_texts_from_catastro_cpmrc_response(body: &str) -> (r: Result<
    (String, String),
    ParseError,
>)
    ensures
        match r {
            Ok((x, y)) => coordinate_texts(body@) == Ok::<(Seq<char>, Seq<char>), ParseFailure>(
                (x@, y@),
            ),
            Err(e) => coordinate_texts(body@) == Err::<(Seq<char>, Seq<char>), ParseFailure>(e@),
        },
{
    let doc = HtmlPage::parse(body);
    let x = read_first_text(&doc, "xcen")?;
    let y = read_first_text(&doc, "ycen")?;
    Ok((x, y))
}

/// The link to the cadastre page of the property with reference
/// `reference`, from the texts of its `cn`, `cp` and `cmc` elements.
pub open spec fn cadastre_link(urbrus: Seq<char>, reference: Seq<char>, cp: Seq<char>, cmc: Seq<char>) -> Seq<char> {
    "https://www1.sedecatastro.gob.es/CYCBienInmueble/OVCConCiud.aspx?UrbRus="@ + urbrus
        + "&RefC="@ + reference
        + "&esBice=&RCBice1=&RCBice2=&DenoBice=&from=OVCBusqueda&pest=rc&RCCompleta="@ + reference
        + "&final=&del="@ + cp + "&mun="@ + cmc
}

/// What a cadastre data response gives: the link built from the first
/// `cn`, `cp` and `cmc` elements, or the error of the first one missing.
pub open spec fn cadastre_response(body: Seq<char>, reference: Seq<char>) -> Result<Seq<char>, ParseFailure> {
    match first_text(body, "cn"@) {
        Err(e) => Err(e),
        Ok(urbrus) => match first_text(body, "cp"@) {
            Err(e) => Err(e),
            Ok(cp) => match first_text(body, "cmc"@) {
                Err(e) => Err(e),
                Ok(cmc) => Ok(cadastre_link(urbrus, reference, cp, cmc)),
            },
        },
    }
}

/// Parse `body` information to return catastro data.
pub fn parse_data_from_catastro_dnprc_response(body: &str, catastro_reference: &str) -> (r: Result<
    Option<String>,
    ParseError,
>)
    ensures
        match r {
            Ok(Some(link)) => cadastre_response(body@, catastro_reference@) == Ok::<
                Seq<char>,
                ParseFailure,
            >(link@),
            Ok(None) => false,
            Err(e) => cadastre_response(body@, catastro_reference@) == Err::<
                Seq<char>,
                ParseFailure,
            >(e@),
        },
{
    let doc = HtmlPage::parse(body);
    let urbrus = read_first_text(&doc, "cn")?;
    let cp = read_first_text(&doc, "cp")?;
    let cmc = read_first_text(&doc, "cmc")?;
    let mut link = owned("https://www1.sedecatastro.gob.es/CYCBienInmueble/OVCConCiud.aspx?UrbRus=");
    link.append(urbrus.as_str());
    link.append("&RefC=");
    link.append(catastro_reference);
    link.append("&esBice=&RCBice1=&RCBice2=&DenoBice=&from=OVCBusqueda&pest=rc&RCCompleta=");
    link.append(catastro_reference);
    link.append("&final=&del=");
    link.append(cp.as_str());
    link.append("&mun=");
    link.append(cmc.as_str());
    assert(link@ =~= cadastre_link(urbrus@, catastro_reference@, cp@, cmc@));
    Ok(Some(link))
}

} // verus!
