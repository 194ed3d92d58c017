//! HTML-page collaborators, and the link lookup on the bulk listing page.
//!
//! The bulk metadata page links to a CSV export through one anchor that a
//! configured selector identifies; each per-station page carries anchors
//! whose link targets may hold the station's site code. The library reads
//! pages only through one query: the elements matching a selector, in
//! document order, each mapped to its link-target attribute.

use vstd::prelude::*;
use crate::error::PipelineError;

verus! {

/// Whether a selector text parses as an element selector.
pub uninterp spec fn selector_ok(sel: Seq<char>) -> bool;

/// The elements of an HTML document matching a selector, in document
/// order, each mapped to its `href` attribute (`None` for an element
/// without one).
pub uninterp spec fn hrefs_of(html: Seq<char>, sel: Seq<char>) -> Seq<Option<Seq<char>>>;

/// Relies on scraper::Selector::parse: it returns Ok exactly when the
/// selector text parses.
#[verifier::external_body]
pub(crate) fn selector_compiles(sel: &String) -> (r: bool)
    ensures
        r == selector_ok(sel@),
{
    scraper::Selector::parse(sel.as_str()).is_ok()
}

/// Relies on scraper::Html::parse_document, Html::select and
/// ElementRef::attr: the elements matching the selector, in document
/// order, each mapped to its `href` attribute. The parse step cannot fail
/// here because the selector is known to be valid, and parsing an HTML
/// document never fails.
#[verifier::external_body]
pub(crate) fn select_hrefs(html: &String, sel: &String) -> (r: Vec<Option<String>>)
    requires
        selector_ok(sel@),
    ensures
        r.deep_view() == hrefs_of(html@, sel@),
{
    let document = scraper::Html::parse_document(html.as_str());
    let selector = scraper::Selector::parse(sel.as_str()).unwrap();
    document.select(&selector).map(|el| el.value().attr("href").map(|a| a.to_string())).collect()
}

/// The link target of the first element a selector matches, if that
/// element exists and has one.
pub open spec fn first_href(hrefs: Seq<Option<Seq<char>>>) -> Option<Seq<char>> {
    if hrefs.len() == 0 {
        None
    } else {
        hrefs[0]
    }
}

/// Finds the CSV download link on the bulk listing page: the link target
/// of the first element matching the configured selector. Fails with
/// `BadSelector` when the selector does not parse, and with `LinkNotFound`
/// when no matching element with a link target exists.
pub fn find_csv_link(page_html: &String, csv_selector: &String) -> (r: Result<
    String,
    PipelineError,
>)
    ensures
        match r {
            Ok(link) => selector_ok(csv_selector@) && first_href(
                hrefs_of(page_html@, csv_selector@),
            ) == Some(link@),
            Err(PipelineError::BadSelector(s)) => !selector_ok(csv_selector@) && s@
                == csv_selector@,
            Err(PipelineError::LinkNotFound) => selector_ok(csv_selector@) && first_href(
                hrefs_of(page_html@, csv_selector@),
            ) is None,
            Err(_) => false,
        },
{
    if !selector_compiles(csv_selector) {
        return Err(PipelineError::BadSelector(csv_selector.clone()));
    }
    let hrefs = select_hrefs(page_html, csv_selector);
    if hrefs.len() == 0 {
        return Err(PipelineError::LinkNotFound);
    }
    match &hrefs[0] {
        Some(link) => Ok(link.clone()),
        None => Err(PipelineError::LinkNotFound),
    }
}

} // verus!
