//! Reading a web page: which texts stand in which elements, as the `scraper`
//! crate finds them.
//!
//! A page is parsed as an HTML document and its elements are picked by CSS
//! selectors. All results list the elements in the order of the document,
//! and `None` says that a selector could not be read.

use scraper::{Html, Selector};
use vstd::prelude::*;

verus! {

/// For each element of `document` that `selector` picks: the texts inside
/// it, piece by piece.
pub uninterp spec fn selected_texts(document: Seq<char>, selector: Seq<char>) -> Option<Seq<Seq<Seq<char>>>>;

/// For each element of `document` that `selector` picks: what stands inside
/// it, as HTML.
pub uninterp spec fn selected_html(document: Seq<char>, selector: Seq<char>) -> Option<Seq<Seq<char>>>;

/// For each element of `document` that `outer` picks, for each element
/// inside it that `inner` picks: the texts inside that.
pub uninterp spec fn selected_within(document: Seq<char>, outer: Seq<char>, inner: Seq<char>) -> Option<
    Seq<Seq<Seq<Seq<char>>>>,
>;

/// For each element of `document` that `outer` picks, for each element
/// inside it that `middle` picks, for each element inside that which `inner`
/// picks: the texts inside that.
pub uninterp spec fn selected_nested(
    document: Seq<char>,
    outer: Seq<char>,
    middle: Seq<char>,
    inner: Seq<char>,
) -> Option<Seq<Seq<Seq<Seq<Seq<char>>>>>>;

/// Texts as mathematical values.
pub open spec fn texts1(texts: Seq<String>) -> Seq<Seq<char>> {
    texts.map_values(|t: String| t@)
}

/// Lists of texts as mathematical values.
pub open spec fn texts2(texts: Seq<Vec<String>>) -> Seq<Seq<Seq<char>>> {
    texts.map_values(|t: Vec<String>| texts1(t@))
}

/// Lists of lists of texts as mathematical values.
pub open spec fn texts3(texts: Seq<Vec<Vec<String>>>) -> Seq<Seq<Seq<Seq<char>>>> {
    texts.map_values(|t: Vec<Vec<String>>| texts2(t@))
}

/// Lists of lists of lists of texts as mathematical values.
pub open spec fn texts4(texts: Seq<Vec<Vec<Vec<String>>>>) -> Seq<Seq<Seq<Seq<Seq<char>>>>> {
    texts.map_values(|t: Vec<Vec<Vec<String>>>| texts3(t@))
}

/// Parses the document with `Html::parse_document` and the selector with
/// `Selector::parse`, picks with `Html::select` and reads each element with
/// `ElementRef::text`. The result depends on document and selector alone and
/// is named `selected_texts`.
#[verifier::external_body]
pub(crate) fn select_texts(document: &str, selector: &str) -> (found: Option<Vec<Vec<String>>>)
    ensures
        (match found {
            Some(found) => Some(texts2(found@)),
            None => None,
        }) == selected_texts(document@, selector@),
{
    let selector = Selector::parse(selector).ok()?;
    let page = Html::parse_document(document);
    Some(page.select(&selector).map(|e| e.text().map(|t| t.to_string()).collect()).collect())
}

/// Parses the document with `Html::parse_document` and the selector with
/// `Selector::parse`, picks with `Html::select` and reads each element with
/// `ElementRef::inner_html`. The result depends on document and selector
/// alone and is named `selected_html`.
#[verifier::external_body]
pub(crate) fn select_html(document: &str, selector: &str) -> (found: Option<Vec<String>>)
    ensures
        (match found {
            Some(found) => Some(texts1(found@)),
            None => None,
        }) == selected_html(document@, selector@),
{
    let selector = Selector::parse(selector).ok()?;
    let page = Html::parse_document(document);
    Some(page.select(&selector).map(|e| e.inner_html()).collect())
}

/// As `select_texts`, but picks with `ElementRef::select` inside each
/// element that `outer` picks. The result is named `selected_within`.
#[verifier::external_body]
pub(crate) fn select_within(document: &str, outer: &str, inner: &str) -> (found: Option<Vec<Vec<Vec<String>>>>)
    ensures
        (match found {
            Some(found) => Some(texts3(found@)),
            None => None,
        }) == selected_within(document@, outer@, inner@),
{
    let (outer, inner) = (Selector::parse(outer).ok()?, Selector::parse(inner).ok()?);
    let page = Html::parse_document(document);
    let texts = |e: scraper::ElementRef| e.text().map(|t| t.to_string()).collect();
    Some(page.select(&outer).map(|o| o.select(&inner).map(texts).collect()).collect())
}

/// As `select_within`, one level deeper. The result is named
/// `selected_nested`.
#[verifier::external_body]
pub(crate) fn select_nested(document: &str, outer: &str, middle: &str, inner: &str) -> (found: Option<
    Vec<Vec<Vec<Vec<String>>>>,
>)
    ensures
        (match found {
            Some(found) => Some(texts4(found@)),
            None => None,
        }) == selected_nested(document@, outer@, middle@, inner@),
{
    let (outer, middle) = (Selector::parse(outer).ok()?, Selector::parse(middle).ok()?);
    let inner = Selector::parse(inner).ok()?;
    let page = Html::parse_document(document);
    let texts = |e: scraper::ElementRef| e.text().map(|t| t.to_string()).collect();
    let row = |r: scraper::ElementRef| r.select(&inner).map(texts).collect();
    Some(page.select(&outer).map(|o| o.select(&middle).map(row).collect()).collect())
}

} // verus!
