//! Trusted boundary to the HTML parsing and CSS-selector querying
//! capability. Every item here either declares an outside type or wraps a
//! single outside call; the values handed back are plain strings that the
//! verified extraction logic consumes.

use vstd::prelude::*;

verus! {

#[verifier::external_type_specification]
#[verifier::external_body]
pub struct ExHtml(scraper::Html);

#[verifier::external_type_specification]
#[verifier::external_body]
pub struct ExElementRef<'a>(scraper::ElementRef<'a>);

/// Relies on scraper's `Html::parse_fragment`: parses an HTML fragment into
/// a queryable document tree. Parsing never fails; malformed input yields a
/// tree with whatever could be recovered.
#[verifier::external_body]
pub fn parse_fragment(content: &str) -> scraper::Html {
    scraper::Html::parse_fragment(content)
}

/// Relies on scraper's `Selector::parse` and `Html::select`: the elements of
/// the document matching a CSS selector, in document order. A selector that
/// does not parse selects nothing.
#[verifier::external_body]
pub fn select_in_doc<'a>(doc: &'a scraper::Html, rule: &str) -> Vec<scraper::ElementRef<'a>> {
    match scraper::Selector::parse(rule) {
        Ok(sel) => doc.select(&sel).collect(),
        Err(_) => Vec::new(),
    }
}

/// Relies on scraper's `Selector::parse` and `ElementRef::select`: the
/// descendant elements matching a CSS selector, in document order. A
/// selector that does not parse selects nothing.
#[verifier::external_body]
pub fn select_in_element<'a>(
    ele: &scraper::ElementRef<'a>,
    rule: &str,
) -> Vec<scraper::ElementRef<'a>> {
    match scraper::Selector::parse(rule) {
        Ok(sel) => ele.select(&sel).collect(),
        Err(_) => Vec::new(),
    }
}

/// Relies on scraper's `ElementRef::text`: the element's text nodes, in
/// traversal order.
#[verifier::external_body]
pub fn text_parts(ele: &scraper::ElementRef<'_>) -> Vec<String> {
    ele.text().map(|t| t.to_string()).collect()
}

/// Relies on scraper's `ElementRef::attr`: the value of the named attribute
/// on the element itself, if present.
#[verifier::external_body]
pub fn attr_of(ele: &scraper::ElementRef<'_>, name: &str) -> Option<String> {
    ele.attr(name).map(|v| v.to_string())
}

} // verus!
