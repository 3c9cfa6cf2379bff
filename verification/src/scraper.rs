//! What every metadata source declares about itself.

use vstd::prelude::*;
use crate::dom::{
    all_attrs, all_texts, first_attr, first_attr_of, first_text, first_text_of, strs,
};
use crate::text::{contains, str_contains, views_of};

verus! {

/// The form of movie number a source expects.
#[derive(Debug, Clone, Copy, PartialEq, Eq, Structural)]
pub enum IdFormat {
    /// `SSIS-123`: upper case, with a hyphen.
    Display,
    /// `ssis00123`: lower case, zero-padded, as the DMM catalogue writes it.
    Content,
}

impl Default for IdFormat {
    fn default() -> (r: Self)
        ensures
            r == IdFormat::Display,
    {
        IdFormat::Display
    }
}

/// A metadata source: its name, its cover crop mode, the number form it
/// expects and the page it looks a number up at.
pub trait Scraper {
    /// The source's name (`dmm`, `javdb`, ...).
    fn source(&self) -> &'static str;

    /// The cover crop mode: 0 copy, 1 face crop, 3 small cover.
    fn imagecut(&self) -> i32 {
        1
    }

    /// The number form the source expects.
    fn preferred_id_format(&self) -> IdFormat {
        IdFormat::Display
    }

    /// The page at which the source looks a number up.
    fn query_number_url(&self, number: &str) -> String;

    /// The trimmed text of the first element the selector picks.
    fn select_text(&self, doc: &str, selector: &str) -> (r: String)
        ensures
            r@ == first_text(doc@, selector@),
    {
        crate::dom::select_text(doc, selector)
    }

    /// The trimmed attribute of the first element the selector picks.
    fn select_attr(&self, doc: &str, selector: &str, attr: &str) -> (r: String)
        ensures
            r@ == first_attr(doc@, selector@, attr@),
    {
        crate::dom::select_attr(doc, selector, attr)
    }

    /// The trimmed, non-empty texts of all elements the selector picks.
    fn select_all_text(&self, doc: &str, selector: &str) -> (r: Vec<String>)
        ensures
            views_of(r@) == all_texts(doc@, selector@),
    {
        crate::dom::select_all_text(doc, selector)
    }

    /// The trimmed, non-empty values of an attribute on all elements the
    /// selector picks.
    fn select_all_attr(&self, doc: &str, selector: &str, attr: &str) -> (r: Vec<String>)
        ensures
            views_of(r@) == all_attrs(doc@, selector@, attr@),
    {
        crate::dom::select_all_attr(doc, selector, attr)
    }

    /// The text of the first selector that gives one.
    fn select_text_by_exprs(&self, doc: &str, selectors: &[&str]) -> (r: String)
        ensures
            r@ == first_text_of(doc@, strs(selectors@)),
    {
        crate::dom::select_text_by_exprs(doc, selectors)
    }

    /// The attribute of the first selector that gives one.
    fn select_attr_by_exprs(&self, doc: &str, selectors: &[&str], attr: &str) -> (r: String)
        ensures
            r@ == first_attr_of(doc@, strs(selectors@), attr@),
    {
        crate::dom::select_attr_by_exprs(doc, selectors, attr)
    }
}

/// Whether a fetched page is a "not found" page: it holds one of the markers
/// that the sources put in their 404 pages.
pub open spec fn not_found_page(text: Seq<char>) -> bool {
    ||| contains(text, "<title>404 Page Not Found"@)
    ||| contains(text, "<title>未找到页面"@)
    ||| contains(text, "404 Not Found"@)
    ||| contains(text, "<title>404"@)
    ||| contains(text, "<title>お探しの商品が見つかりません"@)
}

/// Whether a fetched page is a "not found" page (the check of `fetch_html`).
pub fn is_not_found_page(text: &str) -> (r: bool)
    ensures
        r == not_found_page(text@),
{
    str_contains(text, "<title>404 Page Not Found") || str_contains(text, "<title>未找到页面")
        || str_contains(text, "404 Not Found") || str_contains(text, "<title>404")
        || str_contains(text, "<title>お探しの商品が見つかりません")
}

/// Whether a JavDB page is a "not found" page (JavDB's own `fetch_html`
/// checks all markers but the last).
pub open spec fn javdb_not_found_page(text: Seq<char>) -> bool {
    ||| contains(text, "<title>404 Page Not Found"@)
    ||| contains(text, "<title>未找到页面"@)
    ||| contains(text, "404 Not Found"@)
    ||| contains(text, "<title>404"@)
}

/// Whether a JavDB page is a "not found" page.
pub fn is_javdb_not_found_page(text: &str) -> (r: bool)
    ensures
        r == javdb_not_found_page(text@),
{
    str_contains(text, "<title>404 Page Not Found") || str_contains(text, "<title>未找到页面")
        || str_contains(text, "404 Not Found") || str_contains(text, "<title>404")
}

} // verus!
