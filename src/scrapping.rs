//! Lookups in parsed HTML documents, by CSS selector.
use vstd::prelude::*;
use scraper::{ElementRef, Html, Selector};
use crate::product::opt_text;
use crate::text::{chars_concat, chars_of, string_of};

verus! {

#[verifier::external_type_specification]
#[verifier::external_body]
pub struct ExHtml(Html);

#[verifier::external_type_specification]
#[verifier::external_body]
pub struct ExElementRef<'a>(ElementRef<'a>);

#[verifier::external_type_specification]
#[verifier::external_body]
pub struct ExSelector(Selector);

/// Relies on `scraper::Html::parse_document`, which builds a document from any text.
#[verifier::external_body]
pub fn parse_document(text: &str) -> Html {
    Html::parse_document(text)
}

/// The inner HTML of the first descendant of `e` that matches `selector`.
pub uninterp spec fn element_inner(e: ElementRef, selector: Seq<char>) -> Option<Seq<char>>;

/// For the first descendant of `e` that matches `selector`: `None` when there is
/// none, else the value of `attribute` on it, if it has that attribute.
pub uninterp spec fn element_attribute(e: ElementRef, selector: Seq<char>, attribute: Seq<char>) -> Option<
    Option<Seq<char>>,
>;

/// Relies on the `tree` of `scraper::Html` and `ElementRef::wrap`: the first element
/// among the children of the document's root node, which for a parsed document is
/// its `<html>` element; `None` for a document without one.
#[verifier::external_body]
pub fn root_element<'a>(document: &'a Html) -> Option<ElementRef<'a>> {
    document.tree.root().children().find_map(ElementRef::wrap)
}

/// Relies on `scraper::ElementRef::select` and `ElementRef::inner_html`: the inner
/// HTML of the first match, which depends on the element and the selector alone.
#[verifier::external_body]
fn element_first_inner<'a>(element: &ElementRef<'a>, selector: &str) -> (r: Option<String>)
    ensures
        opt_text(r) == element_inner(*element, selector@),
{
    let s = Selector::parse(selector).ok()?;
    let found = element.select(&s).next()?;
    Some(found.inner_html())
}

/// Relies on `scraper::ElementRef::select` and `Element::attr`: `None` without a
/// match, else the attribute of the first match, if it has it.
#[verifier::external_body]
fn element_first_attribute<'a>(element: &ElementRef<'a>, selector: &str, attribute: &str) -> (r:
    Option<Option<String>>)
    ensures
        match r {
            Some(v) => element_attribute(*element, selector@, attribute@) == Some(opt_text(v)),
            None => element_attribute(*element, selector@, attribute@) is None,
        },
{
    let s = Selector::parse(selector).ok()?;
    let found = element.select(&s).next()?;
    Some(found.value().attr(attribute).map(str::to_string))
}

/// Why a lookup in a document found nothing.
#[derive(Clone, Debug, PartialEq, Eq, PartialOrd, Ord)]
pub enum HtmlSearchError {
    /// No element matches this selector.
    ElementNotFound(String),
    /// The element has no attribute of this name.
    AttributeNotFound(String),
}

impl HtmlSearchError {
    /// A line that says what was not found.
    pub fn message(&self) -> (r: String)
        ensures
            self is ElementNotFound ==> r@ == "selector: \""@ + self->ElementNotFound_0@
                + "\" not found."@,
            self is AttributeNotFound ==> r@ == "attribute: \""@ + self->AttributeNotFound_0@
                + "\" not found."@,
    {
        let (head, what) = match self {
            HtmlSearchError::ElementNotFound(s) => (chars_of("selector: \""), chars_of(s.as_str())),
            HtmlSearchError::AttributeNotFound(s) => (chars_of("attribute: \""), chars_of(s.as_str())),
        };
        let tail = chars_of("\" not found.");
        let first = chars_concat(&head, &what);
        let all = chars_concat(&first, &tail);
        string_of(&all)
    }
}

/// Whether `e` says that no element matches the selector `s`.
pub open spec fn element_missing(e: HtmlSearchError, s: Seq<char>) -> bool {
    match e {
        HtmlSearchError::ElementNotFound(x) => x@ == s,
        _ => false,
    }
}

/// Whether `e` says that the element lacks the attribute `a`.
pub open spec fn attribute_missing(e: HtmlSearchError, a: Seq<char>) -> bool {
    match e {
        HtmlSearchError::AttributeNotFound(x) => x@ == a,
        _ => false,
    }
}

fn owned(s: &str) -> (r: String)
    ensures
        r@ == s@,
{
    let c = chars_of(s);
    string_of(&c)
}

/// The inner HTML of the first match of `selector` in `element`.
pub fn inner_html_value(element: &ElementRef, selector: &str) -> (r: Result<String, HtmlSearchError>)
    ensures
        element_inner(*element, selector@) is Some ==> r is Ok && r->Ok_0@ == element_inner(
            *element,
            selector@,
        )->0,
        element_inner(*element, selector@) is None ==> r is Err && element_missing(
            r->Err_0,
            selector@,
        ),
{
    match element_first_inner(element, selector) {
        Some(v) => Ok(v),
        None => Err(HtmlSearchError::ElementNotFound(owned(selector))),
    }
}

/// The value of `attribute` on the first match of `selector` in `element`.
pub fn attribute_html_value(element: &ElementRef, selector: &str, attribute_name: &str) -> (r:
    Result<String, HtmlSearchError>)
    ensures
        match element_attribute(*element, selector@, attribute_name@) {
            None => r is Err && element_missing(r->Err_0, selector@),
            Some(None) => r is Err && attribute_missing(r->Err_0, attribute_name@),
            Some(Some(v)) => r is Ok && r->Ok_0@ == v,
        },
{
    match element_first_attribute(element, selector, attribute_name) {
        Some(Some(v)) => Ok(v),
        Some(None) => Err(HtmlSearchError::AttributeNotFound(owned(attribute_name))),
        None => Err(HtmlSearchError::ElementNotFound(owned(selector))),
    }
}

/// Whether some descendant of `element` matches `selector`.
pub fn has_html_selector(element: &ElementRef, selector: &str) -> (r: bool)
    ensures
        r == element_inner(*element, selector@) is Some,
{
    element_first_inner(element, selector).is_some()
}

/// The inner HTML of the first match, or `None`.
pub fn inner_html_opt(element: &ElementRef, selector: &str) -> (r: Option<String>)
    ensures
        opt_text(r) == element_inner(*element, selector@),
{
    element_first_inner(element, selector)
}

/// The inner HTML of the first element of `d` that matches `selector`.
pub uninterp spec fn first_inner(d: Html, selector: Seq<char>) -> Option<Seq<char>>;

/// The value of `attribute` on the first element of `d` that matches `selector`.
pub uninterp spec fn first_attribute(d: Html, selector: Seq<char>, attribute: Seq<char>) -> Option<
    Seq<char>,
>;

/// How many elements of `d` match `selector`.
pub uninterp spec fn match_count(d: Html, selector: Seq<char>) -> nat;

/// The inner HTML of the first match of `inner` inside the `i`-th element of `d`
/// (from zero, in the order `Html::select` yields them) that matches `selector`.
pub uninterp spec fn inner_within(d: Html, selector: Seq<char>, i: int, inner: Seq<char>) -> Option<
    Seq<char>,
>;

/// The value of `attribute` on the first match of `inner` inside the `i`-th element
/// of `d` that matches `selector`.
pub uninterp spec fn attribute_within(
    d: Html,
    selector: Seq<char>,
    i: int,
    inner: Seq<char>,
    attribute: Seq<char>,
) -> Option<Seq<char>>;

/// Relies on `scraper::Html::select` and `ElementRef::inner_html`: the inner HTML of
/// the first match, which depends on the document and the selector alone.
#[verifier::external_body]
pub fn document_inner(d: &Html, selector: &str) -> (r: Option<String>)
    ensures
        opt_text(r) == first_inner(*d, selector@),
{
    let s = Selector::parse(selector).ok()?;
    let found = d.select(&s).next()?;
    Some(found.inner_html())
}

/// Relies on `scraper::Html::select` and `Element::attr`: the attribute of the first match.
#[verifier::external_body]
pub fn document_attribute(d: &Html, selector: &str, attribute: &str) -> (r: Option<String>)
    ensures
        opt_text(r) == first_attribute(*d, selector@, attribute@),
{
    let s = Selector::parse(selector).ok()?;
    let found = d.select(&s).next()?;
    found.value().attr(attribute).map(str::to_string)
}

/// Relies on `scraper::Html::select`: the number of matches.
#[verifier::external_body]
pub fn document_count(d: &Html, selector: &str) -> (r: usize)
    ensures
        r as nat == match_count(*d, selector@),
{
    match Selector::parse(selector) {
        Ok(s) => d.select(&s).count(),
        Err(_) => 0,
    }
}

/// Relies on `scraper::Html::select`, `ElementRef::select` and `ElementRef::inner_html`:
/// the inner HTML of the first match of `inner` in the `i`-th match of `selector`.
#[verifier::external_body]
pub fn row_inner(d: &Html, selector: &str, i: usize, inner: &str) -> (r: Option<String>)
    ensures
        opt_text(r) == inner_within(*d, selector@, i as int, inner@),
{
    let outer = Selector::parse(selector).ok()?;
    let sub = Selector::parse(inner).ok()?;
    let row = d.select(&outer).nth(i)?;
    let found = row.select(&sub).next()?;
    Some(found.inner_html())
}

/// Relies on `scraper::Html::select`, `ElementRef::select` and `Element::attr`: the
/// attribute of the first match of `inner` in the `i`-th match of `selector`.
#[verifier::external_body]
pub fn row_attribute(d: &Html, selector: &str, i: usize, inner: &str, attribute: &str) -> (r:
    Option<String>)
    ensures
        opt_text(r) == attribute_within(*d, selector@, i as int, inner@, attribute@),
{
    let outer = Selector::parse(selector).ok()?;
    let sub = Selector::parse(inner).ok()?;
    let row = d.select(&outer).nth(i)?;
    let found = row.select(&sub).next()?;
    found.value().attr(attribute).map(str::to_string)
}

/// How many matches of `inner` the first element of `d` that matches `outer` holds;
/// none without such an element.
pub uninterp spec fn count_in_first(d: Html, outer: Seq<char>, inner: Seq<char>) -> nat;

/// The inner HTML of the first match of `sub` inside the `i`-th match of `inner`
/// inside the first element of `d` that matches `outer`.
pub uninterp spec fn inner_in_first(
    d: Html,
    outer: Seq<char>,
    inner: Seq<char>,
    i: int,
    sub: Seq<char>,
) -> Option<Seq<char>>;

/// Relies on `scraper::Html::select` and `ElementRef::select`: the number of matches
/// of `inner` in the first match of `outer`.
#[verifier::external_body]
pub fn first_block_count(d: &Html, outer: &str, inner: &str) -> (r: usize)
    ensures
        r as nat == count_in_first(*d, outer@, inner@),
{
    let (Ok(o), Ok(n)) = (Selector::parse(outer), Selector::parse(inner)) else {
        return 0;
    };
    match d.select(&o).next() {
        Some(block) => block.select(&n).count(),
        None => 0,
    }
}

/// Relies on `scraper::Html::select`, `ElementRef::select` and `ElementRef::inner_html`:
/// the inner HTML of `sub` in the `i`-th match of `inner` in the first match of `outer`.
#[verifier::external_body]
pub fn first_block_inner(d: &Html, outer: &str, inner: &str, i: usize, sub: &str) -> (r: Option<
    String,
>)
    ensures
        opt_text(r) == inner_in_first(*d, outer@, inner@, i as int, sub@),
{
    let block = d.select(&Selector::parse(outer).ok()?).next()?;
    let row = block.select(&Selector::parse(inner).ok()?).nth(i)?;
    let found = row.select(&Selector::parse(sub).ok()?).next()?;
    Some(found.inner_html())
}

} // verus!
