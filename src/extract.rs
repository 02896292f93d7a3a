//! Field extractors: each applies one CSS selector to a parsed document and
//! turns the first matching element into a field value. A selector that does
//! not parse, or that matches nothing, gives an absent field.

use crate::text::{
    all_clean, clean_segments, clean_text_segments, join_spaced, join_with_spaces,
    lemma_clean_segments_clean, lemma_clean_segments_idempotent, lemma_trim_idempotent, opt_view, string_of, trim, trim_chars, views,
};
use scraper::{ElementRef, Html, Selector};
use vstd::prelude::*;

verus! {

#[verifier::external_type_specification]
#[verifier::external_body]
pub struct ExHtml(Html);

#[verifier::external_type_specification]
#[verifier::external_body]
pub struct ExElementRef<'a>(ElementRef<'a>);

/// Whether scraper accepts the text as a selector list.
pub uninterp spec fn selector_parses(css: Seq<char>) -> bool;

/// Whether the text parses as a selector list that matches some element of the document.
pub uninterp spec fn has_match(document: Html, css: Seq<char>) -> bool;

/// The inner markup of the first element that `Html::select` yields for the selector.
pub uninterp spec fn first_match_inner_html_of(document: Html, css: Seq<char>) -> Option<Seq<char>>;

/// The descendant text nodes, in tree order, of the first element that
/// `Html::select` yields for the selector.
pub uninterp spec fn first_match_segments_of(document: Html, css: Seq<char>) -> Option<Seq<Seq<char>>>;

/// The value of the named attribute of the first element that the selector
/// matches: `None` where nothing matches, `Some(None)` where the element has no
/// such attribute.
pub uninterp spec fn first_match_attribute_of(document: Html, css: Seq<char>, name: Seq<char>) -> Option<Option<Seq<char>>>;

/// Relies on `scraper::Selector::parse`: it succeeds exactly on the texts that
/// are selector lists, and an empty text is none (the selector parser reports
/// an empty selector).
#[verifier::external_body]
fn parse_selector_ok(css: &str) -> (r: bool)
    ensures
        r == selector_parses(css@),
        css@.len() == 0 ==> !r,
{
    Selector::parse(css).is_ok()
}

/// Whether the text is a selector list that the extractors can apply; where it
/// is not, every extractor gives an absent field.
pub fn selector_is_valid(css: &str) -> (r: bool)
    ensures
        r == selector_parses(css@),
        css@.len() == 0 ==> !r,
{
    parse_selector_ok(css)
}

/// Relies on `scraper::Selector::parse` and `scraper::Html::select`: the first
/// element that `select` yields (it walks the parsed tree's node store).
/// `Selector::parse` refuses an empty text (the selector parser reports an
/// empty selector).
#[verifier::external_body]
fn select_first<'a>(document: &'a Html, css: &str) -> (r: Option<ElementRef<'a>>)
    ensures
        r is Some == has_match(*document, css@),
        !selector_parses(css@) ==> r is None,
        css@.len() == 0 ==> r is None,
{
    let selector = Selector::parse(css).ok()?;
    document.select(&selector).next()
}

/// Relies on `scraper::Selector::parse`, `scraper::Html::select` and
/// `scraper::ElementRef::inner_html`: the markup of the children of the first match.
#[verifier::external_body]
fn first_match_inner_html(document: &Html, css: &str) -> (r: Option<String>)
    ensures
        opt_view(r) == first_match_inner_html_of(*document, css@),
        r is Some == has_match(*document, css@),
        !selector_parses(css@) ==> r is None,
        css@.len() == 0 ==> r is None,
{
    let selector = Selector::parse(css).ok()?;
    document.select(&selector).next().map(|e| e.inner_html())
}

/// Relies on `scraper::Selector::parse`, `scraper::Html::select` and
/// `scraper::ElementRef::text`: the descendant text nodes of the first match,
/// in tree order.
#[verifier::external_body]
fn first_match_text_segments(document: &Html, css: &str) -> (r: Option<Vec<String>>)
    ensures
        match first_match_segments_of(*document, css@) {
            None => r is None,
            Some(segs) => r matches Some(v) && views(v@) == segs,
        },
        r is Some == has_match(*document, css@),
        !selector_parses(css@) ==> r is None,
        css@.len() == 0 ==> r is None,
{
    let selector = Selector::parse(css).ok()?;
    document.select(&selector).next().map(|e| e.text().map(|t| t.to_string()).collect())
}

/// Relies on `scraper::Selector::parse`, `scraper::Html::select` and
/// `scraper::ElementRef::attr`: the named attribute of the first match, if it
/// has one.
#[verifier::external_body]
fn first_match_attribute(document: &Html, css: &str, name: &str) -> (r: Option<Option<String>>)
    ensures
        match first_match_attribute_of(*document, css@, name@) {
            None => r is None,
            Some(a) => r matches Some(v) && opt_view(v) == a,
        },
        r is Some == has_match(*document, css@),
        !selector_parses(css@) ==> r is None,
        css@.len() == 0 ==> r is None,
{
    let selector = Selector::parse(css).ok()?;
    document.select(&selector).next().map(|e| e.attr(name).map(|a| a.to_string()))
}

/// The first element of `document` that `selector` matches; `None` where the
/// selector does not parse (an empty one included) or matches nothing.
pub fn select_elements<'a>(document: &'a Html, selector: &str) -> (r: Option<ElementRef<'a>>)
    ensures
        r is Some == has_match(*document, selector@),
        !selector_parses(selector@) ==> r is None,
        selector@.len() == 0 ==> r is None,
{
    select_first(document, selector)
}

/// A description: the text segments joined with single spaces, then trimmed.
pub open spec fn description_text(segs: Seq<Seq<char>>) -> Seq<char> {
    trim(join_spaced(segs))
}

/// The title field: the inner markup of the first match, verbatim.
pub open spec fn title_field(document: Html, css: Seq<char>) -> Option<Seq<char>> {
    first_match_inner_html_of(document, css)
}

/// The description field: the first match's text segments, joined and trimmed.
pub open spec fn description_field(document: Html, css: Seq<char>) -> Option<Seq<char>> {
    match first_match_segments_of(document, css) {
        Some(segs) => Some(description_text(segs)),
        None => None,
    }
}

/// The ingredients or steps field: the first match's text segments, cleaned.
pub open spec fn items_field(document: Html, css: Seq<char>) -> Option<Seq<Seq<char>>> {
    match first_match_segments_of(document, css) {
        Some(segs) => Some(clean_segments(segs)),
        None => None,
    }
}

/// The image field: the first match's `src` attribute, absent where it has none.
pub open spec fn image_field(document: Html, css: Seq<char>) -> Option<Seq<char>> {
    match first_match_attribute_of(document, css, "src"@) {
        Some(Some(s)) => Some(s),
        _ => None,
    }
}

/// The view of an optional list of strings.
pub open spec fn opt_views(o: Option<Vec<String>>) -> Option<Seq<Seq<char>>> {
    match o {
        Some(v) => Some(views(v@)),
        None => None,
    }
}

/// The description made of an element's text segments.
pub fn description_from_segments(segments: &Vec<String>) -> (r: String)
    ensures
        r@ == description_text(views(segments@)),
{
    let joined = join_with_spaces(segments);
    let trimmed = trim_chars(&joined);
    string_of(&trimmed)
}

/// The list items made of an element's text segments: each trimmed, empty ones
/// left out, order and repeats kept.
pub fn items_from_segments(segments: &Vec<String>) -> (r: Vec<String>)
    ensures
        views(r@) == clean_segments(views(segments@)),
        all_clean(views(r@)),
{
    let r = clean_text_segments(segments);
    proof {
        lemma_clean_segments_clean(views(segments@));
    }
    r
}

/// The title: the inner markup of the first match, verbatim.
pub fn get_recipe_title(document: &Html, css_selector: &str) -> (r: Option<String>)
    ensures
        opt_view(r) == title_field(*document, css_selector@),
        r is Some == has_match(*document, css_selector@),
        !selector_parses(css_selector@) ==> r is None,
        css_selector@.len() == 0 ==> r is None,
{
    first_match_inner_html(document, css_selector)
}

/// The description: the text of the first match, segments joined with single
/// spaces and trimmed.
pub fn get_recipe_description(document: &Html, css_selector: &str) -> (r: Option<String>)
    ensures
        opt_view(r) == description_field(*document, css_selector@),
        r is Some == has_match(*document, css_selector@),
        !selector_parses(css_selector@) ==> r is None,
        css_selector@.len() == 0 ==> r is None,
        r matches Some(d) ==> trim(d@) == d@,
{
    match first_match_text_segments(document, css_selector) {
        Some(segments) => {
            let d = description_from_segments(&segments);
            proof {
                lemma_trim_idempotent(join_spaced(views(segments@)));
            }
            Some(d)
        },
        None => None,
    }
}

/// The text segments of the first match, each trimmed, empty ones left out.
fn get_recipe_items(document: &Html, css_selector: &str) -> (r: Option<Vec<String>>)
    ensures
        opt_views(r) == items_field(*document, css_selector@),
        r is Some == has_match(*document, css_selector@),
        !selector_parses(css_selector@) ==> r is None,
        css_selector@.len() == 0 ==> r is None,
        r matches Some(v) ==> all_clean(views(v@)),
{
    match first_match_text_segments(document, css_selector) {
        Some(segments) => Some(items_from_segments(&segments)),
        None => None,
    }
}

/// The ingredients: the cleaned text segments of the first match.
pub fn get_recipe_ingredients(document: &Html, css_selector: &str) -> (r: Option<Vec<String>>)
    ensures
        opt_views(r) == items_field(*document, css_selector@),
        r is Some == has_match(*document, css_selector@),
        !selector_parses(css_selector@) ==> r is None,
        css_selector@.len() == 0 ==> r is None,
        r matches Some(v) ==> all_clean(views(v@)),
{
    get_recipe_items(document, css_selector)
}

/// The steps: the cleaned text segments of the first match.
pub fn get_recipe_steps(document: &Html, css_selector: &str) -> (r: Option<Vec<String>>)
    ensures
        opt_views(r) == items_field(*document, css_selector@),
        r is Some == has_match(*document, css_selector@),
        !selector_parses(css_selector@) ==> r is None,
        css_selector@.len() == 0 ==> r is None,
        r matches Some(v) ==> all_clean(views(v@)),
{
    get_recipe_items(document, css_selector)
}

/// The image link: the `src` attribute of the first match, verbatim; absent
/// where nothing matches or the element has none.
pub fn get_recipe_image(document: &Html, css_selector: &str) -> (r: Option<String>)
    ensures
        opt_view(r) == image_field(*document, css_selector@),
        r is Some ==> has_match(*document, css_selector@),
        !selector_parses(css_selector@) ==> r is None,
        css_selector@.len() == 0 ==> r is None,
{
    match first_match_attribute(document, css_selector, "src") {
        Some(src) => src,
        None => None,
    }
}

/// Cleaning the extracted ingredients or steps once more changes nothing.
pub proof fn lemma_items_field_idempotent(document: Html, css: Seq<char>)
    ensures
        items_field(document, css) matches Some(v) ==> clean_segments(v) == v,
{
    if let Some(segs) = first_match_segments_of(document, css) {
        lemma_clean_segments_idempotent(segs);
    }
}

} // verus!
