//! Recipe assembly: the five extracted fields and the source URL in one
//! record, and the file name under which the record is stored.

use crate::extract::{
    description_field, get_recipe_description, get_recipe_image, get_recipe_ingredients,
    get_recipe_steps, get_recipe_title, has_match, image_field, items_field, opt_views,
    selector_parses, title_field,
};
use crate::registry::RecipeCssSelectors;
use crate::text::{all_clean, chars_of, opt_view, push_all, string_of, trim, views};
use scraper::Html;
use vstd::prelude::*;

verus! {

/// A recipe as extracted from one page. Every field but the source URL may be
/// absent.
#[derive(Clone, Debug)]
pub struct Recipe {
    pub title: Option<String>,
    pub description: Option<String>,
    pub ingredients: Option<Vec<String>>,
    pub steps: Option<Vec<String>>,
    pub image_link: Option<String>,
    pub source_url: String,
}

/// Whether a selector can match nothing: it is empty or does not parse.
pub open spec fn selector_unusable(css: Seq<char>) -> bool {
    css.len() == 0 || !selector_parses(css)
}

/// Each field of the recipe is what its own extractor gives for its own
/// selector, whatever the other selectors are.
pub open spec fn fields_extracted(r: Recipe, document: Html, selectors: RecipeCssSelectors) -> bool {
    &&& opt_view(r.title) == title_field(document, selectors.title@)
    &&& opt_view(r.description) == description_field(document, selectors.description@)
    &&& opt_views(r.ingredients) == items_field(document, selectors.ingredients@)
    &&& opt_views(r.steps) == items_field(document, selectors.steps@)
    &&& opt_view(r.image_link) == image_field(document, selectors.image@)
}

/// Runs the five extractors with the site's selectors and attaches the source
/// URL unchanged.
pub fn extract_recipe(document: &Html, selectors: &RecipeCssSelectors, source_url: &str) -> (r: Recipe)
    ensures
        r.source_url@ == source_url@,
        fields_extracted(r, *document, *selectors),
        !has_match(*document, selectors.title@) ==> r.title is None,
        !has_match(*document, selectors.description@) ==> r.description is None,
        !has_match(*document, selectors.ingredients@) ==> r.ingredients is None,
        !has_match(*document, selectors.steps@) ==> r.steps is None,
        !has_match(*document, selectors.image@) ==> r.image_link is None,
        selector_unusable(selectors.title@) ==> r.title is None,
        selector_unusable(selectors.description@) ==> r.description is None,
        selector_unusable(selectors.ingredients@) ==> r.ingredients is None,
        selector_unusable(selectors.steps@) ==> r.steps is None,
        selector_unusable(selectors.image@) ==> r.image_link is None,
        r.description matches Some(d) ==> trim(d@) == d@,
        r.ingredients matches Some(v) ==> all_clean(views(v@)),
        r.steps matches Some(v) ==> all_clean(views(v@)),
{
    Recipe {
        title: get_recipe_title(document, selectors.title.as_str()),
        description: get_recipe_description(document, selectors.description.as_str()),
        ingredients: get_recipe_ingredients(document, selectors.ingredients.as_str()),
        steps: get_recipe_steps(document, selectors.steps.as_str()),
        image_link: get_recipe_image(document, selectors.image.as_str()),
        source_url: string_of(&chars_of(source_url)),
    }
}

/// The file name for a recipe: `recipe_<title>.json` with the title verbatim,
/// or `recipe.json` where there is no title.
pub open spec fn file_name_for(title: Option<Seq<char>>) -> Seq<char> {
    match title {
        Some(t) => "recipe_"@ + t + ".json"@,
        None => "recipe.json"@,
    }
}

/// The file name for a recipe with this title, the title taken verbatim.
pub fn recipe_file_name(title: &Option<String>) -> (r: String)
    ensures
        r@ == file_name_for(opt_view(*title)),
{
    match title {
        Some(t) => {
            let mut name = chars_of("recipe_");
            push_all(&mut name, &chars_of(t.as_str()));
            push_all(&mut name, &chars_of(".json"));
            string_of(&name)
        },
        None => string_of(&chars_of("recipe.json")),
    }
}

/// Whether a character may stand in a file name: no path separator, none of
/// `:*?"<>|`, and no control character.
pub open spec fn is_safe_file_char(c: char) -> bool {
    let u = c as u32;
    u >= 0x20 && u != 0x7f && c != '/' && c != '\\' && c != ':' && c != '*' && c != '?' && c
        != '"' && c != '<' && c != '>' && c != '|'
}

/// The character, or `_` where it may not stand in a file name.
pub open spec fn safe_file_char(c: char) -> char {
    if is_safe_file_char(c) {
        c
    } else {
        '_'
    }
}

fn safe_file_char_exec(c: char) -> (r: char)
    ensures
        r == safe_file_char(c),
{
    let u = c as u32;
    if u >= 0x20 && u != 0x7f && c != '/' && c != '\\' && c != ':' && c != '*' && c != '?' && c
        != '"' && c != '<' && c != '>' && c != '|' {
        c
    } else {
        '_'
    }
}

/// The name with each character that may not stand in a file name replaced by `_`.
pub fn sanitize_file_name(name: &str) -> (r: String)
    ensures
        r@ == name@.map_values(|c: char| safe_file_char(c)),
{
    let cs = chars_of(name);
    let mut out: Vec<char> = Vec::new();
    let mut i: usize = 0;
    while i < cs.len()
        invariant
            i <= cs@.len(),
            out@ == cs@.subrange(0, i as int).map_values(|c: char| safe_file_char(c)),
        decreases cs@.len() - i,
    {
        out.push(safe_file_char_exec(cs[i]));
        i = i + 1;
        assert(out@ =~= cs@.subrange(0, i as int).map_values(|c: char| safe_file_char(c)));
    }
    assert(cs@.subrange(0, cs@.len() as int) =~= cs@);
    string_of(&out)
}

/// The file name for a recipe with this title, made safe to use as one.
pub fn safe_recipe_file_name(title: &Option<String>) -> (r: String)
    ensures
        r@ == file_name_for(opt_view(*title)).map_values(|c: char| safe_file_char(c)),
{
    let name = recipe_file_name(title);
    sanitize_file_name(name.as_str())
}

} // verus!
