//! The selector registry: for each site key, five CSS selectors read from a
//! TOML configuration. A field with no selector gets the empty selector, which
//! matches nothing, so one missing field never blocks the other four.

use crate::text::opt_view;
use vstd::prelude::*;

verus! {

/// Whether the text is a TOML document.
pub uninterp spec fn toml_parses(text: Seq<char>) -> bool;

/// Whether the TOML text has an entry under the site's key.
pub uninterp spec fn toml_has_site(text: Seq<char>, site: Seq<char>) -> bool;

/// The string under `key` in the site's table of the TOML text, where there is one.
pub uninterp spec fn toml_string_at(text: Seq<char>, site: Seq<char>, key: Seq<char>) -> Option<Seq<char>>;

/// Relies on `toml::from_str` into `toml::Value`: it succeeds exactly on TOML documents.
#[verifier::external_body]
fn parse_toml(text: &str) -> (r: bool)
    ensures
        r == toml_parses(text@),
{
    toml::from_str::<toml::Value>(text).is_ok()
}

/// Relies on `toml::from_str` into `toml::Value` and `toml::Value::get` with a
/// string key: whether the document has an entry under the site's key.
#[verifier::external_body]
fn has_site_entry(text: &str, site: &str) -> (r: bool)
    ensures
        r == toml_has_site(text@, site@),
{
    match toml::from_str::<toml::Value>(text) {
        Ok(v) => v.get(site).is_some(),
        Err(_) => false,
    }
}

/// Relies on `toml::from_str` into `toml::Value`, `toml::Value::get` with a
/// string key and `toml::Value::as_str`: the string under `key` in the site's
/// table.
#[verifier::external_body]
fn string_entry(text: &str, site: &str, key: &str) -> (r: Option<String>)
    ensures
        opt_view(r) == toml_string_at(text@, site@, key@),
{
    let v = toml::from_str::<toml::Value>(text).ok()?;
    v.get(site)?.get(key)?.as_str().map(|s| s.to_string())
}

/// The five selectors of one site.
#[derive(Clone, Debug)]
pub struct RecipeCssSelectors {
    pub title: String,
    pub description: String,
    pub ingredients: String,
    pub steps: String,
    pub image: String,
}

/// The selector texts that a site's configuration holds, field by field.
#[derive(Clone, Debug)]
pub struct SiteEntries {
    pub title: Option<String>,
    pub description: Option<String>,
    pub ingredients: Option<String>,
    pub steps: Option<String>,
    pub image: Option<String>,
}

/// Why no selectors can be had for a site.
#[derive(PartialEq, Eq, Structural, Clone, Copy, Debug)]
pub enum RegistryError {
    /// The configuration is not a TOML document.
    InvalidConfig,
    /// The configuration has no entry for the site key.
    SiteNotConfigured,
}

/// A configured selector, or the empty selector where none is configured.
pub open spec fn entry_or_empty(e: Option<Seq<char>>) -> Seq<char> {
    match e {
        Some(s) => s,
        None => Seq::empty(),
    }
}

/// The selectors that a site's entries give: each configured text as it
/// stands, the empty selector for each field left out.
pub open spec fn selectors_match_entries(s: RecipeCssSelectors, e: SiteEntries) -> bool {
    &&& s.title@ == entry_or_empty(opt_view(e.title))
    &&& s.description@ == entry_or_empty(opt_view(e.description))
    &&& s.ingredients@ == entry_or_empty(opt_view(e.ingredients))
    &&& s.steps@ == entry_or_empty(opt_view(e.steps))
    &&& s.image@ == entry_or_empty(opt_view(e.image))
}

/// A configured selector, or the empty selector.
pub fn selector_or_empty(entry: Option<String>) -> (r: String)
    ensures
        r@ == entry_or_empty(opt_view(entry)),
{
    match entry {
        Some(s) => s,
        None => String::new(),
    }
}

/// The selectors of a site from its entries; `SiteNotConfigured` where the
/// site has none.
pub fn selectors_from_entries(entries: Option<SiteEntries>) -> (r: Result<RecipeCssSelectors, RegistryError>)
    ensures
        entries is None <==> r == Err::<RecipeCssSelectors, RegistryError>(RegistryError::SiteNotConfigured),
        entries matches Some(e) ==> (r matches Ok(s) && selectors_match_entries(s, e)),
{
    match entries {
        None => Err(RegistryError::SiteNotConfigured),
        Some(e) => Ok(
            RecipeCssSelectors {
                title: selector_or_empty(e.title),
                description: selector_or_empty(e.description),
                ingredients: selector_or_empty(e.ingredients),
                steps: selector_or_empty(e.steps),
                image: selector_or_empty(e.image),
            },
        ),
    }
}

/// The selectors configured for `website` in the TOML text `config`:
/// `InvalidConfig` exactly where the text is no TOML document, otherwise
/// `SiteNotConfigured` exactly where it has no entry for the site; each
/// selector is the string configured for its field, or empty.
pub fn load_selectors(config: &str, website: &str) -> (r: Result<RecipeCssSelectors, RegistryError>)
    ensures
        r == Err::<RecipeCssSelectors, RegistryError>(RegistryError::InvalidConfig) <==> !toml_parses(config@),
        toml_parses(config@) ==> (r == Err::<RecipeCssSelectors, RegistryError>(RegistryError::SiteNotConfigured)
            <==> !toml_has_site(config@, website@)),
        toml_parses(config@) && toml_has_site(config@, website@) ==> r is Ok,
        r matches Ok(s) ==> s.title@ == entry_or_empty(toml_string_at(config@, website@, "title"@)),
        r matches Ok(s) ==> s.description@ == entry_or_empty(toml_string_at(config@, website@, "description"@)),
        r matches Ok(s) ==> s.ingredients@ == entry_or_empty(toml_string_at(config@, website@, "ingredients"@)),
        r matches Ok(s) ==> s.steps@ == entry_or_empty(toml_string_at(config@, website@, "steps"@)),
        r matches Ok(s) ==> s.image@ == entry_or_empty(toml_string_at(config@, website@, "image"@)),
{
    if !parse_toml(config) {
        return Err(RegistryError::InvalidConfig);
    }
    let entries = if has_site_entry(config, website) {
        Some(
            SiteEntries {
                title: string_entry(config, website, "title"),
                description: string_entry(config, website, "description"),
                ingredients: string_entry(config, website, "ingredients"),
                steps: string_entry(config, website, "steps"),
                image: string_entry(config, website, "image"),
            },
        )
    } else {
        None
    };
    selectors_from_entries(entries)
}

} // verus!
