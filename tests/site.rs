use food_scraper::site::{
    first_host_label, parse_website_name, resolve, validate_supported_url, validate_url,
    ResolveError, UrlError,
};

#[test]
fn resolve_gives_first_host_label_for_15gram() {
    assert_eq!(resolve("https://15gram.be/recipes/test"), Ok("15gram".to_string()));
}

#[test]
fn resolve_gives_first_host_label_for_dagelijksekost() {
    assert_eq!(
        resolve("https://dagelijksekost.vrt.be/gerechten/soep"),
        Ok("dagelijksekost".to_string())
    );
}

#[test]
fn resolve_is_deterministic() {
    let a = resolve("https://15gram.be/recipes/test");
    let b = resolve("https://15gram.be/recipes/test");
    assert_eq!(a, b);
    let c = resolve("https://example.com/recipe");
    let d = resolve("https://example.com/recipe");
    assert_eq!(c, d);
}

#[test]
fn resolve_rejects_unsupported_domain() {
    assert_eq!(resolve("https://example.com/recipe"), Err(ResolveError::UnsupportedDomain));
}

#[test]
fn resolve_rejects_other_scheme_on_supported_host() {
    assert_eq!(resolve("http://15gram.be/recipes/test"), Err(ResolveError::UnsupportedDomain));
}

#[test]
fn resolve_rejects_missing_trailing_slash() {
    assert_eq!(resolve("https://15gram.be"), Err(ResolveError::UnsupportedDomain));
}

#[test]
fn resolve_rejects_other_case() {
    assert_eq!(resolve("HTTPS://15GRAM.BE/recipes"), Err(ResolveError::UnsupportedDomain));
}

#[test]
fn resolve_rejects_malformed_text() {
    assert_eq!(resolve("not a url"), Err(ResolveError::InvalidUrl));
    assert_eq!(resolve(""), Err(ResolveError::InvalidUrl));
}

#[test]
fn resolve_trims_surrounding_whitespace() {
    assert_eq!(resolve("  https://15gram.be/recipes/test\n"), Ok("15gram".to_string()));
}

#[test]
fn validate_supported_url_accepts_allow_list() {
    assert!(validate_supported_url("https://15gram.be/recipes/test"));
    assert!(validate_supported_url("https://dagelijksekost.vrt.be/x"));
    assert!(!validate_supported_url("https://example.com/recipe"));
    assert!(!validate_supported_url("no url at all"));
}

#[test]
fn validate_url_accepts_web_url() {
    let parts = validate_url(" https://example.com/a ").unwrap();
    assert_eq!(parts.scheme, "https");
    assert_eq!(parts.host, Some("example.com".to_string()));
}

#[test]
fn validate_url_reports_each_error() {
    assert_eq!(validate_url("::nope").err(), Some(UrlError::InvalidFormat));
    assert_eq!(validate_url("ftp://example.com/a").err(), Some(UrlError::UnsupportedScheme));
    assert_eq!(validate_url("mailto:someone@example.com").err(), Some(UrlError::UnsupportedScheme));
    assert_eq!(validate_url("file:///tmp/a").err(), Some(UrlError::UnsupportedScheme));
}

#[test]
fn parse_website_name_takes_first_label() {
    assert_eq!(parse_website_name("https://dagelijksekost.vrt.be/x"), Some("dagelijksekost".to_string()));
    assert_eq!(parse_website_name("https://localhost/x"), Some("localhost".to_string()));
    assert_eq!(parse_website_name("mailto:someone@example.com"), None);
    assert_eq!(parse_website_name("nonsense"), None);
}

#[test]
fn first_host_label_stops_at_first_dot() {
    assert_eq!(first_host_label("a.b.c"), "a");
    assert_eq!(first_host_label("abc"), "abc");
    assert_eq!(first_host_label(".abc"), "");
    assert_eq!(first_host_label(""), "");
}

#[test]
fn validate_supported_url_parses_raw_text() {
    assert!(!validate_supported_url("\u{a0}https://15gram.be/recipes/test"));
    assert!(validate_supported_url(" https://15gram.be/recipes/test "));
}
