//! Site resolution: which supported site a URL belongs to, and the site key
//! (the first label of its host) under which its selectors are registered.

use crate::text::{chars_of, copy_range, opt_view, string_of, trim, trim_chars};
use vstd::prelude::*;

verus! {

/// What the library reads of a parsed URL.
pub struct UrlParts {
    /// The scheme, such as `https`.
    pub scheme: String,
    /// The host as text, where the URL has one.
    pub host: Option<String>,
}

impl UrlParts {
    pub open spec fn view_parts(&self) -> (Seq<char>, Option<Seq<char>>) {
        (self.scheme@, opt_view(self.host))
    }
}

/// The scheme and host that the url crate finds in a text, or `None` where it
/// does not parse the text as a URL.
pub uninterp spec fn url_parts_of(s: Seq<char>) -> Option<(Seq<char>, Option<Seq<char>>)>;

/// Relies on `url::Url::parse`, and on `Url::scheme` and `Url::host_str` of
/// its result: whether the text is a URL, and if so its scheme and host.
#[verifier::external_body]
fn parse_url(s: &str) -> (r: Option<UrlParts>)
    ensures
        r is None <==> url_parts_of(s@) is None,
        r matches Some(p) ==> url_parts_of(s@) == Some(p.view_parts()),
{
    match url::Url::parse(s) {
        Ok(u) => Some(UrlParts { scheme: u.scheme().to_string(), host: u.host_str().map(|h| h.to_string()) }),
        Err(_) => None,
    }
}

/// Whether `p` is a prefix of `s`.
pub open spec fn has_prefix(s: Seq<char>, p: Seq<char>) -> bool {
    p.len() <= s.len() && s.subrange(0, p.len() as int) == p
}

/// The origins of the supported sites, each with its trailing slash.
pub open spec fn supported_origins() -> Seq<Seq<char>> {
    seq!["https://15gram.be/"@, "https://dagelijksekost.vrt.be/"@]
}

/// Whether the text starts with one of the supported origins, letter for letter.
pub open spec fn has_supported_origin(s: Seq<char>) -> bool {
    exists|i: int| 0 <= i < supported_origins().len() && has_prefix(s, #[trigger] supported_origins()[i])
}

/// The characters of a host before its first dot.
pub open spec fn first_label(h: Seq<char>) -> Seq<char>
    decreases h.len(),
{
    if h.len() == 0 || h[0] == '.' {
        Seq::empty()
    } else {
        seq![h[0]] + first_label(h.drop_first())
    }
}

/// The site name of a URL text: the first label of its host.
pub open spec fn website_name(s: Seq<char>) -> Option<Seq<char>> {
    match url_parts_of(s) {
        Some((_, Some(h))) => Some(first_label(h)),
        _ => None,
    }
}

/// Why a URL is refused.
#[derive(PartialEq, Eq, Structural, Clone, Copy, Debug)]
pub enum ResolveError {
    /// The text does not parse as a URL with a host.
    InvalidUrl,
    /// The URL does not start with a supported origin.
    UnsupportedDomain,
}

/// The site key of a URL text, or why it is refused. The text is trimmed
/// first; the allow-list is checked on the trimmed text as it stands.
pub open spec fn resolution(s: Seq<char>) -> Result<Seq<char>, ResolveError> {
    let t = trim(s);
    if url_parts_of(t) is None {
        Err(ResolveError::InvalidUrl)
    } else if !has_supported_origin(t) {
        Err(ResolveError::UnsupportedDomain)
    } else {
        match website_name(t) {
            Some(k) => Ok(k),
            None => Err(ResolveError::InvalidUrl),
        }
    }
}

pub open spec fn resolution_view(r: Result<String, ResolveError>) -> Result<Seq<char>, ResolveError> {
    match r {
        Ok(k) => Ok(k@),
        Err(e) => Err(e),
    }
}

/// Whether `p` is a prefix of `s`.
fn starts_with_chars(s: &Vec<char>, p: &Vec<char>) -> (r: bool)
    ensures
        r == has_prefix(s@, p@),
{
    if p.len() > s.len() {
        return false;
    }
    let mut i: usize = 0;
    while i < p.len()
        invariant
            p@.len() <= s@.len(),
            i <= p@.len(),
            forall|j: int| 0 <= j < i ==> s@[j] == p@[j],
        decreases p@.len() - i,
    {
        if s[i] != p[i] {
            assert(s@.subrange(0, p@.len() as int)[i as int] != p@[i as int]);
            return false;
        }
        i = i + 1;
    }
    assert(s@.subrange(0, p@.len() as int) =~= p@);
    true
}

/// Whether the characters start with a supported origin.
fn starts_with_supported_origin(s: &Vec<char>) -> (r: bool)
    ensures
        r == has_supported_origin(s@),
{
    let a = chars_of("https://15gram.be/");
    let b = chars_of("https://dagelijksekost.vrt.be/");
    let r = starts_with_chars(s, &a) || starts_with_chars(s, &b);
    assert(supported_origins()[0] == a@ && supported_origins()[1] == b@);
    proof {
        if r {
            if has_prefix(s@, a@) {
                assert(has_prefix(s@, supported_origins()[0]));
            } else {
                assert(has_prefix(s@, supported_origins()[1]));
            }
        }
    }
    r
}

/// The characters of `h` before its first dot.
pub fn first_host_label(h: &str) -> (r: String)
    ensures
        r@ == first_label(h@),
{
    let cs = chars_of(h);
    let n = cs.len();
    let mut i: usize = 0;
    assert(cs@.subrange(0, 0) + cs@.subrange(0, n as int) =~= cs@);
    while i < n && cs[i] != '.'
        invariant
            i <= n == cs@.len(),
            first_label(cs@) == cs@.subrange(0, i as int) + first_label(cs@.subrange(i as int, n as int)),
        decreases n - i,
    {
        let ghost rest = cs@.subrange(i as int, n as int);
        assert(rest.drop_first() =~= cs@.subrange(i + 1, n as int));
        assert(cs@.subrange(0, i as int) + seq![cs@[i as int]] =~= cs@.subrange(0, i + 1));
        assert(cs@.subrange(0, i as int) + (seq![cs@[i as int]] + first_label(rest.drop_first()))
            =~= cs@.subrange(0, i + 1) + first_label(rest.drop_first()));
        i = i + 1;
    }
    assert(first_label(cs@.subrange(i as int, n as int)) =~= Seq::<char>::empty());
    assert(cs@.subrange(0, i as int) + Seq::<char>::empty() =~= cs@.subrange(0, i as int));
    let label = copy_range(&cs, 0, i);
    string_of(&label)
}

/// The site name of a URL: the first label of its host; `None` where the text
/// is no URL or the URL has no host.
pub fn parse_website_name(url: &str) -> (r: Option<String>)
    ensures
        opt_view(r) == website_name(url@),
{
    match parse_url(url) {
        Some(parts) => match parts.host {
            Some(h) => Some(first_host_label(h.as_str())),
            None => None,
        },
        None => None,
    }
}

/// Why a text is not an absolute web URL.
#[derive(PartialEq, Eq, Structural, Clone, Copy, Debug)]
pub enum UrlError {
    /// The text does not parse as a URL.
    InvalidFormat,
    /// The scheme is neither `http` nor `https`.
    UnsupportedScheme,
    /// The URL has no host.
    MissingHost,
}

/// The parts of the trimmed text where it is an `http` or `https` URL with a
/// host, or why it is not.
pub open spec fn web_url_check(s: Seq<char>) -> Result<(Seq<char>, Option<Seq<char>>), UrlError> {
    match url_parts_of(trim(s)) {
        None => Err(UrlError::InvalidFormat),
        Some(p) => if p.0 == "http"@ || p.0 == "https"@ {
            if p.1 is Some {
                Ok(p)
            } else {
                Err(UrlError::MissingHost)
            }
        } else {
            Err(UrlError::UnsupportedScheme)
        },
    }
}

pub open spec fn url_check_view(r: Result<UrlParts, UrlError>) -> Result<(Seq<char>, Option<Seq<char>>), UrlError> {
    match r {
        Ok(p) => Ok(p.view_parts()),
        Err(e) => Err(e),
    }
}

/// Whether the two character lists are equal.
fn chars_equal(a: &Vec<char>, b: &Vec<char>) -> (r: bool)
    ensures
        r == (a@ == b@),
{
    let r = a.len() == b.len() && starts_with_chars(a, b);
    proof {
        if a@.len() == b@.len() {
            assert(a@.subrange(0, b@.len() as int) =~= a@);
        }
    }
    r
}

/// The trimmed text as a URL, where it is an `http` or `https` URL with a
/// host; otherwise which of these it fails.
pub fn validate_url(input_url: &str) -> (r: Result<UrlParts, UrlError>)
    ensures
        url_check_view(r) == web_url_check(input_url@),
{
    let cs = chars_of(input_url);
    let t = trim_chars(&cs);
    let ts = string_of(&t);
    match parse_url(ts.as_str()) {
        None => Err(UrlError::InvalidFormat),
        Some(parts) => {
            let scheme = chars_of(parts.scheme.as_str());
            let http = chars_of("http");
            let https = chars_of("https");
            if chars_equal(&scheme, &http) || chars_equal(&scheme, &https) {
                if parts.host.is_some() {
                    Ok(parts)
                } else {
                    Err(UrlError::MissingHost)
                }
            } else {
                Err(UrlError::UnsupportedScheme)
            }
        },
    }
}

/// Whether the URL parses as it stands and, trimmed, starts with a supported origin.
pub fn validate_supported_url(input_url: &str) -> (r: bool)
    ensures
        r == (url_parts_of(input_url@) is Some && has_supported_origin(trim(input_url@))),
{
    let cs = chars_of(input_url);
    let t = trim_chars(&cs);
    match parse_url(input_url) {
        Some(_) => starts_with_supported_origin(&t),
        None => false,
    }
}

/// The site key of a URL, or why it is refused: `InvalidUrl` where the
/// trimmed text is no URL (or has no host), `UnsupportedDomain` where it does
/// not start with a supported origin.
pub fn resolve(url: &str) -> (r: Result<String, ResolveError>)
    ensures
        resolution_view(r) == resolution(url@),
{
    let cs = chars_of(url);
    let t = trim_chars(&cs);
    let ts = string_of(&t);
    match parse_url(ts.as_str()) {
        None => Err(ResolveError::InvalidUrl),
        Some(parts) => {
            if !starts_with_supported_origin(&t) {
                Err(ResolveError::UnsupportedDomain)
            } else {
                match parts.host {
                    Some(h) => Ok(first_host_label(h.as_str())),
                    None => Err(ResolveError::InvalidUrl),
                }
            }
        },
    }
}


/// Resolution is a function of the text alone: equal texts get the same site
/// key or the same refusal.
pub proof fn lemma_resolve_deterministic(a: Seq<char>, b: Seq<char>)
    requires
        a == b,
    ensures
        resolution(a) == resolution(b),
{
}

/// A URL that does not start with a supported origin is refused as an
/// unsupported domain.
pub proof fn lemma_outside_allow_list_unsupported(u: Seq<char>)
    requires
        url_parts_of(trim(u)) is Some,
        !has_supported_origin(trim(u)),
    ensures
        resolution(u) == Err::<Seq<char>, ResolveError>(ResolveError::UnsupportedDomain),
{
}

/// No text with the `http` scheme starts with a supported origin, whatever its host.
pub proof fn lemma_plain_http_not_supported(u: Seq<char>)
    requires
        has_prefix(u, "http://"@),
    ensures
        !has_supported_origin(u),
{
    reveal_strlit("http://");
    reveal_strlit("https://15gram.be/");
    reveal_strlit("https://dagelijksekost.vrt.be/");
    assert forall|i: int| 0 <= i < supported_origins().len() implies !has_prefix(
        u,
        #[trigger] supported_origins()[i],
    ) by {
        let o = supported_origins()[i];
        if has_prefix(u, o) {
            assert(u.subrange(0, o.len() as int)[4] == o[4]);
            assert(u.subrange(0, 7)[4] == u[4]);
        }
    }
}

} // verus!
