use vstd::prelude::*;

verus! {

/// What `url::Url::parse` makes of a string: `Some` of the parsed URL's
/// serialization when the string parses as an absolute URL, `None` otherwise.
pub uninterp spec fn url_norm(s: Seq<char>) -> Option<Seq<char>>;

/// A string is in canonical URL form when parsing it succeeds and gives the
/// string back unchanged.
pub open spec fn is_url(s: Seq<char>) -> bool {
    url_norm(s) == Some(s)
}

/// What `url::Url::set_path` followed by serialization makes of a canonical
/// URL and a path string.
pub uninterp spec fn url_with_path(u: Seq<char>, p: Seq<char>) -> Seq<char>;

/// What `url::Url::set_query` followed by serialization makes of a canonical
/// URL and a query string.
pub uninterp spec fn url_with_query(u: Seq<char>, q: Seq<char>) -> Seq<char>;

/// Relies on `url::Url::parse` and `Url::as_str`: whether parsing succeeds
/// depends on the characters alone, and the serialization of a parsed URL
/// parses back to the same URL (the crate's documented round trip).
#[verifier::external_body]
pub fn parse_url(s: &str) -> (r: Option<String>)
    ensures
        r is Some <==> url_norm(s@) is Some,
        r matches Some(u) ==> url_norm(s@) == Some(u@) && is_url(u@),
{
    match url::Url::parse(s) {
        Ok(u) => Some(String::from(u.as_str())),
        Err(_) => None,
    }
}

/// Relies on `url::Url::set_path`: the new serialization depends on the URL
/// and the path alone, and is itself a URL in canonical form.
#[verifier::external_body]
pub(crate) fn with_path(u: &str, p: &str) -> (r: String)
    requires
        is_url(u@),
    ensures
        r@ == url_with_path(u@, p@),
        is_url(r@),
{
    let mut parsed = url::Url::parse(u).expect("canonical URL");
    parsed.set_path(p);
    String::from(parsed.as_str())
}

/// Relies on `url::Url::set_query`: the new serialization depends on the URL
/// and the query alone, and is itself a URL in canonical form.
#[verifier::external_body]
pub(crate) fn with_query(u: &str, q: &str) -> (r: String)
    requires
        is_url(u@),
    ensures
        r@ == url_with_query(u@, q@),
        is_url(r@),
{
    let mut parsed = url::Url::parse(u).expect("canonical URL");
    parsed.set_query(Some(q));
    String::from(parsed.as_str())
}

} // verus!
