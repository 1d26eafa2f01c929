//! URL parsing and joining, done by the `url` crate on serialized URLs.
use vstd::prelude::*;

verus! {

/// The serialization of the URL that `s` parses to, if it parses.
pub uninterp spec fn parsed_url(s: Seq<char>) -> Option<Seq<char>>;

/// The serialization of `rel` resolved against the URL that `base` parses to,
/// if both steps succeed.
pub uninterp spec fn joined_url(base: Seq<char>, rel: Seq<char>) -> Option<Seq<char>>;

/// The serialization of the URL that `url` parses to, with the pair
/// `name=value` appended to its query in `application/x-www-form-urlencoded`
/// form, if `url` parses.
pub uninterp spec fn url_with_pair(url: Seq<char>, name: Seq<char>, value: Seq<char>) -> Option<
    Seq<char>,
>;

/// Relies on `url::Url::parse`, serialized back with `From<Url> for String`:
/// the outcome depends on the input text alone.
#[verifier::external_body]
pub(crate) fn parse_url(s: &str) -> (r: core::result::Result<String, url::ParseError>)
    ensures
        r is Ok <==> parsed_url(s@) is Some,
        r is Ok ==> parsed_url(s@) == Some(r->Ok_0@),
{
    url::Url::parse(s).map(String::from)
}

/// Relies on `url::Url::join` (after `url::Url::parse` of the base), serialized
/// back with `From<Url> for String`: the outcome depends on the two texts alone.
#[verifier::external_body]
pub(crate) fn join_url(base: &str, rel: &str) -> (r: core::result::Result<String, url::ParseError>)
    ensures
        r is Ok <==> joined_url(base@, rel@) is Some,
        r is Ok ==> joined_url(base@, rel@) == Some(r->Ok_0@),
{
    let base = url::Url::parse(base)?;
    base.join(rel).map(String::from)
}

/// Relies on `url::Url::query_pairs_mut` and `append_pair` (after
/// `url::Url::parse`), serialized back with `From<Url> for String`: the
/// outcome depends on the three texts alone.
#[verifier::external_body]
pub(crate) fn append_query_pair(url: &str, name: &str, value: &str) -> (r: core::result::Result<
    String,
    url::ParseError,
>)
    ensures
        r is Ok <==> url_with_pair(url@, name@, value@) is Some,
        r is Ok ==> url_with_pair(url@, name@, value@) == Some(r->Ok_0@),
{
    let mut parsed = url::Url::parse(url)?;
    parsed.query_pairs_mut().append_pair(name, value);
    Ok(String::from(parsed))
}

} // verus!
