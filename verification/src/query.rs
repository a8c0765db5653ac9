//! Web addresses with a query: the text of the address is computed by the
//! `url` parser that `reqwest` re-exports.

use vstd::prelude::*;

verus! {

/// The address that `reqwest::Url::parse` reads from `base`, written out
/// again (`None` when it is not an address).
pub uninterp spec fn parsed_url_text(base: Seq<char>) -> Option<Seq<char>>;

/// The address read from `base` with each `(name, value)` of `pairs`
/// appended to its query, form-urlencoded and in order (`None` when `base`
/// is not an address).
pub uninterp spec fn url_with_query_text(
    base: Seq<char>,
    pairs: Seq<(Seq<char>, Seq<char>)>,
) -> Option<Seq<char>>;

/// Calls `reqwest::Url::parse` on `base` and writes the address out again.
/// Claims only that the text depends on `base` alone.
#[verifier::external_body]
fn parse_url(base: &str) -> (r: Option<String>)
    ensures
        r is Some <==> parsed_url_text(base@) is Some,
        r matches Some(u) ==> parsed_url_text(base@) == Some(u@),
{
    reqwest::Url::parse(base).ok().map(String::from)
}

/// Calls `reqwest::Url::parse` on `base`, then `query_pairs_mut().extend_pairs`
/// with `pairs`, and writes the address out. Claims only that the text
/// depends on `base` and on the pairs alone.
#[verifier::external_body]
fn parse_url_with_query(base: &str, pairs: &Vec<(String, String)>) -> (r: Option<String>)
    ensures
        r is Some <==> url_with_query_text(base@, pairs.deep_view()) is Some,
        r matches Some(u) ==> url_with_query_text(base@, pairs.deep_view()) == Some(u@),
{
    let mut url = reqwest::Url::parse(base).ok()?;
    url.query_pairs_mut().extend_pairs(pairs.iter());
    Some(String::from(url))
}

/// The address of `base` with `pairs` as its query; an address without a
/// query when there are no pairs.
pub open spec fn spec_request_url(base: Seq<char>, pairs: Seq<(Seq<char>, Seq<char>)>) -> Option<
    Seq<char>,
> {
    if pairs.len() == 0 {
        parsed_url_text(base)
    } else {
        url_with_query_text(base, pairs)
    }
}

/// The address of a request is what the parser gives for the base alone when
/// there are no pairs, and otherwise the base with every one of the pairs,
/// however many, appended to its query.
pub proof fn lemma_request_url(base: Seq<char>, pairs: Seq<(Seq<char>, Seq<char>)>)
    ensures
        pairs.len() == 0 ==> spec_request_url(base, pairs) == parsed_url_text(base),
        pairs.len() > 0 ==> spec_request_url(base, pairs) == url_with_query_text(base, pairs),
{
}

/// The address of `base` with `pairs` as its query, or `None` when `base`
/// is not an address. With no pairs the address gets no `?`.
pub fn request_url(base: &str, pairs: &Vec<(String, String)>) -> (r: Option<String>)
    ensures
        r is Some <==> spec_request_url(base@, pairs.deep_view()) is Some,
        r matches Some(u) ==> spec_request_url(base@, pairs.deep_view()) == Some(u@),
{
    if pairs.len() == 0 {
        parse_url(base)
    } else {
        parse_url_with_query(base, pairs)
    }
}

/// `(name, value)` as a pair of strings.
pub fn pair(name: &str, value: String) -> (p: (String, String))
    ensures
        p.deep_view() == (name@, value@),
{
    (name.to_owned(), value)
}

/// Appends the pair `(name, value)`.
pub fn push_pair(pairs: &mut Vec<(String, String)>, name: &str, value: String)
    ensures
        final(pairs).deep_view() == old(pairs).deep_view().push((name@, value@)),
{
    pairs.push(pair(name, value));
    proof {
        assert(final(pairs).deep_view() =~= old(pairs).deep_view().push((name@, value@)));
    }
}

} // verus!
