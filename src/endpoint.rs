use vstd::prelude::*;

verus! {

#[verifier::external_type_specification]
#[verifier::external_body]
pub struct ExUri(hyper::Uri);

#[verifier::external_type_specification]
#[verifier::external_body]
pub struct ExUriError(hyper::error::UriError);

/// Whether hyper's `Uri` parser accepts the text.
pub uninterp spec fn uri_accepts(s: Seq<char>) -> bool;

/// The address that the networked entry point fetches.
pub open spec fn endpoint_text() -> Seq<char> {
    "http://echo.jsontest.com/title/ipsum/content/blah"@
}

/// The address that the networked entry point fetches.
pub fn endpoint() -> (r: &'static str)
    ensures
        r@ == endpoint_text(),
{
    "http://echo.jsontest.com/title/ipsum/content/blah"
}

/// Relies on `<hyper::Uri as FromStr>::from_str`: whether it succeeds depends
/// on the text alone, and it refuses the empty text.
#[verifier::external_body]
fn parse_uri(s: &str) -> (r: Result<hyper::Uri, hyper::error::UriError>)
    ensures
        r is Ok <==> uri_accepts(s@),
        s@.len() == 0 ==> r is Err,
{
    s.parse::<hyper::Uri>()
}

/// The fetched address as a parsed URI, or hyper's reason for refusing it.
pub fn parse_endpoint() -> (r: Result<hyper::Uri, hyper::error::UriError>)
    ensures
        r is Ok <==> uri_accepts(endpoint_text()),
{
    parse_uri(endpoint())
}

} // verus!
