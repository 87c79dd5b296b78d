use vstd::prelude::*;

verus! {

/// `http::Uri`: a parsed URI. It is carried as it is; nothing is known of
/// what it holds.
#[verifier::external_type_specification]
#[verifier::external_body]
pub struct ExUri(http::Uri);

/// `http::uri::InvalidUri`: why a text is no URI. It is only turned into
/// words.
#[verifier::external_type_specification]
#[verifier::external_body]
pub struct ExInvalidUri(http::uri::InvalidUri);

/// `http::Version`: a protocol version. It is carried as it is.
#[verifier::external_type_specification]
#[verifier::external_body]
pub struct ExVersion(http::Version);

/// `hyper::Body`: the body of a request. It is carried as it is.
#[verifier::external_type_specification]
#[verifier::external_body]
pub struct ExBody(hyper::Body);

/// The URI that `http` reads from a text, if it accepts the text as one.
pub uninterp spec fn uri_of(text: Seq<char>) -> Option<http::Uri>;

/// `str::parse::<http::Uri>`: reads a text as a URI. The result depends
/// on the text alone.
#[verifier::external_body]
pub(crate) fn parse_uri(text: &str) -> (r: Result<http::Uri, http::uri::InvalidUri>)
    ensures
        match r {
            Ok(uri) => uri_of(text@) == Some(uri),
            Err(_) => uri_of(text@) is None,
        },
{
    text.parse::<http::Uri>()
}

/// `ToString::to_string` of `http::uri::InvalidUri`: the reason why a
/// text is no URI, in words. Nothing is claimed of the words.
#[verifier::external_body]
pub(crate) fn describe_invalid_uri(error: http::uri::InvalidUri) -> String {
    error.to_string()
}

/// `hyper::Body::empty`: a body without content. Nothing is claimed of
/// it.
#[verifier::external_body]
pub(crate) fn empty_body() -> hyper::Body {
    hyper::Body::empty()
}

} // verus!
