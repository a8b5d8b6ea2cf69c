//! Request addresses: a parsed `hyper::Uri` together with the text it was
//! parsed from. A [`RequestUri`] can only be had from [`parse_uri`], so its
//! source text always is the text its `Uri` was parsed from.

use vstd::prelude::*;

verus! {

/// `hyper::Uri`, the address of a request.
#[verifier::external_type_specification]
#[verifier::external_body]
pub struct ExUri(hyper::Uri);

/// `hyper::http::uri::InvalidUri`, the error of a text that is no URI.
#[verifier::external_type_specification]
#[verifier::external_body]
pub struct ExInvalidUri(hyper::http::uri::InvalidUri);

/// A name for whether `text.parse::<hyper::Uri>()` accepts a text.
pub uninterp spec fn uri_accepts(text: Seq<char>) -> bool;

/// The address of a request: a parsed `hyper::Uri` with the text it was
/// parsed from.
pub struct RequestUri {
    uri: hyper::Uri,
    text: String,
}

impl RequestUri {
    /// The text the address was parsed from.
    pub closed spec fn source(&self) -> Seq<char> {
        self.text@
    }

    /// The text the address was parsed from.
    pub fn as_str(&self) -> (s: &str)
        ensures
            s@ == self.source(),
    {
        self.text.as_str()
    }

    /// The parsed address. It is the parse of [`Self::source`]: only
    /// [`parse_uri`] makes a `RequestUri`.
    pub closed spec fn parsed(&self) -> hyper::Uri {
        self.uri
    }

    /// The parsed address, to send the request to.
    pub fn into_uri(self) -> (u: hyper::Uri)
        ensures
            u == self.parsed(),
    {
        self.uri
    }
}

/// Calls `str::parse::<hyper::Uri>` and keeps the text beside the result.
/// Trusted: the result is `Ok` exactly where [`uri_accepts`] holds, and then
/// holds the `Uri` parsed from `text`, whose source is `text`. What the
/// `Uri` holds beyond being that parse is left unsaid: the type has no view
/// here.
#[verifier::external_body]
pub(crate) fn parse_uri(text: &str) -> (res: Result<RequestUri, hyper::http::uri::InvalidUri>)
    ensures
        res is Ok <==> uri_accepts(text@),
        res matches Ok(p) ==> p.source() == text@,
{
    let uri = text.parse::<hyper::Uri>()?;
    Ok(RequestUri { uri, text: text.to_owned() })
}

} // verus!
