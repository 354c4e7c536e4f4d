//! Trusted bridge to the url crate: parsing a URL into the parts the
//! library's logic reads.

use vstd::prelude::*;

verus! {

/// Whether the url crate accepts `s` as an absolute URL.
pub uninterp spec fn url_ok(s: Seq<char>) -> bool;

/// The scheme of the parsed URL, without the trailing colon.
pub uninterp spec fn url_scheme(s: Seq<char>) -> Seq<char>;

/// The host of the parsed URL, if it has one.
pub uninterp spec fn url_host(s: Seq<char>) -> Option<Seq<char>>;

/// The path of the parsed URL.
pub uninterp spec fn url_path(s: Seq<char>) -> Seq<char>;

/// The ASCII serialization of the parsed URL's origin.
pub uninterp spec fn url_origin(s: Seq<char>) -> Seq<char>;

/// The parts of a parsed URL, as plain values.
pub struct UrlParts {
    pub scheme: String,
    pub host: Option<String>,
    pub path: String,
    pub origin: String,
}

/// Relies on url::Url::parse, which returns Ok exactly on the URLs the crate
/// accepts, and on Url::scheme, Url::host_str, Url::path and
/// Origin::ascii_serialization, each a function of the parsed text alone.
#[verifier::external_body]
pub fn parse_url_parts(s: &str) -> (r: Option<UrlParts>)
    ensures
        r is Some <==> url_ok(s@),
        r matches Some(p) ==> p.scheme@ == url_scheme(s@) && p.host.deep_view() == url_host(s@)
            && p.path@ == url_path(s@) && p.origin@ == url_origin(s@),
{
    match url::Url::parse(s) {
        Ok(u) => Some(
            UrlParts {
                scheme: u.scheme().to_string(),
                host: u.host_str().map(|h| h.to_string()),
                path: u.path().to_string(),
                origin: u.origin().ascii_serialization(),
            },
        ),
        Err(_) => None,
    }
}

} // verus!
