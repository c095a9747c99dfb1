//! The host that a request says it comes from: what is taken on trust from
//! `headers` and from the URI parser of `http`.

use vstd::prelude::*;
use crate::models::opt_text;

verus! {

/// The host named by the value of an `Origin` header, as
/// `headers::Origin::hostname` gives it: empty for the origin `null`, `None`
/// where the value is no origin.
pub uninterp spec fn origin_host(value: Seq<char>) -> Option<Seq<char>>;

/// The host of the URI in the value of a `Referer` header, as
/// `http::Uri::host` gives it: `None` where the value is no such header
/// value, no URI, or a URI without a host.
pub uninterp spec fn referer_host(value: Seq<char>) -> Option<Seq<char>>;

/// Decodes `value` as `headers::Origin` and takes its `hostname`.
#[verifier::external_body]
pub(crate) fn parse_origin_host(value: &str) -> (r: Option<String>)
    ensures
        opt_text(r) == origin_host(value@),
{
    let raw = headers::HeaderValue::from_str(value).ok()?;
    let origin = <headers::Origin as headers::Header>::decode(&mut std::iter::once(&raw)).ok()?;
    Some(origin.hostname().to_owned())
}

/// Reads `value` as `headers::Referer`, parses its text as `http::Uri` and
/// takes the `host` of that.
#[verifier::external_body]
pub(crate) fn parse_referer_host(value: &str) -> (r: Option<String>)
    ensures
        opt_text(r) == referer_host(value@),
{
    let referer: headers::Referer = value.parse().ok()?;
    let uri: axum::http::Uri = referer.to_string().parse().ok()?;
    uri.host().map(|h| h.to_owned())
}

} // verus!
