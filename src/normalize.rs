use url::{ParseError, Url};
use vstd::prelude::*;

verus! {

/// How an attempt to read a string as an absolute URL ended.
#[derive(Clone, Copy, Debug, PartialEq, Eq, Structural)]
pub enum ParseVerdict {
    /// The string is an absolute URL.
    Parsed,
    /// The string has no scheme, and there is no base to resolve it against.
    RelativeWithoutBase,
    /// The host looks like an IPv6 address but is not a valid one.
    InvalidIpv6,
    /// Any other parse failure.
    OtherError,
}

/// What `url::Url::parse` concludes about a string.
pub uninterp spec fn url_parse_verdict(s: Seq<char>) -> ParseVerdict;

/// The scheme that is assumed for a target given without one.
pub open spec fn https_prefix() -> Seq<char> {
    seq!['h', 't', 't', 'p', 's', ':', '/', '/']
}

/// The verdicts that mean the target lacks a scheme.
pub open spec fn lacks_scheme(v: ParseVerdict) -> bool {
    v == ParseVerdict::RelativeWithoutBase || v == ParseVerdict::InvalidIpv6
}

/// The target as it is probed, given the parser's verdict on it.
pub open spec fn normalized_for(s: Seq<char>, v: ParseVerdict) -> Seq<char> {
    if lacks_scheme(v) {
        https_prefix() + s
    } else {
        s
    }
}

/// The target as it is probed.
pub open spec fn normalized(s: Seq<char>) -> Seq<char> {
    normalized_for(s, url_parse_verdict(s))
}

/// Relies on `url::Url::parse`: its outcome depends on the string alone.
#[verifier::external_body]
fn url_verdict(s: &str) -> (r: ParseVerdict)
    ensures
        r == url_parse_verdict(s@),
{
    match Url::parse(s) {
        Ok(_) => ParseVerdict::Parsed,
        Err(ParseError::RelativeUrlWithoutBase) => ParseVerdict::RelativeWithoutBase,
        Err(ParseError::InvalidIpv6Address) => ParseVerdict::InvalidIpv6,
        Err(_) => ParseVerdict::OtherError,
    }
}

/// Puts `https://` in front of `url`.
pub fn normalize_missing_scheme_case(url: &str) -> (r: String)
    ensures
        r@ == https_prefix() + url@,
{
    proof {
        reveal_strlit("https://");
    }
    let mut r = String::from_str("https://");
    assert(r@ =~= https_prefix());
    r.append(url);
    r
}

/// The target as it is probed, once the parser's verdict on it is known:
/// with `https://` in front when the verdict says it lacks a scheme, and
/// unchanged otherwise.
pub fn normalize_with_verdict(url: &str, verdict: ParseVerdict) -> (r: String)
    ensures
        r@ == normalized_for(url@, verdict),
{
    if verdict == ParseVerdict::RelativeWithoutBase || verdict == ParseVerdict::InvalidIpv6 {
        normalize_missing_scheme_case(url)
    } else {
        String::from_str(url)
    }
}

/// Turns a user-supplied target into the URL that is probed. A target that
/// the parser rejects as a relative URL without a base, or for an invalid
/// IPv6 address, gets `https://` in front; every other target is passed
/// through unchanged. Nothing is validated further here: a target that is
/// still malformed fails later, when it is probed.
pub fn parse_url(url: &String) -> (r: String)
    ensures
        r@ == normalized(url@),
{
    let verdict = url_verdict(url.as_str());
    normalize_with_verdict(url.as_str(), verdict)
}

/// A target that the parser reads as having a scheme is left as it is.
pub proof fn lemma_scheme_present_unchanged(u: Seq<char>)
    requires
        !lacks_scheme(url_parse_verdict(u)),
    ensures
        normalized(u) == u,
{
}

/// Normalising twice is normalising once, whenever the normalised target
/// has a scheme in the parser's eyes.
pub proof fn lemma_normalize_idempotent(u: Seq<char>)
    requires
        !lacks_scheme(url_parse_verdict(normalized(u))),
    ensures
        normalized(normalized(u)) == normalized(u),
{
    lemma_scheme_present_unchanged(normalized(u));
}

} // verus!
