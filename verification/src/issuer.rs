//! The issuer is a URL, and `openidconnect` decides what a well-formed one
//! is. What this module states of it is believed, not proved.

use vstd::prelude::*;

verus! {

/// What reading `url` as an issuer URL gives: the scheme of the URL, in lower
/// case, or the parser's account of why `url` is not a well-formed URL.
pub uninterp spec fn issuer_scheme(url: Seq<char>) -> Result<Seq<char>, Seq<char>>;

/// Calls `openidconnect::IssuerUrl::new`, which parses its argument with
/// `url::Url::parse`, and reads the scheme of the parsed URL with
/// `url::Url::scheme`.
///
/// Believed of the calls: their outcome depends on `url` alone, which gives
/// it the name `issuer_scheme(url)`: the scheme where the URL is well-formed,
/// and else the text that `url::ParseError` displays.
#[verifier::external_body]
pub(crate) fn parse_issuer(url: &str) -> (r: Result<String, String>)
    ensures
        r is Ok <==> issuer_scheme(url@) is Ok,
        r matches Ok(scheme) ==> issuer_scheme(url@)->Ok_0 == scheme@,
        r matches Err(e) ==> issuer_scheme(url@)->Err_0 == e@,
{
    match openidconnect::IssuerUrl::new(url.to_owned()) {
        Ok(issuer) => Ok(issuer.url().scheme().to_owned()),
        Err(e) => Err(e.to_string()),
    }
}

} // verus!
