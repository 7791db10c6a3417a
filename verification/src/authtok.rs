//! The host hands the authentication token over as bytes; the provider is
//! sent text. The standard library tells the two apart, and what this module
//! states of it is believed, not proved.

use crate::error::{text_outcome_view, PamOidcError, PamOidcErrorView};
use vstd::prelude::*;
use vstd::utf8::{decode_utf8, length_of_first_scalar, pop_first_scalar, valid_utf8};

verus! {

/// The account that the standard library gives of why `bytes` are not valid
/// UTF-8.
pub uninterp spec fn utf8_fault(bytes: Seq<u8>) -> Seq<char>;

/// Calls `String::from_utf8`.
///
/// Believed of the call: it succeeds exactly on bytes that are valid UTF-8
/// and then gives the text they encode; a failure comes with the text that
/// the standard library's error displays, which depends on the bytes alone
/// and is named `utf8_fault(bytes)`.
#[verifier::external_body]
fn string_from_utf8(bytes: Vec<u8>) -> (r: Result<String, String>)
    ensures
        r is Ok <==> valid_utf8(bytes@),
        r matches Ok(s) ==> s@ == decode_utf8(bytes@),
        r matches Err(e) ==> e@ == utf8_fault(bytes@),
{
    match String::from_utf8(bytes) {
        Ok(s) => Ok(s),
        Err(e) => Err(e.to_string()),
    }
}

/// The password that the token's bytes spell, or the failure that they are no
/// text.
pub open spec fn password_of(token: Seq<u8>) -> Result<Seq<char>, PamOidcErrorView> {
    if valid_utf8(token) {
        Ok(decode_utf8(token))
    } else {
        Err(PamOidcErrorView::Utf8Error(utf8_fault(token)))
    }
}

/// Reads the authentication token as text. Bytes that are valid UTF-8 give
/// the password they encode; any others give a `Utf8Error`.
pub fn decode_authtok(token: Vec<u8>) -> (r: Result<String, PamOidcError>)
    ensures
        text_outcome_view(r) == password_of(token@),
{
    match string_from_utf8(token) {
        Ok(password) => Ok(password),
        Err(fault) => Err(PamOidcError::Utf8Error(fault)),
    }
}

/// A token that holds the byte `0xFF` anywhere is no text, so reading it
/// gives a `Utf8Error`.
pub proof fn lemma_byte_ff_is_no_text(token: Seq<u8>, i: int)
    requires
        0 <= i < token.len(),
        token[i] == 0xFF,
    ensures
        !valid_utf8(token),
        password_of(token) is Err,
    decreases token.len(),
{
    if valid_utf8(token) {
        let first = length_of_first_scalar(token);
        if i >= first {
            let rest = pop_first_scalar(token);
            assert(rest[i - first] == token[i]);
            lemma_byte_ff_is_no_text(rest, i - first);
        }
    }
}

} // verus!
