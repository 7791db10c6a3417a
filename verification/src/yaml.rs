//! The configuration file's format is YAML, and `serde_yaml` reads it. What
//! this module states of `serde_yaml` is believed, not proved.

use vstd::prelude::*;

verus! {

/// A YAML document as `serde_yaml` holds it. The proofs see nothing inside
/// it; what they know of it goes by `yaml_strings`.
#[verifier::external_type_specification]
#[verifier::external_body]
pub struct ExValue(serde_yaml::Value);

/// The text entries of a YAML document: where the document, any tags taken
/// off, is a mapping, every key that is a string and whose value, any tags
/// taken off, is a string, with that value. Any other document has none.
pub uninterp spec fn yaml_strings(doc: serde_yaml::Value) -> Map<Seq<char>, Seq<char>>;

/// What reading `text` as one YAML document gives: the text entries of the
/// document, or the parser's account of why `text` is no such document.
pub uninterp spec fn yaml_document(text: Seq<char>) -> Result<
    Map<Seq<char>, Seq<char>>,
    Seq<char>,
>;

/// Calls `serde_yaml::from_str` to read `text` as one `serde_yaml::Value`.
///
/// Believed of the call: its outcome depends on `text` alone, which gives it
/// the name `yaml_document(text)`. A document that was read holds the text
/// entries of that name, and a failure comes with the text that
/// `serde_yaml::Error` displays.
#[verifier::external_body]
pub(crate) fn read_document(text: &str) -> (r: Result<serde_yaml::Value, String>)
    ensures
        r is Ok <==> yaml_document(text@) is Ok,
        r matches Ok(doc) ==> yaml_document(text@)->Ok_0 == yaml_strings(doc),
        r matches Err(e) ==> yaml_document(text@)->Err_0 == e@,
{
    match serde_yaml::from_str::<serde_yaml::Value>(text) {
        Ok(doc) => Ok(doc),
        Err(e) => Err(e.to_string()),
    }
}

/// Calls `serde_yaml::Value::get` with the key `key` and
/// `serde_yaml::Value::as_str` on what it finds.
///
/// Believed of the calls: `get` looks the string key up in a mapping and
/// finds nothing in any other document; `as_str` gives the text of a string
/// and nothing for any other value; both take tags off first. So the result
/// is the text entry of `doc` under `key`, where there is one.
#[verifier::external_body]
pub(crate) fn text_entry(doc: &serde_yaml::Value, key: &str) -> (r: Option<String>)
    ensures
        r is Some <==> yaml_strings(*doc).dom().contains(key@),
        r matches Some(s) ==> s@ == yaml_strings(*doc)[key@],
{
    let value = doc.get(key)?;
    let text = value.as_str()?;
    Some(text.to_owned())
}

} // verus!
