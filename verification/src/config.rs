//! The configuration record of the relying party and its loader.

use crate::error::{text_outcome_view, PamOidcError, PamOidcErrorView};
use crate::model::{read_view, text_view};
use crate::yaml::{read_document, text_entry, yaml_document};
use vstd::prelude::*;
use vstd::string::StringExecFns;

verus! {

/// The path of the configuration file. The host adapter reads it anew for
/// every authentication call.
pub const PAM_OIDC_CONFIG: &'static str = "/etc/pam_oidc/config.yaml";

/// The identity of the relying party and the issuer it trusts. A record holds
/// three non-empty texts; it is made by the loader and never changed. It
/// holds the client's secret and so cannot be printed.
pub struct PamOidcConfig {
    client_id: String,
    client_secret: String,
    issuer_url: String,
}

/// The model of a `PamOidcConfig`.
pub struct PamOidcConfigView {
    pub client_id: Seq<char>,
    pub client_secret: Seq<char>,
    pub issuer_url: Seq<char>,
}

impl PamOidcConfigView {
    /// No field is empty.
    pub open spec fn wf(self) -> bool {
        self.client_id.len() > 0 && self.client_secret.len() > 0 && self.issuer_url.len() > 0
    }
}

impl View for PamOidcConfig {
    type V = PamOidcConfigView;

    closed spec fn view(&self) -> PamOidcConfigView {
        PamOidcConfigView {
            client_id: self.client_id@,
            client_secret: self.client_secret@,
            issuer_url: self.issuer_url@,
        }
    }
}

/// The summary of a failure over a field that the file does not hold.
pub open spec fn missing_field(name: Seq<char>) -> Seq<char> {
    "missing field `"@ + name + "`"@
}

/// The summary of a failure over a field that the file holds empty.
pub open spec fn empty_field(name: Seq<char>) -> Seq<char> {
    "empty field `"@ + name + "`"@
}

/// A field of the record: the value that the file gives under `name`, which
/// has to be there and must not be empty.
pub open spec fn required_field(name: Seq<char>, value: Option<Seq<char>>) -> Result<
    Seq<char>,
    PamOidcErrorView,
> {
    match value {
        None => Err(PamOidcErrorView::ConfigUnmarshalError(missing_field(name))),
        Some(v) => if v.len() == 0 {
            Err(PamOidcErrorView::ConfigUnmarshalError(empty_field(name)))
        } else {
            Ok(v)
        },
    }
}

/// The record that three values found in a file make. The fields are looked
/// at in the order in which the record names them, and the first one that is
/// missing or empty decides the failure.
pub open spec fn config_of_fields(
    client_id: Option<Seq<char>>,
    client_secret: Option<Seq<char>>,
    issuer_url: Option<Seq<char>>,
) -> Result<PamOidcConfigView, PamOidcErrorView> {
    match required_field("client_id"@, client_id) {
        Err(e) => Err(e),
        Ok(id) => match required_field("client_secret"@, client_secret) {
            Err(e) => Err(e),
            Ok(secret) => match required_field("issuer_url"@, issuer_url) {
                Err(e) => Err(e),
                Ok(issuer) => Ok(
                    PamOidcConfigView { client_id: id, client_secret: secret, issuer_url: issuer },
                ),
            },
        },
    }
}

/// The text that a document holds under `key`, if any.
pub open spec fn entry_of(doc: Map<Seq<char>, Seq<char>>, key: Seq<char>) -> Option<Seq<char>> {
    if doc.dom().contains(key) {
        Some(doc[key])
    } else {
        None
    }
}

/// The record that the text of a configuration file makes: the text has to be
/// a YAML document, and the three keys of the record are read from it. Any
/// other key is passed over.
pub open spec fn config_of_text(text: Seq<char>) -> Result<PamOidcConfigView, PamOidcErrorView> {
    match yaml_document(text) {
        Err(e) => Err(PamOidcErrorView::ConfigUnmarshalError(e)),
        Ok(doc) => config_of_fields(
            entry_of(doc, "client_id"@),
            entry_of(doc, "client_secret"@),
            entry_of(doc, "issuer_url"@),
        ),
    }
}

/// The record that an attempt to read the configuration file makes. `file` is
/// the text of the file, or the reason why it could not be read.
pub open spec fn config_of_file(file: Result<Seq<char>, Seq<char>>) -> Result<
    PamOidcConfigView,
    PamOidcErrorView,
> {
    match file {
        Err(e) => Err(PamOidcErrorView::ConfigRetrievalError(e)),
        Ok(text) => config_of_text(text),
    }
}

/// The model of what the loader returns.
pub open spec fn loaded_view(r: Result<PamOidcConfig, PamOidcError>) -> Result<
    PamOidcConfigView,
    PamOidcErrorView,
> {
    match r {
        Ok(c) => Ok(c@),
        Err(e) => Err(e@),
    }
}

/// Checks one field of the record.
fn require_field(name: &str, value: Option<String>) -> (r: Result<String, PamOidcError>)
    ensures
        text_outcome_view(r) == required_field(name@, text_view(value)),
{
    match value {
        None => {
            let summary = String::from_str("missing field `").concat(name).concat("`");
            Err(PamOidcError::ConfigUnmarshalError(summary))
        },
        Some(v) => {
            if v.as_str().is_empty() {
                let summary = String::from_str("empty field `").concat(name).concat("`");
                Err(PamOidcError::ConfigUnmarshalError(summary))
            } else {
                Ok(v)
            }
        },
    }
}

impl PamOidcConfig {
    /// Every record that exists has three non-empty fields.
    #[verifier::type_invariant]
    spec fn fields_present(self) -> bool {
        self@.wf()
    }

    /// Loads the record from what reading the configuration file gave: the
    /// text of the file, or the reason why it could not be read. A file that
    /// could not be read is a `ConfigRetrievalError`; a text that is no YAML
    /// document, or that lacks one of the three fields or holds it empty, is a
    /// `ConfigUnmarshalError`.
    pub fn new(file: Result<String, String>) -> (r: Result<PamOidcConfig, PamOidcError>)
        ensures
            loaded_view(r) == config_of_file(read_view(file)),
    {
        match file {
            Err(reason) => Err(PamOidcError::ConfigRetrievalError(reason)),
            Ok(text) => Self::from_text(text.as_str()),
        }
    }

    /// Loads the record from the text of a configuration file.
    pub fn from_text(text: &str) -> (r: Result<PamOidcConfig, PamOidcError>)
        ensures
            loaded_view(r) == config_of_text(text@),
    {
        match read_document(text) {
            Err(fault) => Err(PamOidcError::ConfigUnmarshalError(fault)),
            Ok(doc) => {
                let client_id = text_entry(&doc, "client_id");
                let client_secret = text_entry(&doc, "client_secret");
                let issuer_url = text_entry(&doc, "issuer_url");
                Self::from_fields(client_id, client_secret, issuer_url)
            },
        }
    }

    /// Makes the record of the three values that a configuration file gave,
    /// each of which may be missing.
    pub fn from_fields(
        client_id: Option<String>,
        client_secret: Option<String>,
        issuer_url: Option<String>,
    ) -> (r: Result<PamOidcConfig, PamOidcError>)
        ensures
            loaded_view(r) == config_of_fields(
                text_view(client_id),
                text_view(client_secret),
                text_view(issuer_url),
            ),
    {
        let client_id = match require_field("client_id", client_id) {
            Ok(v) => v,
            Err(e) => {
                return Err(e);
            },
        };
        let client_secret = match require_field("client_secret", client_secret) {
            Ok(v) => v,
            Err(e) => {
                return Err(e);
            },
        };
        let issuer_url = match require_field("issuer_url", issuer_url) {
            Ok(v) => v,
            Err(e) => {
                return Err(e);
            },
        };
        Ok(PamOidcConfig { client_id, client_secret, issuer_url })
    }

    /// The identifier of the relying party.
    pub fn client_id(&self) -> (r: &str)
        ensures
            r@ == self@.client_id,
            self@.wf(),
    {
        proof {
            use_type_invariant(self);
        }
        self.client_id.as_str()
    }

    /// The secret that the relying party shares with the provider.
    pub fn client_secret(&self) -> (r: &str)
        ensures
            r@ == self@.client_secret,
            self@.wf(),
    {
        proof {
            use_type_invariant(self);
        }
        self.client_secret.as_str()
    }

    /// Whether `issuer` is the configured issuer, letter for letter.
    pub fn issuer_is(&self, issuer: &String) -> (r: bool)
        ensures
            r == (issuer@ == self@.issuer_url),
    {
        self.issuer_url == *issuer
    }

    /// The issuer, as the configuration file spells it.
    pub fn issuer_url(&self) -> (r: &str)
        ensures
            r@ == self@.issuer_url,
            self@.wf(),
    {
        proof {
            use_type_invariant(self);
        }
        self.issuer_url.as_str()
    }
}

/// A record that the loader made has no empty field.
pub proof fn lemma_loaded_is_well_formed(file: Result<Seq<char>, Seq<char>>)
    ensures
        config_of_file(file) matches Ok(config) ==> config.wf(),
{
}

/// A file that could not be read never makes a record, and its failure is a
/// `ConfigRetrievalError` with the reason given; a file that was read never
/// fails so.
pub proof fn lemma_unread_file(file: Result<Seq<char>, Seq<char>>)
    ensures
        file matches Err(reason) ==> config_of_file(file) == Err::<
            PamOidcConfigView,
            PamOidcErrorView,
        >(PamOidcErrorView::ConfigRetrievalError(reason)),
        file is Ok ==> !(config_of_file(file) matches Err(
            PamOidcErrorView::ConfigRetrievalError(_),
        )),
{
}

/// A file that was read and makes no record fails as a
/// `ConfigUnmarshalError`.
pub proof fn lemma_malformed_file(text: Seq<char>)
    ensures
        config_of_text(text) matches Err(e) ==> e is ConfigUnmarshalError,
{
}

} // verus!
