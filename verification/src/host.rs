//! One authentication call, as a dialogue between the module and its host.
//!
//! The module never touches the host, the file system or the network. It is
//! told what happened (`HostEvent`), says what is to be done next
//! (`HostAction`), and keeps between the two what it has learnt so far
//! (`Invocation`). Nothing outlives the call.

use crate::authtok::{decode_authtok, lemma_byte_ff_is_no_text, password_of};
use crate::config::{
    config_of_file,
    PamOidcConfig,
    PamOidcConfigView,
    PAM_OIDC_CONFIG,
};
use crate::constants::{PamFlag, PamResultCode};
use crate::error::{outcome_view, PamOidcError, PamOidcErrorView, TokenFailure, TokenFailureView};
use crate::model::{read_view, text_view};
use crate::oidc::{
    authenticate_step,
    discovery_view,
    issuer_usable,
    token_outcome,
    token_view,
    DiscoveryRequest,
    DiscoveryRequestView,
    OidcEvent,
    OidcEventView,
    OidcStep,
    OidcStepView,
    ProviderMetadata,
    ProviderMetadataView,
    TokenRequest,
    TokenRequestView,
};
use vstd::prelude::*;
use vstd::string::StringExecFns;
use vstd::utf8::valid_utf8;

verus! {

/// The summary of an authentication token that the host does not hold.
pub const NO_AUTHTOK: &'static str = "no authentication token";

/// The summary of an event that the invocation was not waiting for.
pub const UNEXPECTED_EVENT: &'static str = "event does not answer the pending action";

/// What happened at the host since the last action.
pub enum HostEvent {
    /// The host called the entry point, with its arguments and flags.
    Invoked { args: Vec<Vec<u8>>, flags: PamFlag },
    /// The host was asked for the user: it gave the name, or its own error.
    User(Result<String, PamResultCode>),
    /// The host was asked for the stored authentication token: it gave the
    /// token's bytes, or nothing because it holds none, or its own error.
    AuthTok(Result<Option<Vec<u8>>, PamResultCode>),
    /// The configuration file was read: to its text, or to the reason why it
    /// cannot be read.
    ConfigFile(Result<String, String>),
    /// The provider's metadata was asked for.
    Discovery(Result<ProviderMetadata, String>),
    /// The token request was sent.
    Token(Result<(), TokenFailure>),
}

/// The model of a `HostEvent`.
pub enum HostEventView {
    Invoked { args: Seq<Seq<u8>>, flags: PamFlag },
    User(Result<Seq<char>, PamResultCode>),
    AuthTok(Result<Option<Seq<u8>>, PamResultCode>),
    ConfigFile(Result<Seq<char>, Seq<char>>),
    Discovery(Result<ProviderMetadataView, Seq<char>>),
    Token(Result<(), TokenFailureView>),
}

/// The model of the host's answer about the user.
pub open spec fn user_view(reply: Result<String, PamResultCode>) -> Result<
    Seq<char>,
    PamResultCode,
> {
    match reply {
        Ok(user) => Ok(user@),
        Err(code) => Err(code),
    }
}

/// The model of the host's answer about the authentication token.
pub open spec fn authtok_view(reply: Result<Option<Vec<u8>>, PamResultCode>) -> Result<
    Option<Seq<u8>>,
    PamResultCode,
> {
    match reply {
        Ok(Some(token)) => Ok(Some(token@)),
        Ok(None) => Ok(None),
        Err(code) => Err(code),
    }
}

impl View for HostEvent {
    type V = HostEventView;

    open spec fn view(&self) -> HostEventView {
        match self {
            HostEvent::Invoked { args, flags } => HostEventView::Invoked {
                args: args.deep_view(),
                flags: *flags,
            },
            HostEvent::User(reply) => HostEventView::User(user_view(*reply)),
            HostEvent::AuthTok(reply) => HostEventView::AuthTok(authtok_view(*reply)),
            HostEvent::ConfigFile(file) => HostEventView::ConfigFile(read_view(*file)),
            HostEvent::Discovery(d) => HostEventView::Discovery(discovery_view(*d)),
            HostEvent::Token(t) => HostEventView::Token(token_view(*t)),
        }
    }
}

/// What the caller is to do next. Every action but `Return` is answered with
/// the event of the same name.
pub enum HostAction {
    /// Ask the host for the user, without a prompt.
    GetUser,
    /// Ask the host for the stored authentication token, without a prompt.
    GetAuthTok,
    /// Read the configuration file at `path`.
    ReadConfig { path: String },
    /// Fetch the provider's metadata.
    Discover(DiscoveryRequest),
    /// Send the token request.
    RequestToken(TokenRequest),
    /// Hand `code` back to the host; `diagnostic`, where there is one, goes
    /// to the host's log first.
    Return { code: PamResultCode, diagnostic: Option<String> },
}

/// The model of a `HostAction`.
pub enum HostActionView {
    GetUser,
    GetAuthTok,
    ReadConfig { path: Seq<char> },
    Discover(DiscoveryRequestView),
    RequestToken(TokenRequestView),
    Return { code: PamResultCode, diagnostic: Option<Seq<char>> },
}

impl View for HostAction {
    type V = HostActionView;

    open spec fn view(&self) -> HostActionView {
        match self {
            HostAction::GetUser => HostActionView::GetUser,
            HostAction::GetAuthTok => HostActionView::GetAuthTok,
            HostAction::ReadConfig { path } => HostActionView::ReadConfig { path: path@ },
            HostAction::Discover(request) => HostActionView::Discover(request@),
            HostAction::RequestToken(request) => HostActionView::RequestToken(request@),
            HostAction::Return { code, diagnostic } => HostActionView::Return {
                code: *code,
                diagnostic: text_view(*diagnostic),
            },
        }
    }
}

impl HostActionView {
    /// The result code that the action hands back to the host, if it does.
    pub open spec fn code(self) -> Option<PamResultCode> {
        match self {
            HostActionView::Return { code, .. } => Some(code),
            _ => None,
        }
    }

    /// Whether the action hands `result` back to the host.
    pub open spec fn hands_back(self, result: PamResultCode) -> bool {
        self.code() == Some(result)
    }

    /// What the action hands to the host's log, if anything.
    pub open spec fn logged(self) -> Option<Seq<char>> {
        match self {
            HostActionView::Return { diagnostic, .. } => diagnostic,
            HostActionView::Discover(request) => request.warning,
            _ => None,
        }
    }
}

/// How far one authentication call has come, with what it has learnt. The
/// password is held from the moment it is read as text until the token
/// request is handed out, and no longer. Neither an invocation nor an event
/// or action can be printed, since each may hold the password.
pub enum Invocation {
    /// The host has not called yet.
    Idle,
    /// The host was asked for the user.
    AwaitUser,
    /// The host was asked for the authentication token.
    AwaitAuthTok { user: String },
    /// The configuration file is being read.
    AwaitConfig { user: String, pass: String },
    /// The provider's metadata is being fetched.
    AwaitDiscovery { config: PamOidcConfig, user: String, pass: String },
    /// The token request is on its way.
    AwaitToken,
    /// The result code was handed back.
    Finished,
}

/// The model of an `Invocation`.
pub enum InvocationView {
    Idle,
    AwaitUser,
    AwaitAuthTok { user: Seq<char> },
    AwaitConfig { user: Seq<char>, pass: Seq<char> },
    AwaitDiscovery { config: PamOidcConfigView, user: Seq<char>, pass: Seq<char> },
    AwaitToken,
    Finished,
}

impl View for Invocation {
    type V = InvocationView;

    open spec fn view(&self) -> InvocationView {
        match self {
            Invocation::Idle => InvocationView::Idle,
            Invocation::AwaitUser => InvocationView::AwaitUser,
            Invocation::AwaitAuthTok { user } => InvocationView::AwaitAuthTok { user: user@ },
            Invocation::AwaitConfig { user, pass } => InvocationView::AwaitConfig {
                user: user@,
                pass: pass@,
            },
            Invocation::AwaitDiscovery { config, user, pass } => InvocationView::AwaitDiscovery {
                config: config@,
                user: user@,
                pass: pass@,
            },
            Invocation::AwaitToken => InvocationView::AwaitToken,
            Invocation::Finished => InvocationView::Finished,
        }
    }
}

/// The end of a call over a failure: its result code, and a diagnostic made
/// of `context` and the failure's own line.
pub open spec fn fail(context: Seq<char>, e: PamOidcErrorView) -> (InvocationView, HostActionView) {
    (
        InvocationView::Finished,
        HostActionView::Return { code: e.result_code(), diagnostic: Some(context + e.text()) },
    )
}

/// The end of a call over an answer that the host refused with `code`.
pub open spec fn refuse(result: PamResultCode, context: Seq<char>, code: PamResultCode) -> (
    InvocationView,
    HostActionView,
) {
    (
        InvocationView::Finished,
        HostActionView::Return { code: result, diagnostic: Some(context + code.name_text()) },
    )
}

/// What follows the host's answer about the user: the token is asked for, or
/// the call aborts.
pub open spec fn after_user(reply: Result<Seq<char>, PamResultCode>) -> (
    InvocationView,
    HostActionView,
) {
    match reply {
        Ok(user) => (InvocationView::AwaitAuthTok { user }, HostActionView::GetAuthTok),
        Err(code) => refuse(PamResultCode::PAM_ABORT, "unable to retrieve user: "@, code),
    }
}

/// What follows the host's answer about the authentication token: a token
/// that is text leads to the configuration file, and a token that is missing
/// or no text ends the call with `PAM_AUTHTOK_ERR`.
pub open spec fn after_authtok(user: Seq<char>, reply: Result<Option<Seq<u8>>, PamResultCode>) -> (
    InvocationView,
    HostActionView,
) {
    match reply {
        Err(code) => refuse(
            PamResultCode::PAM_AUTHTOK_ERR,
            "unable to retrieve password: "@,
            code,
        ),
        Ok(None) => (
            InvocationView::Finished,
            HostActionView::Return {
                code: PamResultCode::PAM_AUTHTOK_ERR,
                diagnostic: Some("unable to retrieve password: "@ + NO_AUTHTOK@),
            },
        ),
        Ok(Some(token)) => match password_of(token) {
            Err(e) => fail("unable to retrieve password: "@, e),
            Ok(pass) => (
                InvocationView::AwaitConfig { user, pass },
                HostActionView::ReadConfig { path: PAM_OIDC_CONFIG@ },
            ),
        },
    }
}

/// What follows a step of the provider's client: its request is passed on,
/// or its outcome ends the call. The password leaves the invocation with the
/// token request.
pub open spec fn after_client(
    config: PamOidcConfigView,
    user: Seq<char>,
    pass: Seq<char>,
    step: OidcStepView,
) -> (InvocationView, HostActionView) {
    match step {
        OidcStepView::Discover(request) => (
            InvocationView::AwaitDiscovery { config, user, pass },
            HostActionView::Discover(request),
        ),
        OidcStepView::RequestToken(request) => (
            InvocationView::AwaitToken,
            HostActionView::RequestToken(request),
        ),
        OidcStepView::Done(outcome) => finish(outcome),
    }
}

/// The end of a call over the outcome of the provider's client.
pub open spec fn finish(outcome: Result<PamResultCode, PamOidcErrorView>) -> (
    InvocationView,
    HostActionView,
) {
    match outcome {
        Err(e) => fail("unable to authorize user: "@, e),
        Ok(code) => (
            InvocationView::Finished,
            HostActionView::Return {
                code,
                diagnostic: if code == PamResultCode::PAM_SUCCESS {
                    None
                } else {
                    Some("unsuccessful authentication: "@ + code.name_text())
                },
            },
        ),
    }
}

/// What follows the reading of the configuration file: a record starts the
/// provider's client, and a failure of the loader ends the call.
pub open spec fn after_config(
    user: Seq<char>,
    pass: Seq<char>,
    file: Result<Seq<char>, Seq<char>>,
) -> (InvocationView, HostActionView) {
    match config_of_file(file) {
        Err(e) => fail("unable to read in config: "@, e),
        Ok(config) => after_client(
            config,
            user,
            pass,
            authenticate_step(config, user, pass, OidcEventView::Start),
        ),
    }
}

/// The end of a call over an event that does not answer the pending action.
pub open spec fn out_of_turn() -> (InvocationView, HostActionView) {
    fail(""@, PamOidcErrorView::Internal(UNEXPECTED_EVENT@))
}

/// One step of an authentication call: where the invocation stands after
/// `event`, and what is to be done next.
///
/// The order is fixed: the user, the authentication token, the configuration
/// file, discovery, the token request. Every failure on the way ends the call
/// with the result code of its kind.
pub open spec fn host_step(stage: InvocationView, event: HostEventView) -> (
    InvocationView,
    HostActionView,
) {
    match (stage, event) {
        (InvocationView::Idle, HostEventView::Invoked { .. }) => (
            InvocationView::AwaitUser,
            HostActionView::GetUser,
        ),
        (InvocationView::AwaitUser, HostEventView::User(reply)) => after_user(reply),
        (InvocationView::AwaitAuthTok { user }, HostEventView::AuthTok(reply)) => after_authtok(
            user,
            reply,
        ),
        (InvocationView::AwaitConfig { user, pass }, HostEventView::ConfigFile(file)) => {
            after_config(user, pass, file)
        },
        (
            InvocationView::AwaitDiscovery { config, user, pass },
            HostEventView::Discovery(discovery),
        ) => after_client(
            config,
            user,
            pass,
            authenticate_step(config, user, pass, OidcEventView::Discovery(discovery)),
        ),
        (InvocationView::AwaitToken, HostEventView::Token(reply)) => finish(token_outcome(reply)),
        _ => out_of_turn(),
    }
}

/// Ends a call over a failure.
fn fail_with(context: &str, e: PamOidcError) -> (r: (Invocation, HostAction))
    ensures
        (r.0@, r.1@) == fail(context@, e@),
{
    let code = e.result_code();
    let line = String::from_str(context).concat(e.to_string().as_str());
    (Invocation::Finished, HostAction::Return { code, diagnostic: Some(line) })
}

/// Ends a call over an answer that the host refused.
fn refuse_with(result: PamResultCode, context: &str, code: PamResultCode) -> (r: (
    Invocation,
    HostAction,
))
    ensures
        (r.0@, r.1@) == refuse(result, context@, code),
{
    let line = String::from_str(context).concat(code.name());
    (Invocation::Finished, HostAction::Return { code: result, diagnostic: Some(line) })
}

impl Invocation {
    /// An invocation that the host has not called yet.
    pub fn new() -> (r: Invocation)
        ensures
            r@ == InvocationView::Idle,
    {
        Invocation::Idle
    }

    /// Whether the result code was handed back.
    pub fn is_finished(&self) -> (r: bool)
        ensures
            r == (self@ == InvocationView::Finished),
    {
        match self {
            Invocation::Finished => true,
            _ => false,
        }
    }

    /// Ends a call over the outcome of the provider's client: the invocation
    /// is finished, and the action hands the outcome's result code back.
    pub fn finish(outcome: Result<PamResultCode, PamOidcError>) -> (r: (Invocation, HostAction))
        ensures
            (r.0@, r.1@) == finish(outcome_view(outcome)),
    {
        match outcome {
            Err(e) => fail_with("unable to authorize user: ", e),
            Ok(code) => {
                let diagnostic = if code.is_success() {
                    None
                } else {
                    Some(String::from_str("unsuccessful authentication: ").concat(code.name()))
                };
                (Invocation::Finished, HostAction::Return { code, diagnostic })
            },
        }
    }

    /// Passes a step of the provider's client on: a request becomes the
    /// action of the same name, and an outcome ends the call. `config`, `user`
    /// and `pass` are kept while discovery is under way and dropped with the
    /// token request.
    pub fn follow_client(config: PamOidcConfig, user: String, pass: String, step: OidcStep) -> (r: (
        Invocation,
        HostAction,
    ))
        ensures
            (r.0@, r.1@) == after_client(config@, user@, pass@, step@),
    {
        match step {
            OidcStep::Discover(request) => (
                Invocation::AwaitDiscovery { config, user, pass },
                HostAction::Discover(request),
            ),
            OidcStep::RequestToken(request) => (
                Invocation::AwaitToken,
                HostAction::RequestToken(request),
            ),
            OidcStep::Done(outcome) => Self::finish(outcome),
        }
    }

    /// Takes one step: consumes the invocation and the event, and gives the
    /// invocation as it stands now and the action to perform.
    pub fn step(self, event: HostEvent) -> (r: (Invocation, HostAction))
        ensures
            (r.0@, r.1@) == host_step(self@, event@),
    {
        match (self, event) {
            (Invocation::Idle, HostEvent::Invoked { .. }) => (
                Invocation::AwaitUser,
                HostAction::GetUser,
            ),
            (Invocation::AwaitUser, HostEvent::User(reply)) => match reply {
                Ok(user) => (Invocation::AwaitAuthTok { user }, HostAction::GetAuthTok),
                Err(code) => refuse_with(
                    PamResultCode::PAM_ABORT,
                    "unable to retrieve user: ",
                    code,
                ),
            },
            (Invocation::AwaitAuthTok { user }, HostEvent::AuthTok(reply)) => match reply {
                Err(code) => refuse_with(
                    PamResultCode::PAM_AUTHTOK_ERR,
                    "unable to retrieve password: ",
                    code,
                ),
                Ok(None) => {
                    let line = String::from_str("unable to retrieve password: ").concat(NO_AUTHTOK);
                    (
                        Invocation::Finished,
                        HostAction::Return {
                            code: PamResultCode::PAM_AUTHTOK_ERR,
                            diagnostic: Some(line),
                        },
                    )
                },
                Ok(Some(token)) => match decode_authtok(token) {
                    Err(e) => fail_with("unable to retrieve password: ", e),
                    Ok(pass) => (
                        Invocation::AwaitConfig { user, pass },
                        HostAction::ReadConfig { path: String::from_str(PAM_OIDC_CONFIG) },
                    ),
                },
            },
            (Invocation::AwaitConfig { user, pass }, HostEvent::ConfigFile(file)) => {
                match PamOidcConfig::new(file) {
                    Err(e) => fail_with("unable to read in config: ", e),
                    Ok(config) => {
                        let step = config.authenticate_user(
                            user.as_str(),
                            pass.as_str(),
                            OidcEvent::Start,
                        );
                        Self::follow_client(config, user, pass, step)
                    },
                }
            },
            (
                Invocation::AwaitDiscovery { config, user, pass },
                HostEvent::Discovery(discovery),
            ) => {
                let step = config.authenticate_user(
                    user.as_str(),
                    pass.as_str(),
                    OidcEvent::Discovery(discovery),
                );
                Self::follow_client(config, user, pass, step)
            },
            (Invocation::AwaitToken, HostEvent::Token(reply)) => Self::finish(
                PamOidcConfig::conclude(reply),
            ),
            _ => fail_with("", PamOidcError::Internal(String::from_str(UNEXPECTED_EVENT))),
        }
    }
}

/// Whatever the invocation holds and whatever happens, a result code that is
/// handed back is one of those of an authentication call.
pub proof fn lemma_step_result_codes(stage: InvocationView, event: HostEventView)
    ensures
        host_step(stage, event).1.code() matches Some(code) ==> code.is_authentication_result(),
{
}

/// A step hands a result code back exactly when it finishes the invocation,
/// and a finished invocation answers every event with `PAM_ABORT`.
pub proof fn lemma_return_finishes(stage: InvocationView, event: HostEventView)
    ensures
        host_step(stage, event).1 is Return <==> host_step(stage, event).0 is Finished,
        stage is Finished ==> host_step(stage, event).1.hands_back(PamResultCode::PAM_ABORT),
{
}

/// No failure goes unreported: a step that hands a result code back comes
/// with a line for the host's log unless the code is `PAM_SUCCESS`.
pub proof fn lemma_failures_are_logged(stage: InvocationView, event: HostEventView)
    ensures
        host_step(stage, event).1.code() matches Some(code) ==> (host_step(
            stage,
            event,
        ).1.logged() is None <==> code == PamResultCode::PAM_SUCCESS),
{
}

/// A configuration file that cannot be read ends the call with
/// `PAM_OPEN_ERR`, and one that was read and holds no configuration ends it
/// with `PAM_ABORT`.
pub proof fn lemma_config_failures(stage: InvocationView, file: Result<Seq<char>, Seq<char>>)
    requires
        stage is AwaitConfig,
    ensures
        file is Err ==> host_step(stage, HostEventView::ConfigFile(file)).1.hands_back(
            PamResultCode::PAM_OPEN_ERR,
        ),
        file is Ok && config_of_file(file) is Err ==> host_step(
            stage,
            HostEventView::ConfigFile(file),
        ).1.hands_back(PamResultCode::PAM_ABORT),
{
}

/// An authentication token that is missing or is no text ends the call with
/// `PAM_AUTHTOK_ERR` on the spot: no file is read and no request is made.
pub proof fn lemma_unusable_authtok(
    stage: InvocationView,
    reply: Result<Option<Seq<u8>>, PamResultCode>,
)
    requires
        stage is AwaitAuthTok,
        !(reply matches Ok(Some(token)) && valid_utf8(token)),
    ensures
        host_step(stage, HostEventView::AuthTok(reply)).1.hands_back(PamResultCode::PAM_AUTHTOK_ERR),
{
}

/// A token that holds the byte `0xFF` ends the call with `PAM_AUTHTOK_ERR`
/// before any file is read or any request is made.
pub proof fn lemma_byte_ff_ends_the_call(stage: InvocationView, token: Seq<u8>, i: int)
    requires
        stage is AwaitAuthTok,
        0 <= i < token.len(),
        token[i] == 0xFF,
    ensures
        host_step(stage, HostEventView::AuthTok(Ok(Some(token)))).1.hands_back(
            PamResultCode::PAM_AUTHTOK_ERR,
        ),
{
    lemma_byte_ff_is_no_text(token, i);
}

/// The actions come in one order: the user, the authentication token, the
/// configuration file, discovery, the token request. Each is asked for from
/// the stage before it and leads to the stage that waits for its answer.
pub proof fn lemma_fixed_order(stage: InvocationView, event: HostEventView)
    ensures
        host_step(stage, event).1 is GetUser ==> stage is Idle && host_step(stage, event).0
            is AwaitUser,
        host_step(stage, event).1 is GetAuthTok ==> stage is AwaitUser && host_step(stage, event).0
            is AwaitAuthTok,
        host_step(stage, event).1 is ReadConfig ==> stage is AwaitAuthTok && host_step(
            stage,
            event,
        ).0 is AwaitConfig,
        host_step(stage, event).1 is Discover ==> stage is AwaitConfig && host_step(stage, event).0
            is AwaitDiscovery,
        host_step(stage, event).1 is RequestToken ==> stage is AwaitDiscovery && host_step(
            stage,
            event,
        ).0 is AwaitToken,
{
}

impl InvocationView {
    /// The invocation with `pass` in the place of the password it holds; an
    /// invocation that holds none stays as it is.
    pub open spec fn with_password(self, pass: Seq<char>) -> InvocationView {
        match self {
            InvocationView::AwaitConfig { user, .. } => InvocationView::AwaitConfig { user, pass },
            InvocationView::AwaitDiscovery { config, user, .. } => InvocationView::AwaitDiscovery {
                config,
                user,
                pass,
            },
            other => other,
        }
    }
}

/// What a step hands to the host's log does not depend on the password that
/// the invocation holds.
pub proof fn lemma_password_not_logged(
    stage: InvocationView,
    event: HostEventView,
    pass: Seq<char>,
)
    ensures
        host_step(stage.with_password(pass), event).1.logged() == host_step(
            stage,
            event,
        ).1.logged(),
{
}

/// What the caller of one authentication call learns on the way, in the
/// order in which it is asked for. An answer that is never asked for is not
/// looked at.
pub struct Transcript {
    pub user: Result<Seq<char>, PamResultCode>,
    pub authtok: Result<Option<Seq<u8>>, PamResultCode>,
    pub file: Result<Seq<char>, Seq<char>>,
    pub discovery: Result<ProviderMetadataView, Seq<char>>,
    pub token: Result<(), TokenFailureView>,
}

impl Transcript {
    /// The events that the answers make, from the host's call on.
    pub open spec fn events(self, args: Seq<Seq<u8>>, flags: PamFlag) -> Seq<HostEventView> {
        seq![
            HostEventView::Invoked { args, flags },
            HostEventView::User(self.user),
            HostEventView::AuthTok(self.authtok),
            HostEventView::ConfigFile(self.file),
            HostEventView::Discovery(self.discovery),
            HostEventView::Token(self.token),
        ]
    }

    /// The result code of the call, read off the answers: the first answer
    /// that stops the call decides, and where none does the user is
    /// authenticated.
    pub open spec fn outcome(self) -> PamResultCode {
        if self.user is Err {
            PamResultCode::PAM_ABORT
        } else if !(self.authtok matches Ok(Some(token)) && valid_utf8(token)) {
            PamResultCode::PAM_AUTHTOK_ERR
        } else if self.file is Err {
            PamResultCode::PAM_OPEN_ERR
        } else if config_of_file(self.file) is Err {
            PamResultCode::PAM_ABORT
        } else if !issuer_usable(config_of_file(self.file)->Ok_0.issuer_url) {
            PamResultCode::PAM_ABORT
        } else if !(self.discovery matches Ok(metadata) && metadata.issuer == config_of_file(
            self.file,
        )->Ok_0.issuer_url) {
            PamResultCode::PAM_AUTHINFO_UNAVAIL
        } else if self.discovery->Ok_0.token_endpoint is None || self.token is Err {
            PamResultCode::PAM_AUTH_ERR
        } else {
            PamResultCode::PAM_SUCCESS
        }
    }
}

/// The first result code that is handed back when the steps are taken from
/// `stage` on with `events`, one after the other.
pub open spec fn first_return(stage: InvocationView, events: Seq<HostEventView>) -> Option<
    PamResultCode,
>
    decreases events.len(),
{
    if events.len() == 0 {
        None
    } else {
        match host_step(stage, events[0]).1.code() {
            Some(code) => Some(code),
            None => first_return(host_step(stage, events[0]).0, events.drop_first()),
        }
    }
}

/// A call that is taken step by step hands back the result code that its
/// answers spell, whatever the arguments and flags of the host.
pub proof fn lemma_call_outcome(t: Transcript, args: Seq<Seq<u8>>, flags: PamFlag)
    ensures
        first_return(InvocationView::Idle, t.events(args, flags)) == Some(t.outcome()),
{
    reveal_with_fuel(first_return, 7);
}

} // verus!
