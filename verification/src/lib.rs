//! A pluggable authentication module that has an OpenID Connect provider
//! check a user's name and password.
//!
//! The library holds every decision of the module and none of its effects:
//! the host, the configuration file and the provider are reached by the
//! caller, which is told what to do next and reports back what happened.

use crate::constants::{PamFlag, PamResultCode};
use crate::host::{host_step, lemma_step_result_codes, HostAction, HostEvent, Invocation};
use vstd::prelude::*;

pub mod authtok;
pub mod config;
pub mod constants;
pub mod error;
pub mod host;
pub mod issuer;
pub mod model;
pub mod oidc;
pub mod yaml;

verus! {

/// The module, as the host sees it: one function for each entry point.
pub struct PamOidc {}

impl PamOidc {
    /// Authenticates the user of the host, one step at a time.
    ///
    /// The caller makes an `Invocation` for every call of the host, starts
    /// with `HostEvent::Invoked`, performs the action that comes back and
    /// reports what it gave, until the action is `HostAction::Return`. The
    /// code of that action is `PAM_SUCCESS`, `PAM_AUTH_ERR`,
    /// `PAM_AUTHINFO_UNAVAIL`, `PAM_AUTHTOK_ERR`, `PAM_OPEN_ERR` or
    /// `PAM_ABORT`.
    pub fn sm_authenticate(invocation: &mut Invocation, event: HostEvent) -> (action: HostAction)
        ensures
            (final(invocation)@, action@) == host_step(old(invocation)@, event@),
            action@.code() matches Some(code) ==> code.is_authentication_result(),
    {
        let mut stage = Invocation::Finished;
        core::mem::swap(invocation, &mut stage);
        proof {
            lemma_step_result_codes(stage@, event@);
        }
        let (next, action) = stage.step(event);
        *invocation = next;
        action
    }

    /// Leaves the credentials of the user as they are, whatever the host
    /// passes.
    pub fn sm_setcred(_args: Vec<Vec<u8>>, _flags: PamFlag) -> (r: PamResultCode)
        ensures
            r == PamResultCode::PAM_IGNORE,
    {
        PamResultCode::PAM_IGNORE
    }

    /// Leaves the authentication token of the user as it is, whatever the
    /// host passes.
    pub fn sm_chauthtok(_args: Vec<Vec<u8>>, _flags: PamFlag) -> (r: PamResultCode)
        ensures
            r == PamResultCode::PAM_IGNORE,
    {
        PamResultCode::PAM_IGNORE
    }

    /// Opens a session by authenticating the user once more.
    pub fn sm_open_session(invocation: &mut Invocation, event: HostEvent) -> (action: HostAction)
        ensures
            (final(invocation)@, action@) == host_step(old(invocation)@, event@),
            action@.code() matches Some(code) ==> code.is_authentication_result(),
    {
        Self::sm_authenticate(invocation, event)
    }

    /// Closes a session by authenticating the user once more.
    pub fn sm_close_session(invocation: &mut Invocation, event: HostEvent) -> (action: HostAction)
        ensures
            (final(invocation)@, action@) == host_step(old(invocation)@, event@),
            action@.code() matches Some(code) ==> code.is_authentication_result(),
    {
        Self::sm_authenticate(invocation, event)
    }
}

} // verus!
