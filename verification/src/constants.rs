//! The host framework's result codes and flag word.

use vstd::prelude::*;

verus! {

/// The flag word that the host passes to every entry point.
pub type PamFlag = u32;

/// A result code of the host framework, under the host's own names.
///
/// `code` gives the number that crosses the module boundary and `from_code`
/// reads one back; the two are inverse to each other.
#[allow(non_camel_case_types)]
#[derive(Debug, Clone, Copy, PartialEq, Eq, Structural)]
pub enum PamResultCode {
    PAM_SUCCESS,
    PAM_OPEN_ERR,
    PAM_SYMBOL_ERR,
    PAM_SERVICE_ERR,
    PAM_SYSTEM_ERR,
    PAM_BUF_ERR,
    PAM_PERM_DENIED,
    PAM_AUTH_ERR,
    PAM_CRED_INSUFFICIENT,
    PAM_AUTHINFO_UNAVAIL,
    PAM_USER_UNKNOWN,
    PAM_MAXTRIES,
    PAM_NEW_AUTHTOK_REQD,
    PAM_ACCT_EXPIRED,
    PAM_SESSION_ERR,
    PAM_CRED_UNAVAIL,
    PAM_CRED_EXPIRED,
    PAM_CRED_ERR,
    PAM_NO_MODULE_DATA,
    PAM_CONV_ERR,
    PAM_AUTHTOK_ERR,
    PAM_AUTHTOK_RECOVERY_ERR,
    PAM_AUTHTOK_LOCK_BUSY,
    PAM_AUTHTOK_DISABLE_AGING,
    PAM_TRY_AGAIN,
    PAM_IGNORE,
    PAM_ABORT,
    PAM_AUTHTOK_EXPIRED,
    PAM_MODULE_UNKNOWN,
    PAM_BAD_ITEM,
    PAM_CONV_AGAIN,
    PAM_INCOMPLETE,
}

impl PamResultCode {
    /// The number that the host framework assigns to the code.
    pub open spec fn code_value(self) -> int {
        match self {
            PamResultCode::PAM_SUCCESS => 0,
            PamResultCode::PAM_OPEN_ERR => 1,
            PamResultCode::PAM_SYMBOL_ERR => 2,
            PamResultCode::PAM_SERVICE_ERR => 3,
            PamResultCode::PAM_SYSTEM_ERR => 4,
            PamResultCode::PAM_BUF_ERR => 5,
            PamResultCode::PAM_PERM_DENIED => 6,
            PamResultCode::PAM_AUTH_ERR => 7,
            PamResultCode::PAM_CRED_INSUFFICIENT => 8,
            PamResultCode::PAM_AUTHINFO_UNAVAIL => 9,
            PamResultCode::PAM_USER_UNKNOWN => 10,
            PamResultCode::PAM_MAXTRIES => 11,
            PamResultCode::PAM_NEW_AUTHTOK_REQD => 12,
            PamResultCode::PAM_ACCT_EXPIRED => 13,
            PamResultCode::PAM_SESSION_ERR => 14,
            PamResultCode::PAM_CRED_UNAVAIL => 15,
            PamResultCode::PAM_CRED_EXPIRED => 16,
            PamResultCode::PAM_CRED_ERR => 17,
            PamResultCode::PAM_NO_MODULE_DATA => 18,
            PamResultCode::PAM_CONV_ERR => 19,
            PamResultCode::PAM_AUTHTOK_ERR => 20,
            PamResultCode::PAM_AUTHTOK_RECOVERY_ERR => 21,
            PamResultCode::PAM_AUTHTOK_LOCK_BUSY => 22,
            PamResultCode::PAM_AUTHTOK_DISABLE_AGING => 23,
            PamResultCode::PAM_TRY_AGAIN => 24,
            PamResultCode::PAM_IGNORE => 25,
            PamResultCode::PAM_ABORT => 26,
            PamResultCode::PAM_AUTHTOK_EXPIRED => 27,
            PamResultCode::PAM_MODULE_UNKNOWN => 28,
            PamResultCode::PAM_BAD_ITEM => 29,
            PamResultCode::PAM_CONV_AGAIN => 30,
            PamResultCode::PAM_INCOMPLETE => 31,
        }
    }

    /// The host's name of the code, as it appears in diagnostics.
    pub open spec fn name_text(self) -> Seq<char> {
        match self {
            PamResultCode::PAM_SUCCESS => "PAM_SUCCESS"@,
            PamResultCode::PAM_OPEN_ERR => "PAM_OPEN_ERR"@,
            PamResultCode::PAM_SYMBOL_ERR => "PAM_SYMBOL_ERR"@,
            PamResultCode::PAM_SERVICE_ERR => "PAM_SERVICE_ERR"@,
            PamResultCode::PAM_SYSTEM_ERR => "PAM_SYSTEM_ERR"@,
            PamResultCode::PAM_BUF_ERR => "PAM_BUF_ERR"@,
            PamResultCode::PAM_PERM_DENIED => "PAM_PERM_DENIED"@,
            PamResultCode::PAM_AUTH_ERR => "PAM_AUTH_ERR"@,
            PamResultCode::PAM_CRED_INSUFFICIENT => "PAM_CRED_INSUFFICIENT"@,
            PamResultCode::PAM_AUTHINFO_UNAVAIL => "PAM_AUTHINFO_UNAVAIL"@,
            PamResultCode::PAM_USER_UNKNOWN => "PAM_USER_UNKNOWN"@,
            PamResultCode::PAM_MAXTRIES => "PAM_MAXTRIES"@,
            PamResultCode::PAM_NEW_AUTHTOK_REQD => "PAM_NEW_AUTHTOK_REQD"@,
            PamResultCode::PAM_ACCT_EXPIRED => "PAM_ACCT_EXPIRED"@,
            PamResultCode::PAM_SESSION_ERR => "PAM_SESSION_ERR"@,
            PamResultCode::PAM_CRED_UNAVAIL => "PAM_CRED_UNAVAIL"@,
            PamResultCode::PAM_CRED_EXPIRED => "PAM_CRED_EXPIRED"@,
            PamResultCode::PAM_CRED_ERR => "PAM_CRED_ERR"@,
            PamResultCode::PAM_NO_MODULE_DATA => "PAM_NO_MODULE_DATA"@,
            PamResultCode::PAM_CONV_ERR => "PAM_CONV_ERR"@,
            PamResultCode::PAM_AUTHTOK_ERR => "PAM_AUTHTOK_ERR"@,
            PamResultCode::PAM_AUTHTOK_RECOVERY_ERR => "PAM_AUTHTOK_RECOVERY_ERR"@,
            PamResultCode::PAM_AUTHTOK_LOCK_BUSY => "PAM_AUTHTOK_LOCK_BUSY"@,
            PamResultCode::PAM_AUTHTOK_DISABLE_AGING => "PAM_AUTHTOK_DISABLE_AGING"@,
            PamResultCode::PAM_TRY_AGAIN => "PAM_TRY_AGAIN"@,
            PamResultCode::PAM_IGNORE => "PAM_IGNORE"@,
            PamResultCode::PAM_ABORT => "PAM_ABORT"@,
            PamResultCode::PAM_AUTHTOK_EXPIRED => "PAM_AUTHTOK_EXPIRED"@,
            PamResultCode::PAM_MODULE_UNKNOWN => "PAM_MODULE_UNKNOWN"@,
            PamResultCode::PAM_BAD_ITEM => "PAM_BAD_ITEM"@,
            PamResultCode::PAM_CONV_AGAIN => "PAM_CONV_AGAIN"@,
            PamResultCode::PAM_INCOMPLETE => "PAM_INCOMPLETE"@,
        }
    }

    /// The codes that an authentication call may hand back to the host:
    /// success, a rejected credential, an unreachable provider, an unusable
    /// authentication token, an unreadable configuration, or an abort.
    pub open spec fn is_authentication_result(self) -> bool {
        self == PamResultCode::PAM_SUCCESS || self == PamResultCode::PAM_AUTH_ERR || self
            == PamResultCode::PAM_AUTHINFO_UNAVAIL || self == PamResultCode::PAM_AUTHTOK_ERR || self
            == PamResultCode::PAM_OPEN_ERR || self == PamResultCode::PAM_ABORT
    }

    /// The number of the code.
    pub fn code(&self) -> (n: i32)
        ensures
            n == self.code_value(),
    {
        match self {
            PamResultCode::PAM_SUCCESS => 0,
            PamResultCode::PAM_OPEN_ERR => 1,
            PamResultCode::PAM_SYMBOL_ERR => 2,
            PamResultCode::PAM_SERVICE_ERR => 3,
            PamResultCode::PAM_SYSTEM_ERR => 4,
            PamResultCode::PAM_BUF_ERR => 5,
            PamResultCode::PAM_PERM_DENIED => 6,
            PamResultCode::PAM_AUTH_ERR => 7,
            PamResultCode::PAM_CRED_INSUFFICIENT => 8,
            PamResultCode::PAM_AUTHINFO_UNAVAIL => 9,
            PamResultCode::PAM_USER_UNKNOWN => 10,
            PamResultCode::PAM_MAXTRIES => 11,
            PamResultCode::PAM_NEW_AUTHTOK_REQD => 12,
            PamResultCode::PAM_ACCT_EXPIRED => 13,
            PamResultCode::PAM_SESSION_ERR => 14,
            PamResultCode::PAM_CRED_UNAVAIL => 15,
            PamResultCode::PAM_CRED_EXPIRED => 16,
            PamResultCode::PAM_CRED_ERR => 17,
            PamResultCode::PAM_NO_MODULE_DATA => 18,
            PamResultCode::PAM_CONV_ERR => 19,
            PamResultCode::PAM_AUTHTOK_ERR => 20,
            PamResultCode::PAM_AUTHTOK_RECOVERY_ERR => 21,
            PamResultCode::PAM_AUTHTOK_LOCK_BUSY => 22,
            PamResultCode::PAM_AUTHTOK_DISABLE_AGING => 23,
            PamResultCode::PAM_TRY_AGAIN => 24,
            PamResultCode::PAM_IGNORE => 25,
            PamResultCode::PAM_ABORT => 26,
            PamResultCode::PAM_AUTHTOK_EXPIRED => 27,
            PamResultCode::PAM_MODULE_UNKNOWN => 28,
            PamResultCode::PAM_BAD_ITEM => 29,
            PamResultCode::PAM_CONV_AGAIN => 30,
            PamResultCode::PAM_INCOMPLETE => 31,
        }
    }

    /// The code with the number `n`, if the host framework has one.
    pub fn from_code(n: i32) -> (r: Option<PamResultCode>)
        ensures
            r matches Some(c) ==> c.code_value() == n,
            r is None ==> forall|c: PamResultCode| c.code_value() != n,
    {
        match n {
            0 => Some(PamResultCode::PAM_SUCCESS),
            1 => Some(PamResultCode::PAM_OPEN_ERR),
            2 => Some(PamResultCode::PAM_SYMBOL_ERR),
            3 => Some(PamResultCode::PAM_SERVICE_ERR),
            4 => Some(PamResultCode::PAM_SYSTEM_ERR),
            5 => Some(PamResultCode::PAM_BUF_ERR),
            6 => Some(PamResultCode::PAM_PERM_DENIED),
            7 => Some(PamResultCode::PAM_AUTH_ERR),
            8 => Some(PamResultCode::PAM_CRED_INSUFFICIENT),
            9 => Some(PamResultCode::PAM_AUTHINFO_UNAVAIL),
            10 => Some(PamResultCode::PAM_USER_UNKNOWN),
            11 => Some(PamResultCode::PAM_MAXTRIES),
            12 => Some(PamResultCode::PAM_NEW_AUTHTOK_REQD),
            13 => Some(PamResultCode::PAM_ACCT_EXPIRED),
            14 => Some(PamResultCode::PAM_SESSION_ERR),
            15 => Some(PamResultCode::PAM_CRED_UNAVAIL),
            16 => Some(PamResultCode::PAM_CRED_EXPIRED),
            17 => Some(PamResultCode::PAM_CRED_ERR),
            18 => Some(PamResultCode::PAM_NO_MODULE_DATA),
            19 => Some(PamResultCode::PAM_CONV_ERR),
            20 => Some(PamResultCode::PAM_AUTHTOK_ERR),
            21 => Some(PamResultCode::PAM_AUTHTOK_RECOVERY_ERR),
            22 => Some(PamResultCode::PAM_AUTHTOK_LOCK_BUSY),
            23 => Some(PamResultCode::PAM_AUTHTOK_DISABLE_AGING),
            24 => Some(PamResultCode::PAM_TRY_AGAIN),
            25 => Some(PamResultCode::PAM_IGNORE),
            26 => Some(PamResultCode::PAM_ABORT),
            27 => Some(PamResultCode::PAM_AUTHTOK_EXPIRED),
            28 => Some(PamResultCode::PAM_MODULE_UNKNOWN),
            29 => Some(PamResultCode::PAM_BAD_ITEM),
            30 => Some(PamResultCode::PAM_CONV_AGAIN),
            31 => Some(PamResultCode::PAM_INCOMPLETE),
            _ => None,
        }
    }

    /// The host's name of the code.
    pub fn name(&self) -> (r: &'static str)
        ensures
            r@ == self.name_text(),
    {
        match self {
            PamResultCode::PAM_SUCCESS => "PAM_SUCCESS",
            PamResultCode::PAM_OPEN_ERR => "PAM_OPEN_ERR",
            PamResultCode::PAM_SYMBOL_ERR => "PAM_SYMBOL_ERR",
            PamResultCode::PAM_SERVICE_ERR => "PAM_SERVICE_ERR",
            PamResultCode::PAM_SYSTEM_ERR => "PAM_SYSTEM_ERR",
            PamResultCode::PAM_BUF_ERR => "PAM_BUF_ERR",
            PamResultCode::PAM_PERM_DENIED => "PAM_PERM_DENIED",
            PamResultCode::PAM_AUTH_ERR => "PAM_AUTH_ERR",
            PamResultCode::PAM_CRED_INSUFFICIENT => "PAM_CRED_INSUFFICIENT",
            PamResultCode::PAM_AUTHINFO_UNAVAIL => "PAM_AUTHINFO_UNAVAIL",
            PamResultCode::PAM_USER_UNKNOWN => "PAM_USER_UNKNOWN",
            PamResultCode::PAM_MAXTRIES => "PAM_MAXTRIES",
            PamResultCode::PAM_NEW_AUTHTOK_REQD => "PAM_NEW_AUTHTOK_REQD",
            PamResultCode::PAM_ACCT_EXPIRED => "PAM_ACCT_EXPIRED",
            PamResultCode::PAM_SESSION_ERR => "PAM_SESSION_ERR",
            PamResultCode::PAM_CRED_UNAVAIL => "PAM_CRED_UNAVAIL",
            PamResultCode::PAM_CRED_EXPIRED => "PAM_CRED_EXPIRED",
            PamResultCode::PAM_CRED_ERR => "PAM_CRED_ERR",
            PamResultCode::PAM_NO_MODULE_DATA => "PAM_NO_MODULE_DATA",
            PamResultCode::PAM_CONV_ERR => "PAM_CONV_ERR",
            PamResultCode::PAM_AUTHTOK_ERR => "PAM_AUTHTOK_ERR",
            PamResultCode::PAM_AUTHTOK_RECOVERY_ERR => "PAM_AUTHTOK_RECOVERY_ERR",
            PamResultCode::PAM_AUTHTOK_LOCK_BUSY => "PAM_AUTHTOK_LOCK_BUSY",
            PamResultCode::PAM_AUTHTOK_DISABLE_AGING => "PAM_AUTHTOK_DISABLE_AGING",
            PamResultCode::PAM_TRY_AGAIN => "PAM_TRY_AGAIN",
            PamResultCode::PAM_IGNORE => "PAM_IGNORE",
            PamResultCode::PAM_ABORT => "PAM_ABORT",
            PamResultCode::PAM_AUTHTOK_EXPIRED => "PAM_AUTHTOK_EXPIRED",
            PamResultCode::PAM_MODULE_UNKNOWN => "PAM_MODULE_UNKNOWN",
            PamResultCode::PAM_BAD_ITEM => "PAM_BAD_ITEM",
            PamResultCode::PAM_CONV_AGAIN => "PAM_CONV_AGAIN",
            PamResultCode::PAM_INCOMPLETE => "PAM_INCOMPLETE",
        }
    }

    /// Whether the code is `PAM_SUCCESS`.
    pub fn is_success(&self) -> (r: bool)
        ensures
            r == (*self == PamResultCode::PAM_SUCCESS),
    {
        match self {
            PamResultCode::PAM_SUCCESS => true,
            _ => false,
        }
    }
}

/// Reading back the number of a code gives that code, and no two codes share a
/// number.
pub proof fn lemma_code_round_trip(a: PamResultCode, b: PamResultCode)
    ensures
        0 <= a.code_value() < 32,
        a.code_value() == b.code_value() ==> a == b,
{
}

} // verus!
