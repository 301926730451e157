//! The closed taxonomy of backend outcome codes.
//!
//! Every backend operation reports one of these codes; `Success` is the
//! single designated success value. The numeric values are the ones the
//! native library uses on its wire, so the two conversion functions below
//! translate between raw codes and this enumeration.

use vstd::prelude::*;

verus! {

/// A backend outcome code.
#[derive(Clone, Copy, Debug, PartialEq, Eq, Structural)]
pub enum PamReturnCode {
    /// Successful function return.
    Success,
    /// Failure loading a service module.
    OpenErr,
    /// Symbol not found.
    SymbolErr,
    /// Error in service module.
    ServiceErr,
    /// System error.
    SystemErr,
    /// Memory buffer error.
    BufErr,
    /// Permission denied.
    PermDenied,
    /// Authentication failure.
    AuthErr,
    /// Insufficient credentials to access authentication data.
    CredInsufficient,
    /// The authentication service cannot retrieve authentication info.
    AuthinfoUnavail,
    /// User not known to the underlying authentication module.
    UserUnknown,
    /// The retry limit of an authentication service has been reached.
    Maxtries,
    /// A new authentication token is required.
    NewAuthtokReqd,
    /// The user account has expired.
    AcctExpired,
    /// Cannot make or remove an entry for the specified session.
    SessionErr,
    /// The service cannot retrieve user credentials.
    CredUnavail,
    /// User credentials have expired.
    CredExpired,
    /// Failure setting user credentials.
    CredErr,
    /// No module specific data is present.
    NoModuleData,
    /// Conversation error.
    ConvErr,
    /// Authentication token manipulation error.
    AuthtokErr,
    /// Authentication information cannot be recovered.
    AuthtokRecoveryErr,
    /// Authentication token lock busy.
    AuthtokLockBusy,
    /// Authentication token aging disabled.
    AuthtokDisableAging,
    /// Preliminary check by a password service.
    TryAgain,
    /// Ignore the underlying account module.
    Ignore,
    /// Critical error: the module should fail now.
    Abort,
    /// The user's authentication token has expired.
    AuthtokExpired,
    /// The module is not known.
    ModuleUnknown,
    /// Bad item passed to an item call.
    BadItem,
    /// The conversation is event driven and data is not yet available.
    ConvAgain,
    /// The call should be repeated to complete the authentication stack.
    Incomplete,
}

/// The raw numeric value of a code, as the native library defines it.
pub open spec fn code_of(c: PamReturnCode) -> int {
    match c {
        PamReturnCode::Success => 0,
        PamReturnCode::OpenErr => 1,
        PamReturnCode::SymbolErr => 2,
        PamReturnCode::ServiceErr => 3,
        PamReturnCode::SystemErr => 4,
        PamReturnCode::BufErr => 5,
        PamReturnCode::PermDenied => 6,
        PamReturnCode::AuthErr => 7,
        PamReturnCode::CredInsufficient => 8,
        PamReturnCode::AuthinfoUnavail => 9,
        PamReturnCode::UserUnknown => 10,
        PamReturnCode::Maxtries => 11,
        PamReturnCode::NewAuthtokReqd => 12,
        PamReturnCode::AcctExpired => 13,
        PamReturnCode::SessionErr => 14,
        PamReturnCode::CredUnavail => 15,
        PamReturnCode::CredExpired => 16,
        PamReturnCode::CredErr => 17,
        PamReturnCode::NoModuleData => 18,
        PamReturnCode::ConvErr => 19,
        PamReturnCode::AuthtokErr => 20,
        PamReturnCode::AuthtokRecoveryErr => 21,
        PamReturnCode::AuthtokLockBusy => 22,
        PamReturnCode::AuthtokDisableAging => 23,
        PamReturnCode::TryAgain => 24,
        PamReturnCode::Ignore => 25,
        PamReturnCode::Abort => 26,
        PamReturnCode::AuthtokExpired => 27,
        PamReturnCode::ModuleUnknown => 28,
        PamReturnCode::BadItem => 29,
        PamReturnCode::ConvAgain => 30,
        PamReturnCode::Incomplete => 31,
    }
}

/// The code a raw numeric value denotes; anything outside the closed set
/// is read as a system error, exactly as the native library's own
/// conversion does.
pub open spec fn return_code_of(code: int) -> PamReturnCode {
    if code == 0 {
        PamReturnCode::Success
    } else if code == 1 {
        PamReturnCode::OpenErr
    } else if code == 2 {
        PamReturnCode::SymbolErr
    } else if code == 3 {
        PamReturnCode::ServiceErr
    } else if code == 4 {
        PamReturnCode::SystemErr
    } else if code == 5 {
        PamReturnCode::BufErr
    } else if code == 6 {
        PamReturnCode::PermDenied
    } else if code == 7 {
        PamReturnCode::AuthErr
    } else if code == 8 {
        PamReturnCode::CredInsufficient
    } else if code == 9 {
        PamReturnCode::AuthinfoUnavail
    } else if code == 10 {
        PamReturnCode::UserUnknown
    } else if code == 11 {
        PamReturnCode::Maxtries
    } else if code == 12 {
        PamReturnCode::NewAuthtokReqd
    } else if code == 13 {
        PamReturnCode::AcctExpired
    } else if code == 14 {
        PamReturnCode::SessionErr
    } else if code == 15 {
        PamReturnCode::CredUnavail
    } else if code == 16 {
        PamReturnCode::CredExpired
    } else if code == 17 {
        PamReturnCode::CredErr
    } else if code == 18 {
        PamReturnCode::NoModuleData
    } else if code == 19 {
        PamReturnCode::ConvErr
    } else if code == 20 {
        PamReturnCode::AuthtokErr
    } else if code == 21 {
        PamReturnCode::AuthtokRecoveryErr
    } else if code == 22 {
        PamReturnCode::AuthtokLockBusy
    } else if code == 23 {
        PamReturnCode::AuthtokDisableAging
    } else if code == 24 {
        PamReturnCode::TryAgain
    } else if code == 25 {
        PamReturnCode::Ignore
    } else if code == 26 {
        PamReturnCode::Abort
    } else if code == 27 {
        PamReturnCode::AuthtokExpired
    } else if code == 28 {
        PamReturnCode::ModuleUnknown
    } else if code == 29 {
        PamReturnCode::BadItem
    } else if code == 30 {
        PamReturnCode::ConvAgain
    } else if code == 31 {
        PamReturnCode::Incomplete
    } else {
        PamReturnCode::SystemErr
    }
}

impl PamReturnCode {
    /// Whether this code is the designated success value.
    pub fn is_success(&self) -> (r: bool)
        ensures
            r == (*self == PamReturnCode::Success),
    {
        *self == PamReturnCode::Success
    }

    /// Translates a raw backend code into the taxonomy.
    pub fn from_code(code: i32) -> (r: PamReturnCode)
        ensures
            r == return_code_of(code as int),
    {
        match code {
            0 => PamReturnCode::Success,
            1 => PamReturnCode::OpenErr,
            2 => PamReturnCode::SymbolErr,
            3 => PamReturnCode::ServiceErr,
            4 => PamReturnCode::SystemErr,
            5 => PamReturnCode::BufErr,
            6 => PamReturnCode::PermDenied,
            7 => PamReturnCode::AuthErr,
            8 => PamReturnCode::CredInsufficient,
            9 => PamReturnCode::AuthinfoUnavail,
            10 => PamReturnCode::UserUnknown,
            11 => PamReturnCode::Maxtries,
            12 => PamReturnCode::NewAuthtokReqd,
            13 => PamReturnCode::AcctExpired,
            14 => PamReturnCode::SessionErr,
            15 => PamReturnCode::CredUnavail,
            16 => PamReturnCode::CredExpired,
            17 => PamReturnCode::CredErr,
            18 => PamReturnCode::NoModuleData,
            19 => PamReturnCode::ConvErr,
            20 => PamReturnCode::AuthtokErr,
            21 => PamReturnCode::AuthtokRecoveryErr,
            22 => PamReturnCode::AuthtokLockBusy,
            23 => PamReturnCode::AuthtokDisableAging,
            24 => PamReturnCode::TryAgain,
            25 => PamReturnCode::Ignore,
            26 => PamReturnCode::Abort,
            27 => PamReturnCode::AuthtokExpired,
            28 => PamReturnCode::ModuleUnknown,
            29 => PamReturnCode::BadItem,
            30 => PamReturnCode::ConvAgain,
            31 => PamReturnCode::Incomplete,
            _ => PamReturnCode::SystemErr,
        }
    }

    /// The raw numeric value of this code.
    pub fn to_code(&self) -> (r: i32)
        ensures
            r as int == code_of(*self),
    {
        match *self {
            PamReturnCode::Success => 0,
            PamReturnCode::OpenErr => 1,
            PamReturnCode::SymbolErr => 2,
            PamReturnCode::ServiceErr => 3,
            PamReturnCode::SystemErr => 4,
            PamReturnCode::BufErr => 5,
            PamReturnCode::PermDenied => 6,
            PamReturnCode::AuthErr => 7,
            PamReturnCode::CredInsufficient => 8,
            PamReturnCode::AuthinfoUnavail => 9,
            PamReturnCode::UserUnknown => 10,
            PamReturnCode::Maxtries => 11,
            PamReturnCode::NewAuthtokReqd => 12,
            PamReturnCode::AcctExpired => 13,
            PamReturnCode::SessionErr => 14,
            PamReturnCode::CredUnavail => 15,
            PamReturnCode::CredExpired => 16,
            PamReturnCode::CredErr => 17,
            PamReturnCode::NoModuleData => 18,
            PamReturnCode::ConvErr => 19,
            PamReturnCode::AuthtokErr => 20,
            PamReturnCode::AuthtokRecoveryErr => 21,
            PamReturnCode::AuthtokLockBusy => 22,
            PamReturnCode::AuthtokDisableAging => 23,
            PamReturnCode::TryAgain => 24,
            PamReturnCode::Ignore => 25,
            PamReturnCode::Abort => 26,
            PamReturnCode::AuthtokExpired => 27,
            PamReturnCode::ModuleUnknown => 28,
            PamReturnCode::BadItem => 29,
            PamReturnCode::ConvAgain => 30,
            PamReturnCode::Incomplete => 31,
        }
    }
}

/// Translating a code to its raw value and back yields the code again.
pub proof fn lemma_code_roundtrip(c: PamReturnCode)
    ensures
        return_code_of(code_of(c)) == c,
{
}

} // verus!
