use pam::enums::PamReturnCode;
use pam::PamError;

fn all_codes() -> Vec<PamReturnCode> {
    vec![
        PamReturnCode::Success,
        PamReturnCode::OpenErr,
        PamReturnCode::SymbolErr,
        PamReturnCode::ServiceErr,
        PamReturnCode::SystemErr,
        PamReturnCode::BufErr,
        PamReturnCode::PermDenied,
        PamReturnCode::AuthErr,
        PamReturnCode::CredInsufficient,
        PamReturnCode::AuthinfoUnavail,
        PamReturnCode::UserUnknown,
        PamReturnCode::Maxtries,
        PamReturnCode::NewAuthtokReqd,
        PamReturnCode::AcctExpired,
        PamReturnCode::SessionErr,
        PamReturnCode::CredUnavail,
        PamReturnCode::CredExpired,
        PamReturnCode::CredErr,
        PamReturnCode::NoModuleData,
        PamReturnCode::ConvErr,
        PamReturnCode::AuthtokErr,
        PamReturnCode::AuthtokRecoveryErr,
        PamReturnCode::AuthtokLockBusy,
        PamReturnCode::AuthtokDisableAging,
        PamReturnCode::TryAgain,
        PamReturnCode::Ignore,
        PamReturnCode::Abort,
        PamReturnCode::AuthtokExpired,
        PamReturnCode::ModuleUnknown,
        PamReturnCode::BadItem,
        PamReturnCode::ConvAgain,
        PamReturnCode::Incomplete,
    ]
}

#[test]
fn code_roundtrip() {
    for code in all_codes() {
        assert_eq!(PamReturnCode::from_code(code.to_code()), code);
    }
}

#[test]
fn raw_values_are_dense_and_distinct() {
    let mut seen = vec![false; 32];
    for code in all_codes() {
        let raw = code.to_code();
        assert!((0..32).contains(&raw));
        assert!(!seen[raw as usize]);
        seen[raw as usize] = true;
    }
}

#[test]
fn success_is_zero() {
    assert_eq!(PamReturnCode::Success.to_code(), 0);
    assert_eq!(PamReturnCode::from_code(0), PamReturnCode::Success);
}

#[test]
fn unknown_codes_read_as_system_error() {
    assert_eq!(PamReturnCode::from_code(32), PamReturnCode::SystemErr);
    assert_eq!(PamReturnCode::from_code(-1), PamReturnCode::SystemErr);
    assert_eq!(PamReturnCode::from_code(9999), PamReturnCode::SystemErr);
}

#[test]
fn is_success_singles_out_the_success_value() {
    for code in all_codes() {
        assert_eq!(code.is_success(), code == PamReturnCode::Success);
    }
}

#[test]
fn error_carries_its_code() {
    let err = PamError::from(PamReturnCode::AuthErr);
    assert_eq!(err.code(), PamReturnCode::AuthErr);
    assert_eq!(err, PamError(PamReturnCode::AuthErr));
    assert_eq!(err.description(), "PAM returned an error code");
}
