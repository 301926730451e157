use pam::auth::{
    authenticate_outcome, open_session_outcome, teardown_plan, Authenticator, SessionState,
};
use pam::enums::PamReturnCode;
use pam::PamError;

#[test]
fn a_fresh_machine_is_created_and_closes_on_drop() {
    let auth = Authenticator::new();
    assert_eq!(auth.state(), SessionState::Created);
    assert_eq!(auth.last_code(), PamReturnCode::Success);
    assert!(auth.close_on_drop());
    assert!(!auth.is_closed());
    assert_eq!(auth.login(), "");
    assert_eq!(auth.secret(), "");
}

#[test]
fn credentials_are_stored_until_locked() {
    let mut auth = Authenticator::new();
    assert_eq!(auth.set_credentials("alice", "correct"), Ok(()));
    assert_eq!(auth.login(), "alice");
    assert_eq!(auth.secret(), "correct");
    assert_eq!(auth.set_credentials("alice", "changed"), Ok(()));
    assert_eq!(auth.secret(), "changed");
}

#[test]
fn close_on_drop_can_be_disabled() {
    let mut auth = Authenticator::new();
    auth.set_close_on_drop(false);
    assert!(!auth.close_on_drop());
}

#[test]
fn full_success_reaches_an_open_session() {
    let (state, result, revocations) = authenticate_outcome(
        SessionState::Created,
        PamReturnCode::Success,
        PamReturnCode::Success,
        PamReturnCode::Success,
    );
    assert_eq!(state, SessionState::Authenticated);
    assert_eq!(result, Ok(()));
    assert_eq!(revocations, 0);

    let (state, result, opens, revocations) =
        open_session_outcome(state, PamReturnCode::Success);
    assert_eq!(state, SessionState::SessionOpen);
    assert_eq!(result, Ok(()));
    assert_eq!(opens, 1);
    assert_eq!(revocations, 0);

    let (closes, revocations, releases) = teardown_plan(state, true);
    assert_eq!((closes, revocations, releases), (1, 1, 1));
}

#[test]
fn rejected_authentication_leaves_state_and_blocks_the_session() {
    let (state, result, revocations) = authenticate_outcome(
        SessionState::Created,
        PamReturnCode::AuthErr,
        PamReturnCode::Success,
        PamReturnCode::Success,
    );
    assert_eq!(state, SessionState::Created);
    assert_eq!(result, Err(PamError(PamReturnCode::AuthErr)));
    assert_eq!(revocations, 0);

    let (state, result, opens, revocations) =
        open_session_outcome(state, PamReturnCode::Success);
    assert_eq!(state, SessionState::Created);
    assert_eq!(result, Err(PamError(PamReturnCode::PermDenied)));
    assert_eq!(opens, 0);
    assert_eq!(revocations, 0);
}

#[test]
fn expired_account_rolls_back_with_one_revocation() {
    let (state, result, revocations) = authenticate_outcome(
        SessionState::Created,
        PamReturnCode::Success,
        PamReturnCode::AcctExpired,
        PamReturnCode::Success,
    );
    assert_eq!(state, SessionState::Created);
    assert_eq!(result, Err(PamError(PamReturnCode::AcctExpired)));
    assert_eq!(revocations, 1);
}

#[test]
fn failed_establishment_rolls_back_with_one_revocation() {
    let (state, result, revocations) = authenticate_outcome(
        SessionState::Created,
        PamReturnCode::Success,
        PamReturnCode::Success,
        PamReturnCode::CredErr,
    );
    assert_eq!(state, SessionState::Created);
    assert_eq!(result, Err(PamError(PamReturnCode::CredErr)));
    assert_eq!(revocations, 1);
}

#[test]
fn rejected_session_open_rolls_back() {
    let (state, result, opens, revocations) =
        open_session_outcome(SessionState::Authenticated, PamReturnCode::SessionErr);
    assert_eq!(state, SessionState::Created);
    assert_eq!(result, Err(PamError(PamReturnCode::SessionErr)));
    assert_eq!(opens, 1);
    assert_eq!(revocations, 1);
}

#[test]
fn session_open_out_of_order_touches_nothing() {
    for state in [SessionState::Created, SessionState::SessionOpen] {
        let (next, result, opens, revocations) =
            open_session_outcome(state, PamReturnCode::Success);
        assert_eq!(next, state);
        assert_eq!(result, Err(PamError(PamReturnCode::PermDenied)));
        assert_eq!(opens, 0);
        assert_eq!(revocations, 0);
    }
}

#[test]
fn teardown_is_bounded_in_every_state() {
    for state in [
        SessionState::Created,
        SessionState::Authenticated,
        SessionState::SessionOpen,
    ] {
        for flag in [false, true] {
            let (closes, revocations, releases) = teardown_plan(state, flag);
            assert!(closes <= 1);
            assert_eq!(revocations, 1);
            assert_eq!(releases, 1);
            assert_eq!(closes == 1, state == SessionState::SessionOpen && flag);
        }
    }
}

use pam::backend::{Backend, BackendOp};

/// A scripted backend: answers calls from a fixed list of codes and
/// records which operations were requested.
struct Script {
    answers: Vec<i32>,
    next: usize,
    ops: Vec<String>,
}

impl Script {
    fn new(answers: Vec<i32>) -> Script {
        Script { answers, next: 0, ops: Vec::new() }
    }
}

impl Backend for Script {
    fn call(&mut self, op: &BackendOp) -> i32 {
        let tag = match op {
            BackendOp::Authenticate => "authenticate".to_string(),
            BackendOp::ValidateAccount => "validate".to_string(),
            BackendOp::EstablishCredentials => "establish".to_string(),
            BackendOp::DeleteCredentials => "delete".to_string(),
            BackendOp::OpenSession => "open".to_string(),
            BackendOp::CloseSession => "close".to_string(),
            BackendOp::PutEnv(kv) => format!("putenv {}", kv),
            BackendOp::End(code) => format!("end {}", code),
        };
        self.ops.push(tag);
        let answer = self.answers.get(self.next).copied().unwrap_or(0);
        self.next += 1;
        answer
    }
}

#[test]
fn scripted_success_opens_and_tears_down() {
    let mut auth = Authenticator::new();
    auth.set_credentials("root", "correct").unwrap();
    let mut backend = Script::new(vec![0; 16]);

    assert_eq!(auth.authenticate(&mut backend), Ok(()));
    assert_eq!(auth.state(), SessionState::Authenticated);
    assert_eq!(
        backend.ops,
        vec!["authenticate", "validate", "establish"]
    );

    // The identity database resolves "root", so the session opens and
    // all six assignments are attempted in order.
    let (_vars, result) = auth.open_session(&mut backend, Some("/bin"));
    assert_eq!(result, Ok(()));
    assert_eq!(auth.state(), SessionState::SessionOpen);
    let putenvs: Vec<&String> =
        backend.ops.iter().filter(|t| t.starts_with("putenv ")).collect();
    assert_eq!(putenvs.len(), 6);
    assert_eq!(putenvs[0], "putenv USER=root");
    assert_eq!(putenvs[1], "putenv LOGNAME=root");
    assert!(putenvs[4].starts_with("putenv SHELL="));
    assert!(putenvs[5].starts_with("putenv PATH=/bin:"));

    auth.close(&mut backend);
    assert!(auth.is_closed());
    let tail: Vec<&String> = backend.ops.iter().rev().take(3).collect();
    assert_eq!(tail[0], "end 0");
    assert_eq!(tail[1], "delete");
    assert_eq!(tail[2], "close");

    // Teardown is inert the second time.
    let calls_so_far = backend.ops.len();
    auth.close(&mut backend);
    assert_eq!(backend.ops.len(), calls_so_far);
}

#[test]
fn scripted_rejected_authentication_blocks_the_session() {
    let mut auth = Authenticator::new();
    auth.set_credentials("alice", "wrong").unwrap();
    let mut backend = Script::new(vec![7]);

    let result = auth.authenticate(&mut backend);
    assert_eq!(result, Err(PamError(PamReturnCode::AuthErr)));
    assert_eq!(auth.state(), SessionState::Created);
    assert_eq!(backend.ops, vec!["authenticate"]);

    // Out of order: rejected without any backend call.
    let (vars, result) = auth.open_session(&mut backend, None);
    assert_eq!(result, Err(PamError(PamReturnCode::PermDenied)));
    assert!(vars.is_empty());
    assert_eq!(backend.ops, vec!["authenticate"]);
}

#[test]
fn scripted_expired_account_revokes_exactly_once() {
    let mut auth = Authenticator::new();
    auth.set_credentials("bob", "correct").unwrap();
    let mut backend = Script::new(vec![0, 13]);

    let result = auth.authenticate(&mut backend);
    assert_eq!(result, Err(PamError(PamReturnCode::AcctExpired)));
    assert_eq!(auth.state(), SessionState::Created);
    assert_eq!(backend.ops, vec!["authenticate", "validate", "delete"]);
}

#[test]
fn scripted_credentials_lock_after_authentication_begins() {
    let mut auth = Authenticator::new();
    auth.set_credentials("alice", "first").unwrap();
    let mut backend = Script::new(vec![7]);
    let _ = auth.authenticate(&mut backend);
    assert_eq!(
        auth.set_credentials("alice", "second"),
        Err(PamError(PamReturnCode::PermDenied))
    );
    assert_eq!(auth.secret(), "first");
}

#[test]
fn scripted_rejected_assignment_stops_the_rest() {
    let mut auth = Authenticator::new();
    auth.set_credentials("root", "correct").unwrap();
    let mut backend = Script::new(vec![0, 0, 0]);
    assert_eq!(auth.authenticate(&mut backend), Ok(()));

    // Session opens; the third assignment is rejected with a buffer
    // error, so the last three are never attempted.
    let mut backend2 = Script::new(vec![0, 0, 0, 5]);
    let (vars, result) = auth.open_session(&mut backend2, None);
    assert_eq!(result, Err(PamError(PamReturnCode::BufErr)));
    assert_eq!(vars.len(), 3);
    assert_eq!(auth.state(), SessionState::SessionOpen);
    assert_eq!(auth.last_code(), PamReturnCode::BufErr);
    let putenvs = backend2.ops.iter().filter(|t| t.starts_with("putenv ")).count();
    assert_eq!(putenvs, 3);
}

#[test]
fn scripted_rejected_session_open_rolls_back() {
    let mut auth = Authenticator::new();
    auth.set_credentials("root", "correct").unwrap();
    let mut backend = Script::new(vec![0, 0, 0, 14]);
    assert_eq!(auth.authenticate(&mut backend), Ok(()));

    let (vars, result) = auth.open_session(&mut backend, None);
    assert_eq!(result, Err(PamError(PamReturnCode::SessionErr)));
    assert!(vars.is_empty());
    assert_eq!(auth.state(), SessionState::Created);
    assert_eq!(
        backend.ops,
        vec!["authenticate", "validate", "establish", "open", "delete"]
    );
}
