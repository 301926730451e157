//! The authenticator: the state machine that drives one authentication
//! attempt through the backend.
//!
//! The machine owns the attempt's state — `Created`, `Authenticated`,
//! `SessionOpen` — together with the credential pair the conversation
//! bridge answers from and the last backend outcome, retained so that
//! teardown can report it to the backend's release call. The native
//! context itself lives with the embedding program (creating it
//! involves raw callback registration the verifier cannot look at);
//! every operation reaches it through a [`Backend`] transport handed
//! in as a `&mut` borrow, and records each call it makes in its ghost
//! history. The contracts are stated over that history, so what the
//! machine guarantees — rollback on mid-sequence failure, no backend
//! touch on out-of-order calls, bounded teardown — is said of the
//! calls actually made, for every answer the backend could give.

use vstd::prelude::*;

verus! {

use crate::enums::{code_of, return_code_of, PamReturnCode};
use crate::backend::{Backend, BackendCall, BackendOp};
use crate::env::{
    env_plan, env_vars_view, lemma_env_result_all_success, lemma_env_result_last_fail,
    lookup_identity, opt_str_view, spec_env_plan, spec_env_segment, spec_putenv_calls, EnvVar,
    Identity,
};
use crate::{PamError, PamResult};

/// How far the attempt has come.
#[derive(Clone, Copy, Debug, PartialEq, Eq, Structural)]
pub enum SessionState {
    /// The context exists; nothing has been authenticated.
    Created,
    /// Credentials were validated and established.
    Authenticated,
    /// A session is active on top of the authenticated state.
    SessionOpen,
}

/// The abstract value of an [`Authenticator`].
pub ghost struct AuthView {
    /// How far the attempt has come.
    pub state: SessionState,
    /// The most recent backend outcome, reported to the release call.
    pub last_code: PamReturnCode,
    /// Whether teardown closes a still-open session.
    pub close_on_drop: bool,
    /// Whether teardown has run; afterwards the machine is inert.
    pub closed: bool,
    /// Whether the credential pair has been handed to the backend's
    /// conversation and may no longer change.
    pub credentials_locked: bool,
    /// The stored login name.
    pub login: Seq<char>,
    /// The stored secret.
    pub secret: Seq<char>,
    /// The history of backend calls made on the attempt's context,
    /// oldest first.
    pub history: Seq<BackendCall>,
}

/// Whether, after the given call history, credentials are established
/// in the backend: the history ends in a successful establishment not
/// followed by any deletion.
pub open spec fn creds_established(log: Seq<BackendCall>) -> bool
    decreases log.len(),
{
    if log.len() == 0 {
        false
    } else {
        match log.last() {
            BackendCall::EstablishCredentials(c) => if return_code_of(c as int)
                == PamReturnCode::Success {
                true
            } else {
                creds_established(log.drop_last())
            },
            BackendCall::DeleteCredentials(_) => false,
            _ => creds_established(log.drop_last()),
        }
    }
}

/// Whether a state matches a call history: credentials are established
/// in the backend exactly when the state is `Authenticated` or
/// `SessionOpen`.
pub open spec fn state_matches(log: Seq<BackendCall>, st: SessionState) -> bool {
    creds_established(log) == (st != SessionState::Created)
}

/// The invariant the machine maintains between operations: its own
/// call history matches its state. It holds of a fresh machine and
/// every operation preserves it.
pub open spec fn in_sync(m: AuthView) -> bool {
    state_matches(m.history, m.state)
}

/// A call that neither establishes nor deletes credentials leaves their
/// standing untouched.
pub proof fn lemma_established_neutral(log: Seq<BackendCall>, call: BackendCall)
    requires
        !(call matches BackendCall::EstablishCredentials(_)),
        !(call matches BackendCall::DeleteCredentials(_)),
    ensures
        creds_established(log.push(call)) == creds_established(log),
{
    assert(log.push(call).last() == call);
    assert(log.push(call).drop_last() =~= log);
}

/// A successful establishment establishes; a failed one changes
/// nothing.
pub proof fn lemma_established_establish(log: Seq<BackendCall>, c: i32)
    ensures
        creds_established(log.push(BackendCall::EstablishCredentials(c))) == if return_code_of(
            c as int,
        ) == PamReturnCode::Success {
            true
        } else {
            creds_established(log)
        },
{
    assert(log.push(BackendCall::EstablishCredentials(c)).last()
        == BackendCall::EstablishCredentials(c));
    assert(log.push(BackendCall::EstablishCredentials(c)).drop_last() =~= log);
}

/// After a deletion call, whatever its outcome, the model counts the
/// credentials as no longer established.
pub proof fn lemma_established_delete(log: Seq<BackendCall>, c: i32)
    ensures
        !creds_established(log.push(BackendCall::DeleteCredentials(c))),
{
    assert(log.push(BackendCall::DeleteCredentials(c)).last()
        == BackendCall::DeleteCredentials(c));
}

/// The state after one authenticate attempt whose three backend steps
/// answered `a`, `b`, `c`: an authentication failure leaves the state
/// alone, a later failure rolls back to `Created`, full success reaches
/// `Authenticated`.
pub open spec fn spec_auth_state(
    st: SessionState,
    a: PamReturnCode,
    b: PamReturnCode,
    c: PamReturnCode,
) -> SessionState {
    if a != PamReturnCode::Success {
        st
    } else if b != PamReturnCode::Success || c != PamReturnCode::Success {
        SessionState::Created
    } else {
        SessionState::Authenticated
    }
}

/// The result the attempt surfaces: the first failing step's code, or
/// success.
pub open spec fn spec_auth_result(
    a: PamReturnCode,
    b: PamReturnCode,
    c: PamReturnCode,
) -> PamResult<()> {
    if a != PamReturnCode::Success {
        Err(PamError(a))
    } else if b != PamReturnCode::Success {
        Err(PamError(b))
    } else if c != PamReturnCode::Success {
        Err(PamError(c))
    } else {
        Ok(())
    }
}

/// The outcome the attempt retains as its last code.
pub open spec fn spec_auth_last(
    a: PamReturnCode,
    b: PamReturnCode,
    c: PamReturnCode,
) -> PamReturnCode {
    if a != PamReturnCode::Success {
        a
    } else if b != PamReturnCode::Success {
        b
    } else {
        c
    }
}

/// How many credential revocations the attempt issues: exactly one
/// when a step after authentication fails, none otherwise.
pub open spec fn spec_auth_revocations(
    a: PamReturnCode,
    b: PamReturnCode,
    c: PamReturnCode,
) -> nat {
    if a == PamReturnCode::Success && (b != PamReturnCode::Success || c
        != PamReturnCode::Success) {
        1
    } else {
        0
    }
}

/// The backend calls one authenticate attempt makes, given the raw
/// codes `a`, `b`, `c` of its three steps and the code `d` of the
/// rollback deletion where one is issued.
pub open spec fn spec_auth_calls(a: i32, b: i32, c: i32, d: i32) -> Seq<BackendCall> {
    let ra = return_code_of(a as int);
    let rb = return_code_of(b as int);
    let rc = return_code_of(c as int);
    if ra != PamReturnCode::Success {
        seq![BackendCall::Authenticate(a)]
    } else if rb != PamReturnCode::Success {
        seq![
            BackendCall::Authenticate(a),
            BackendCall::ValidateAccount(b),
            BackendCall::DeleteCredentials(d),
        ]
    } else if rc != PamReturnCode::Success {
        seq![
            BackendCall::Authenticate(a),
            BackendCall::ValidateAccount(b),
            BackendCall::EstablishCredentials(c),
            BackendCall::DeleteCredentials(d),
        ]
    } else {
        seq![
            BackendCall::Authenticate(a),
            BackendCall::ValidateAccount(b),
            BackendCall::EstablishCredentials(c),
        ]
    }
}

/// Law: state monotonicity with rollback. Whatever codes a backend
/// answers during one authenticate attempt, a machine whose state
/// matched the credentials' standing before the attempt matches it
/// after: any failure once validation has begun ends with the
/// credentials revoked and the state back at `Created`, and success
/// ends with them established and the state `Authenticated`.
pub proof fn lemma_authenticate_preserves_sync(
    st0: SessionState,
    st1: SessionState,
    log0: Seq<BackendCall>,
    a: i32,
    b: i32,
    c: i32,
    d: i32,
)
    requires
        state_matches(log0, st0),
        st1 == spec_auth_state(
            st0,
            return_code_of(a as int),
            return_code_of(b as int),
            return_code_of(c as int),
        ),
    ensures
        state_matches(log0 + spec_auth_calls(a, b, c, d), st1),
{
    let ra = return_code_of(a as int);
    let rb = return_code_of(b as int);
    let rc = return_code_of(c as int);
    if ra != PamReturnCode::Success {
        assert(log0 + spec_auth_calls(a, b, c, d) =~= log0.push(BackendCall::Authenticate(a)));
        lemma_established_neutral(log0, BackendCall::Authenticate(a));
    } else if rb != PamReturnCode::Success {
        let l1 = log0.push(BackendCall::Authenticate(a)).push(BackendCall::ValidateAccount(b));
        assert(log0 + spec_auth_calls(a, b, c, d) =~= l1.push(BackendCall::DeleteCredentials(d)));
        lemma_established_delete(l1, d);
    } else if rc != PamReturnCode::Success {
        let l1 = log0.push(BackendCall::Authenticate(a)).push(BackendCall::ValidateAccount(b)).push(
            BackendCall::EstablishCredentials(c),
        );
        assert(log0 + spec_auth_calls(a, b, c, d) =~= l1.push(BackendCall::DeleteCredentials(d)));
        lemma_established_delete(l1, d);
    } else {
        let l1 = log0.push(BackendCall::Authenticate(a)).push(BackendCall::ValidateAccount(b));
        assert(log0 + spec_auth_calls(a, b, c, d) =~= l1.push(BackendCall::EstablishCredentials(c)));
        lemma_established_establish(l1, c);
    }
}

/// Replays one authenticate attempt from the backend's answers alone:
/// the state it ends in, the result it surfaces, and how many times it
/// revokes credentials.
pub fn authenticate_outcome(
    state: SessionState,
    a: PamReturnCode,
    b: PamReturnCode,
    c: PamReturnCode,
) -> (r: (SessionState, PamResult<()>, usize))
    ensures
        r.0 == spec_auth_state(state, a, b, c),
        r.1 == spec_auth_result(a, b, c),
        r.2 == spec_auth_revocations(a, b, c),
{
    if !a.is_success() {
        (state, Err(PamError(a)), 0)
    } else if !b.is_success() {
        (SessionState::Created, Err(PamError(b)), 1)
    } else if !c.is_success() {
        (SessionState::Created, Err(PamError(c)), 1)
    } else {
        (SessionState::Authenticated, Ok(()), 0)
    }
}

/// Replays the session-opening transition: out of order it is rejected
/// without any backend call; otherwise the backend's answer decides
/// between an open session and a rollback. The last two components
/// count the session-open calls and the credential revocations made.
pub fn open_session_outcome(state: SessionState, o: PamReturnCode) -> (r: (
    SessionState,
    PamResult<()>,
    usize,
    usize,
))
    ensures
        state != SessionState::Authenticated ==> r == (
            state,
            Err::<(), PamError>(PamError(PamReturnCode::PermDenied)),
            0usize,
            0usize,
        ),
        state == SessionState::Authenticated && o != PamReturnCode::Success ==> r == (
            SessionState::Created,
            Err::<(), PamError>(PamError(o)),
            1usize,
            1usize,
        ),
        state == SessionState::Authenticated && o == PamReturnCode::Success ==> r == (
            SessionState::SessionOpen,
            Ok::<(), PamError>(()),
            1usize,
            0usize,
        ),
{
    if !matches!(state, SessionState::Authenticated) {
        (state, Err(PamError(PamReturnCode::PermDenied)), 0, 0)
    } else if !o.is_success() {
        (SessionState::Created, Err(PamError(o)), 1, 1)
    } else {
        (SessionState::SessionOpen, Ok(()), 1, 0)
    }
}

/// The history after a rejected session-open: the rejected call, then
/// the rollback's credential deletion.
pub open spec fn spec_rollback_calls(log0: Seq<BackendCall>, o: i32, d: i32) -> Seq<BackendCall> {
    log0.push(BackendCall::OpenSession(o)).push(BackendCall::DeleteCredentials(d))
}

/// One branch of the session-opening contract, for the backend answer
/// `o` to the session-open call: a rejection rolls back (one deletion,
/// state `Created`, the code surfaced); an acceptance leaves the
/// machine `SessionOpen`, after which either the identity database
/// could not resolve the login name — surfaced as user-unknown, with
/// no further backend call — or some resolved identity's plan was
/// applied as [`spec_env_segment`] describes.
pub open spec fn spec_open_branch(
    m0: AuthView,
    m1: AuthView,
    log0: Seq<BackendCall>,
    log1: Seq<BackendCall>,
    prev: Option<Seq<char>>,
    vars: Seq<(Seq<char>, Seq<char>)>,
    r: PamResult<()>,
    o: i32,
) -> bool {
    let ro = return_code_of(o as int);
    if ro != PamReturnCode::Success {
        &&& (exists|d: i32| log1 == #[trigger] spec_rollback_calls(log0, o, d))
        &&& m1 == (AuthView {
            state: SessionState::Created,
            last_code: ro,
            history: m1.history,
            ..m0
        })
        &&& m1.history == log1
        &&& vars.len() == 0
        &&& r == Err::<(), PamError>(PamError(ro))
    } else {
        &&& m1 == (AuthView {
            state: SessionState::SessionOpen,
            last_code: m1.last_code,
            history: m1.history,
            ..m0
        })
        &&& m1.history == log1
        &&& ({
            ||| (log1 == log0.push(BackendCall::OpenSession(o)) && vars.len() == 0 && r == Err::<
                (),
                PamError,
            >(PamError(PamReturnCode::UserUnknown)) && m1.last_code == ro)
            ||| (exists|name: Seq<char>, home: Seq<char>, shell: Seq<char>, codes: Seq<i32>|
                {
                    &&& log1 == log0.push(BackendCall::OpenSession(o)) + (
                    #[trigger] spec_putenv_calls(spec_env_plan(name, home, shell, prev), codes))
                    &&& spec_env_segment(
                        spec_env_plan(name, home, shell, prev),
                        codes,
                        vars,
                        r,
                        ro,
                        m1.last_code,
                    )
                })
        })
    }
}

/// What one session-opening call observably does, over the machine's
/// views, the context's call history, the assignments reported back
/// and the surfaced result: out of order it changes nothing and is
/// rejected with the permission-denied code; from `Authenticated` the
/// backend's answer decides among the branches of
/// [`spec_open_branch`].
pub open spec fn spec_open_post(
    m0: AuthView,
    m1: AuthView,
    log0: Seq<BackendCall>,
    log1: Seq<BackendCall>,
    prev: Option<Seq<char>>,
    vars: Seq<(Seq<char>, Seq<char>)>,
    r: PamResult<()>,
) -> bool {
    if m0.state != SessionState::Authenticated {
        &&& log1 == log0
        &&& m1 == m0
        &&& vars.len() == 0
        &&& r == Err::<(), PamError>(PamError(PamReturnCode::PermDenied))
    } else {
        exists|o: i32| #[trigger] spec_open_branch(m0, m1, log0, log1, prev, vars, r, o)
    }
}

/// The calls teardown makes from a given machine value: a session
/// close when a session is open and closing on drop is enabled, then
/// always one credential deletion and one release reporting the
/// retained last code.
pub open spec fn spec_teardown_calls(m: AuthView, x: i32, y: i32, z: i32) -> Seq<BackendCall> {
    let tail = seq![
        BackendCall::DeleteCredentials(y),
        BackendCall::End(code_of(m.last_code) as i32, z),
    ];
    if m.state == SessionState::SessionOpen && m.close_on_drop {
        seq![BackendCall::CloseSession(x)] + tail
    } else {
        tail
    }
}

/// The kind of a backend call, disregarding its payload.
#[derive(Clone, Copy, Debug, PartialEq, Eq, Structural)]
pub enum CallKind {
    /// An authentication attempt.
    Authenticate,
    /// An account validation.
    ValidateAccount,
    /// A credential establishment.
    EstablishCredentials,
    /// A credential deletion.
    DeleteCredentials,
    /// A session opening.
    OpenSession,
    /// A session close.
    CloseSession,
    /// A backend-tracked environment assignment.
    PutEnv,
    /// A context release.
    End,
}

/// The kind of one logged call.
pub open spec fn kind_of(c: BackendCall) -> CallKind {
    match c {
        BackendCall::Authenticate(_) => CallKind::Authenticate,
        BackendCall::ValidateAccount(_) => CallKind::ValidateAccount,
        BackendCall::EstablishCredentials(_) => CallKind::EstablishCredentials,
        BackendCall::DeleteCredentials(_) => CallKind::DeleteCredentials,
        BackendCall::OpenSession(_) => CallKind::OpenSession,
        BackendCall::CloseSession(_) => CallKind::CloseSession,
        BackendCall::PutEnv(_, _) => CallKind::PutEnv,
        BackendCall::End(_, _) => CallKind::End,
    }
}

/// How many calls of one kind a history holds.
pub open spec fn count_kind(log: Seq<BackendCall>, k: CallKind) -> nat
    decreases log.len(),
{
    if log.len() == 0 {
        0
    } else {
        count_kind(log.drop_last(), k) + if kind_of(log.last()) == k {
            1nat
        } else {
            0nat
        }
    }
}

/// Law: teardown safety. From whatever state teardown runs, the calls
/// it makes hold at most one session close — exactly one when a
/// session is open and closing on drop is enabled — exactly one
/// credential deletion, exactly one context release, and nothing
/// further.
pub proof fn lemma_teardown_counts(m: AuthView, x: i32, y: i32, z: i32)
    ensures
        count_kind(spec_teardown_calls(m, x, y, z), CallKind::CloseSession) == if m.state
            == SessionState::SessionOpen && m.close_on_drop {
            1nat
        } else {
            0nat
        },
        count_kind(spec_teardown_calls(m, x, y, z), CallKind::DeleteCredentials) == 1,
        count_kind(spec_teardown_calls(m, x, y, z), CallKind::End) == 1,
        spec_teardown_calls(m, x, y, z).len() <= 3,
{
    reveal_with_fuel(count_kind, 5);
    let s = spec_teardown_calls(m, x, y, z);
    let e = BackendCall::End(code_of(m.last_code) as i32, z);
    if m.state == SessionState::SessionOpen && m.close_on_drop {
        assert(s =~= seq![
            BackendCall::CloseSession(x),
            BackendCall::DeleteCredentials(y),
            e,
        ]);
        assert(s.drop_last() =~= seq![BackendCall::CloseSession(x), BackendCall::DeleteCredentials(y)]);
        assert(s.drop_last().drop_last() =~= seq![BackendCall::CloseSession(x)]);
        assert(s.drop_last().drop_last().drop_last() =~= Seq::<BackendCall>::empty());
    } else {
        assert(s =~= seq![BackendCall::DeleteCredentials(y), e]);
        assert(s.drop_last() =~= seq![BackendCall::DeleteCredentials(y)]);
        assert(s.drop_last().drop_last() =~= Seq::<BackendCall>::empty());
    }
}

/// Replays teardown from a given state: how many session closes,
/// credential deletions and context releases it performs — never more
/// than one of each.
pub fn teardown_plan(state: SessionState, close_on_drop: bool) -> (r: (usize, usize, usize))
    ensures
        r.0 == if state == SessionState::SessionOpen && close_on_drop {
            1int
        } else {
            0int
        },
        r.1 == 1,
        r.2 == 1,
{
    if matches!(state, SessionState::SessionOpen) && close_on_drop {
        (1, 1, 1)
    } else {
        (0, 1, 1)
    }
}

/// The authenticator: one instance owns one backend context for its
/// whole life and drives it through the attempt.
pub struct Authenticator {
    state: SessionState,
    last_code: PamReturnCode,
    close_on_drop: bool,
    closed: bool,
    credentials_locked: bool,
    login: String,
    secret: String,
    history: Ghost<Seq<BackendCall>>,
}

impl View for Authenticator {
    type V = AuthView;

    closed spec fn view(&self) -> AuthView {
        AuthView {
            state: self.state,
            last_code: self.last_code,
            close_on_drop: self.close_on_drop,
            closed: self.closed,
            credentials_locked: self.credentials_locked,
            login: self.login@,
            secret: self.secret@,
            history: self.history@,
        }
    }
}

impl Authenticator {
    /// A fresh machine for a context the backend just created: nothing
    /// authenticated, empty credentials, teardown closes a session by
    /// default.
    pub fn new() -> (r: Authenticator)
        ensures
            r@ == (AuthView {
                state: SessionState::Created,
                last_code: PamReturnCode::Success,
                close_on_drop: true,
                closed: false,
                credentials_locked: false,
                login: Seq::<char>::empty(),
                secret: Seq::<char>::empty(),
                history: Seq::<BackendCall>::empty(),
            }),
            in_sync(r@),
    {
        Authenticator {
            state: SessionState::Created,
            last_code: PamReturnCode::Success,
            close_on_drop: true,
            closed: false,
            credentials_locked: false,
            login: String::new(),
            secret: String::new(),
            history: Ghost(Seq::empty()),
        }
    }

    /// How far the attempt has come.
    pub fn state(&self) -> (r: SessionState)
        ensures
            r == self@.state,
    {
        self.state
    }

    /// The most recent backend outcome.
    pub fn last_code(&self) -> (r: PamReturnCode)
        ensures
            r == self@.last_code,
    {
        self.last_code
    }

    /// Whether teardown closes a still-open session.
    pub fn close_on_drop(&self) -> (r: bool)
        ensures
            r == self@.close_on_drop,
    {
        self.close_on_drop
    }

    /// Whether teardown has run.
    pub fn is_closed(&self) -> (r: bool)
        ensures
            r == self@.closed,
    {
        self.closed
    }

    /// The stored login name, as the conversation bridge answers it.
    pub fn login(&self) -> (r: &str)
        ensures
            r@ == self@.login,
    {
        self.login.as_str()
    }

    /// The stored secret, as the conversation bridge answers it.
    pub fn secret(&self) -> (r: &str)
        ensures
            r@ == self@.secret,
    {
        self.secret.as_str()
    }

    /// Chooses whether teardown closes a session left open.
    pub fn set_close_on_drop(&mut self, value: bool)
        ensures
            final(self)@ == (AuthView { close_on_drop: value, ..old(self)@ }),
    {
        self.close_on_drop = value;
    }

    /// Stores the credential pair the conversation bridge answers from.
    ///
    /// Allowed only while the pair has not yet been handed to the
    /// backend: once an authenticate attempt has begun the backend
    /// keeps reading this storage, so a later change is rejected with
    /// the permission-denied code and nothing is stored.
    pub fn set_credentials(&mut self, login: &str, secret: &str) -> (r: PamResult<()>)
        ensures
            old(self)@.credentials_locked ==> final(self)@ == old(self)@ && r == Err::<
                (),
                PamError,
            >(PamError(PamReturnCode::PermDenied)),
            !old(self)@.credentials_locked ==> final(self)@ == (AuthView {
                login: login@,
                secret: secret@,
                ..old(self)@
            }) && r == Ok::<(), PamError>(()),
    {
        if self.credentials_locked {
            Err(PamError(PamReturnCode::PermDenied))
        } else {
            self.login = login.to_owned();
            self.secret = secret.to_owned();
            Ok(())
        }
    }

    /// Rollback shared by every mid-sequence failure: asks the backend
    /// to delete whatever credentials were established — that call's
    /// own outcome is deliberately discarded — resets the state to
    /// `Created`, and surfaces the code that triggered the rollback.
    fn reset<B: Backend>(&mut self, backend: &mut B) -> (r: PamResult<()>)
        ensures
            final(self)@ == (AuthView {
                state: SessionState::Created,
                history: final(self)@.history,
                ..old(self)@
            }),
            r == Err::<(), PamError>(PamError(old(self)@.last_code)),
            exists|d: i32|
                final(self)@.history == old(self)@.history.push(BackendCall::DeleteCredentials(d)),
            !creds_established(final(self)@.history),
    {
        let d = backend.call(&BackendOp::DeleteCredentials);
        self.history = Ghost(self.history@.push(BackendCall::DeleteCredentials(d)));
        self.state = SessionState::Created;
        proof {
            lemma_established_delete(old(self)@.history, d);
        }
        Err(PamError(self.last_code))
    }

    /// Drives the backend's authenticate → validate → establish
    /// sequence, advancing `Created → Authenticated` on full success.
    ///
    /// The first step's failure is surfaced with nothing to roll back;
    /// a failure of either later step revokes the credentials through
    /// the shared rollback and surfaces that step's code. Whatever the
    /// backend answers, the state matches the credentials' standing
    /// afterwards, and the credential pair is locked from here on.
    pub fn authenticate<B: Backend>(&mut self, backend: &mut B) -> (r: PamResult<()>)
        requires
            !old(self)@.closed,
            in_sync(old(self)@),
        ensures
            in_sync(final(self)@),
            final(self)@.closed == false,
            final(self)@.credentials_locked,
            final(self)@.login == old(self)@.login,
            final(self)@.secret == old(self)@.secret,
            final(self)@.close_on_drop == old(self)@.close_on_drop,
            exists|a: i32, b: i32, c: i32, d: i32|
                {
                    let ra = return_code_of(a as int);
                    let rb = return_code_of(b as int);
                    let rc = return_code_of(c as int);
                    &&& final(self)@.history == old(self)@.history + (#[trigger] spec_auth_calls(
                        a,
                        b,
                        c,
                        d,
                    ))
                    &&& final(self)@.state == spec_auth_state(old(self)@.state, ra, rb, rc)
                    &&& r == spec_auth_result(ra, rb, rc)
                    &&& final(self)@.last_code == spec_auth_last(ra, rb, rc)
                },
    {
        let ghost log0 = self.history@;
        self.credentials_locked = true;
        let a = backend.call(&BackendOp::Authenticate);
        self.history = Ghost(self.history@.push(BackendCall::Authenticate(a)));
        let ra = PamReturnCode::from_code(a);
        self.last_code = ra;
        if !ra.is_success() {
            proof {
                assert(self@.history =~= log0 + spec_auth_calls(a, 0, 0, 0));
                lemma_authenticate_preserves_sync(old(self)@.state, self@.state, log0, a, 0, 0, 0);
                assert({
                    let rb = return_code_of(0);
                    let rc = return_code_of(0);
                    &&& self@.history == log0 + spec_auth_calls(a, 0, 0, 0)
                    &&& self@.state == spec_auth_state(old(self)@.state, ra, rb, rc)
                    &&& Err::<(), PamError>(PamError(ra)) == spec_auth_result(ra, rb, rc)
                    &&& self@.last_code == spec_auth_last(ra, rb, rc)
                });
            }
            return Err(PamError(ra));
        }
        let b = backend.call(&BackendOp::ValidateAccount);
        self.history = Ghost(self.history@.push(BackendCall::ValidateAccount(b)));
        let rb = PamReturnCode::from_code(b);
        self.last_code = rb;
        if !rb.is_success() {
            let r = self.reset(backend);
            proof {
                let d = choose|d: i32|
                    self@.history == log0.push(BackendCall::Authenticate(a)).push(
                        BackendCall::ValidateAccount(b),
                    ).push(BackendCall::DeleteCredentials(d));
                assert(self@.history =~= log0 + spec_auth_calls(a, b, 0, d));
                lemma_authenticate_preserves_sync(old(self)@.state, self@.state, log0, a, b, 0, d);
                assert({
                    let rc = return_code_of(0);
                    &&& self@.history == log0 + spec_auth_calls(a, b, 0, d)
                    &&& self@.state == spec_auth_state(old(self)@.state, ra, rb, rc)
                    &&& r == spec_auth_result(ra, rb, rc)
                    &&& self@.last_code == spec_auth_last(ra, rb, rc)
                });
            }
            return r;
        }
        let c = backend.call(&BackendOp::EstablishCredentials);
        self.history = Ghost(self.history@.push(BackendCall::EstablishCredentials(c)));
        let rc = PamReturnCode::from_code(c);
        self.last_code = rc;
        if !rc.is_success() {
            let r = self.reset(backend);
            proof {
                let d = choose|d: i32|
                    self@.history == log0.push(BackendCall::Authenticate(a)).push(
                        BackendCall::ValidateAccount(b),
                    ).push(BackendCall::EstablishCredentials(c)).push(
                        BackendCall::DeleteCredentials(d),
                    );
                assert(self@.history =~= log0 + spec_auth_calls(a, b, c, d));
                lemma_authenticate_preserves_sync(old(self)@.state, self@.state, log0, a, b, c, d);
                assert({
                    &&& self@.history == log0 + spec_auth_calls(a, b, c, d)
                    &&& self@.state == spec_auth_state(old(self)@.state, ra, rb, rc)
                    &&& r == spec_auth_result(ra, rb, rc)
                    &&& self@.last_code == spec_auth_last(ra, rb, rc)
                });
            }
            return r;
        }
        self.state = SessionState::Authenticated;
        proof {
            assert(self@.history =~= log0 + spec_auth_calls(a, b, c, 0));
            lemma_authenticate_preserves_sync(old(self)@.state, self@.state, log0, a, b, c, 0);
            assert({
                &&& self@.history == log0 + spec_auth_calls(a, b, c, 0)
                &&& self@.state == spec_auth_state(old(self)@.state, ra, rb, rc)
                &&& Ok::<(), PamError>(()) == spec_auth_result(ra, rb, rc)
                &&& self@.last_code == spec_auth_last(ra, rb, rc)
            });
        }
        Ok(())
    }

    /// Sets the plan of identity-derived variables in the
    /// backend-tracked environment, in order, stopping at the first
    /// assignment the backend rejects and surfacing that code.
    ///
    /// The returned list holds exactly the assignments that were
    /// attempted — a rejected one included — so that the embedding
    /// program can mirror them into the ambient process environment,
    /// whose mutation cannot stand here.
    pub fn initialize_environment<B: Backend>(
        &mut self,
        backend: &mut B,
        identity: &Identity,
        previous_path: Option<&str>,
    ) -> (r: (Vec<EnvVar>, PamResult<()>))
        requires
            !old(self)@.closed,
            in_sync(old(self)@),
        ensures
            in_sync(final(self)@),
            final(self)@ == (AuthView {
                last_code: final(self)@.last_code,
                history: final(self)@.history,
                ..old(self)@
            }),
            exists|codes: Seq<i32>|
                {
                    &&& final(self)@.history == old(self)@.history + (
                    #[trigger] spec_putenv_calls(
                        spec_env_plan(
                            identity.name@,
                            identity.home@,
                            identity.shell@,
                            opt_str_view(previous_path),
                        ),
                        codes,
                    ))
                    &&& spec_env_segment(
                        spec_env_plan(
                            identity.name@,
                            identity.home@,
                            identity.shell@,
                            opt_str_view(previous_path),
                        ),
                        codes,
                        env_vars_view(r.0@),
                        r.1,
                        old(self)@.last_code,
                        final(self)@.last_code,
                    )
                },
    {
        let ghost log0 = self.history@;
        let ghost plan_v = spec_env_plan(
            identity.name@,
            identity.home@,
            identity.shell@,
            opt_str_view(previous_path),
        );
        let plan = env_plan(identity, previous_path);
        let mut applied: Vec<EnvVar> = Vec::new();
        let ghost mut codes: Seq<i32> = Seq::empty();
        let mut i: usize = 0;
        proof {
            assert(log0 + spec_putenv_calls(plan_v, codes) =~= log0);
            assert(env_vars_view(applied@) =~= plan_v.take(0));
        }
        while i < plan.len()
            invariant
                log0 == old(self)@.history,
                in_sync(old(self)@),
                plan_v == spec_env_plan(
                    identity.name@,
                    identity.home@,
                    identity.shell@,
                    opt_str_view(previous_path),
                ),
                env_vars_view(plan@) == plan_v,
                plan@.len() == plan_v.len(),
                i <= plan@.len(),
                codes.len() == i,
                self@.history == log0 + spec_putenv_calls(plan_v, codes),
                creds_established(self@.history) == creds_established(log0),
                applied@.len() == i,
                env_vars_view(applied@) == plan_v.take(i as int),
                forall|j: int|
                    0 <= j < i ==> return_code_of(#[trigger] codes[j] as int)
                        == PamReturnCode::Success,
                self@ == (AuthView {
                    last_code: self@.last_code,
                    history: self@.history,
                    ..old(self)@
                }),
                i == 0 ==> self@.last_code == old(self)@.last_code,
                i > 0 ==> self@.last_code == return_code_of(codes.last() as int),
            decreases plan@.len() - i,
        {
            let mut kv = plan[i].name.clone();
            kv.append("=");
            kv.append(plan[i].value.as_str());
            let ghost kvv = kv@;
            let ghost log_before = self.history@;
            let op = BackendOp::PutEnv(kv);
            let code = backend.call(&op);
            self.history = Ghost(self.history@.push(BackendCall::PutEnv(kvv, code)));
            proof {
                lemma_established_neutral(log_before, BackendCall::PutEnv(kvv, code));
                assert(plan_v[i as int] == (plan@[i as int].name@, plan@[i as int].value@));
                codes = codes.push(code);
                assert(codes.last() == code);
                assert(forall|j: int|
                    0 <= j < i ==> return_code_of(#[trigger] codes[j] as int)
                        == PamReturnCode::Success);
                assert(log0 + spec_putenv_calls(plan_v, codes) =~= log_before.push(
                    BackendCall::PutEnv(kvv, code),
                ));
            }
            let rcode = PamReturnCode::from_code(code);
            self.last_code = rcode;
            let ghost prev_applied = applied@;
            applied.push(EnvVar { name: plan[i].name.clone(), value: plan[i].value.clone() });
            proof {
                assert forall|j: int| 0 <= j < applied@.len() implies #[trigger] env_vars_view(
                    applied@,
                )[j] == plan_v.take(i as int + 1)[j] by {
                    assert(env_vars_view(applied@)[j] == (applied@[j].name@, applied@[j].value@));
                    if j < i as int {
                        assert(applied@[j] == prev_applied[j]);
                        assert(env_vars_view(prev_applied)[j] == (
                            prev_applied[j].name@,
                            prev_applied[j].value@,
                        ));
                        assert(env_vars_view(prev_applied)[j] == plan_v.take(i as int)[j]);
                    } else {
                        assert(plan_v[i as int] == (plan@[i as int].name@, plan@[i as int].value@));
                    }
                }
                assert(env_vars_view(applied@) =~= plan_v.take(i as int + 1));
            }
            if !rcode.is_success() {
                proof {
                    lemma_env_result_last_fail(codes);
                    assert({
                        &&& self@.history == log0 + (#[trigger] spec_putenv_calls(
                            plan_v,
                            codes,
                        ))
                        &&& spec_env_segment(
                            plan_v,
                            codes,
                            env_vars_view(applied@),
                            Err::<(), PamError>(PamError(rcode)),
                            old(self)@.last_code,
                            self@.last_code,
                        )
                    });
                }
                return (applied, Err(PamError(rcode)));
            }
            i = i + 1;
        }
        proof {
            assert(plan_v.take(codes.len() as int) =~= plan_v);
            lemma_env_result_all_success(codes);
            assert({
                &&& self@.history == log0 + (#[trigger] spec_putenv_calls(plan_v, codes))
                &&& spec_env_segment(
                    plan_v,
                    codes,
                    env_vars_view(applied@),
                    Ok::<(), PamError>(()),
                    old(self)@.last_code,
                    self@.last_code,
                )
            });
        }
        (applied, Ok(()))
    }

    /// Opens a session on the authenticated context — `Authenticated →
    /// SessionOpen` — then initializes the environment for the stored
    /// login name.
    ///
    /// Out of order — the machine is not `Authenticated` — the call is
    /// rejected with the permission-denied code without touching the
    /// backend. A backend rejection of the session-open rolls back
    /// through the shared reset (credentials revoked, state `Created`)
    /// and surfaces that code. On acceptance the state is `SessionOpen`
    /// and remains so even when environment initialization fails — the
    /// session is genuinely open, and teardown should still close it: a
    /// login name the identity database cannot resolve surfaces the
    /// user-unknown code, and a rejected assignment surfaces its own.
    /// The returned list holds the assignments attempted, for the
    /// embedding program to mirror into the ambient process
    /// environment.
    pub fn open_session<B: Backend>(
        &mut self,
        backend: &mut B,
        previous_path: Option<&str>,
    ) -> (r: (Vec<EnvVar>, PamResult<()>))
        requires
            !old(self)@.closed,
            in_sync(old(self)@),
        ensures
            in_sync(final(self)@),
            final(self)@.closed == false,
            spec_open_post(
                old(self)@,
                final(self)@,
                old(self)@.history,
                final(self)@.history,
                opt_str_view(previous_path),
                env_vars_view(r.0@),
                r.1,
            ),
    {
        if !matches!(self.state, SessionState::Authenticated) {
            let empty: Vec<EnvVar> = Vec::new();
            proof {
                assert(env_vars_view(empty@).len() == 0);
            }
            return (empty, Err(PamError(PamReturnCode::PermDenied)));
        }
        let ghost log0 = self.history@;
        let o = backend.call(&BackendOp::OpenSession);
        self.history = Ghost(self.history@.push(BackendCall::OpenSession(o)));
        let ro = PamReturnCode::from_code(o);
        self.last_code = ro;
        if !ro.is_success() {
            let r = self.reset(backend);
            let empty: Vec<EnvVar> = Vec::new();
            proof {
                let d = choose|d: i32|
                    self@.history == log0.push(BackendCall::OpenSession(o)).push(
                        BackendCall::DeleteCredentials(d),
                    );
                assert(self@.history == spec_rollback_calls(log0, o, d));
                assert(env_vars_view(empty@).len() == 0);
                assert(spec_open_branch(
                    old(self)@,
                    self@,
                    log0,
                    self@.history,
                    opt_str_view(previous_path),
                    env_vars_view(empty@),
                    r,
                    o,
                ));
            }
            return (empty, r);
        }
        self.state = SessionState::SessionOpen;
        proof {
            lemma_established_neutral(log0, BackendCall::OpenSession(o));
        }
        let identity_found = lookup_identity(self.login.as_str());
        match identity_found {
            None => {
                let empty: Vec<EnvVar> = Vec::new();
                proof {
                    assert(env_vars_view(empty@).len() == 0);
                    assert(spec_open_branch(
                        old(self)@,
                        self@,
                        log0,
                        self@.history,
                        opt_str_view(previous_path),
                        env_vars_view(empty@),
                        Err::<(), PamError>(PamError(PamReturnCode::UserUnknown)),
                        o,
                    ));
                }
                (empty, Err(PamError(PamReturnCode::UserUnknown)))
            },
            Some(identity) => {
                let ghost log1 = self.history@;
                let ghost m_mid = self@;
                let rr = self.initialize_environment(backend, &identity, previous_path);
                proof {
                    let codes = choose|codes: Seq<i32>|
                        {
                            &&& self@.history == log1 + (#[trigger] spec_putenv_calls(
                                spec_env_plan(
                                    identity.name@,
                                    identity.home@,
                                    identity.shell@,
                                    opt_str_view(previous_path),
                                ),
                                codes,
                            ))
                            &&& spec_env_segment(
                                spec_env_plan(
                                    identity.name@,
                                    identity.home@,
                                    identity.shell@,
                                    opt_str_view(previous_path),
                                ),
                                codes,
                                env_vars_view(rr.0@),
                                rr.1,
                                m_mid.last_code,
                                self@.last_code,
                            )
                        };
                    assert(self@.history == log0.push(BackendCall::OpenSession(o)) + (
                    #[trigger] spec_putenv_calls(
                        spec_env_plan(
                            identity.name@,
                            identity.home@,
                            identity.shell@,
                            opt_str_view(previous_path),
                        ),
                        codes,
                    )));
                    assert(spec_open_branch(
                        old(self)@,
                        self@,
                        log0,
                        self@.history,
                        opt_str_view(previous_path),
                        env_vars_view(rr.0@),
                        rr.1,
                        o,
                    ));
                }
                rr
            },
        }
    }

    /// Tears the attempt down: closes a still-open session when closing
    /// on drop is enabled, always revokes whatever credentials were
    /// established, and releases the context, reporting the retained
    /// last code to the backend's own cleanup. Each of the three is a
    /// best-effort call whose own outcome is deliberately discarded: no
    /// caller remains to observe it. Running teardown on a machine that
    /// is already closed does nothing at all. The embedding program
    /// runs this from its scoped destructor, so it happens exactly once
    /// on every exit path there.
    pub fn close<B: Backend>(&mut self, backend: &mut B)
        requires
            in_sync(old(self)@),
        ensures
            final(self)@.closed,
            in_sync(final(self)@),
            old(self)@.closed ==> final(self)@ == old(self)@,
            !old(self)@.closed ==> final(self)@ == (AuthView {
                state: SessionState::Created,
                closed: true,
                history: final(self)@.history,
                ..old(self)@
            }) && exists|x: i32, y: i32, z: i32|
                final(self)@.history == old(self)@.history + (#[trigger] spec_teardown_calls(
                    old(self)@,
                    x,
                    y,
                    z,
                )),
    {
        if self.closed {
            return ;
        }
        let ghost log0 = self.history@;
        let mut x: i32 = 0;
        if matches!(self.state, SessionState::SessionOpen) && self.close_on_drop {
            x = backend.call(&BackendOp::CloseSession);
            self.history = Ghost(self.history@.push(BackendCall::CloseSession(x)));
        }
        let ghost log_mid = self.history@;
        let y = backend.call(&BackendOp::DeleteCredentials);
        self.history = Ghost(self.history@.push(BackendCall::DeleteCredentials(y)));
        let w = self.last_code.to_code();
        let z = backend.call(&BackendOp::End(w));
        self.history = Ghost(self.history@.push(BackendCall::End(w, z)));
        self.state = SessionState::Created;
        self.closed = true;
        proof {
            assert(w == code_of(old(self)@.last_code) as i32);
            lemma_established_delete(log_mid, y);
            lemma_established_neutral(
                log_mid.push(BackendCall::DeleteCredentials(y)),
                BackendCall::End(w, z),
            );
            assert(self@.history =~= log0 + (#[trigger] spec_teardown_calls(
                old(self)@,
                x,
                y,
                z,
            )));
        }
    }
}

} // verus!
