//! The backend boundary: the operations the machine asks of the native
//! authentication backend, the transport over which it asks them, and
//! the call record the contracts speak of.
//!
//! The native library itself cannot be linked from here — its binding
//! involves raw callback registration and an opaque context no
//! verified type can hold — so the machine reaches it through the
//! [`Backend`] trait: the embedding program implements it over the
//! real library, and tests implement it with scripted answers. The
//! trait promises nothing about the answers; the machine is verified
//! against every possible one.

use vstd::prelude::*;

verus! {

/// One operation requested of the backend.
pub enum BackendOp {
    /// Run one authentication attempt, driving the conversation.
    Authenticate,
    /// Validate the authenticated account.
    ValidateAccount,
    /// Establish the authenticated identity's credentials.
    EstablishCredentials,
    /// Delete whatever credentials were established.
    DeleteCredentials,
    /// Open a session.
    OpenSession,
    /// Close the session.
    CloseSession,
    /// Record one `NAME=value` assignment in the backend-tracked
    /// environment.
    PutEnv(String),
    /// Release the context, reporting the given final status code.
    End(i32),
}

/// One backend call as the contracts record it: the operation's
/// payload together with the raw code the backend answered.
pub enum BackendCall {
    /// An authentication attempt.
    Authenticate(i32),
    /// An account validation.
    ValidateAccount(i32),
    /// Establishing the authenticated identity's credentials.
    EstablishCredentials(i32),
    /// Deleting whatever credentials were established.
    DeleteCredentials(i32),
    /// Opening a session.
    OpenSession(i32),
    /// Closing the session.
    CloseSession(i32),
    /// A backend-tracked environment assignment, with the `NAME=value`
    /// text that was handed over.
    PutEnv(Seq<char>, i32),
    /// Releasing the context, with the final status reported to it.
    End(i32, i32),
}

/// The transport to the backend. Each call performs one operation on
/// the one context the implementor stands for and returns the
/// backend's raw status code. No contract binds the answers: whatever
/// comes back, the machine's guarantees hold.
pub trait Backend {
    /// Performs one operation and returns the backend's status code.
    fn call(&mut self, op: &BackendOp) -> i32;
}

} // verus!
