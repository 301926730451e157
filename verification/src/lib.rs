//! A safe, verified layer over a pluggable authentication backend.
//!
//! The crate drives one authentication attempt through its whole life:
//! credential exchange over the backend's conversation protocol,
//! account validation, credential establishment, session opening with
//! environment initialization, and teardown. The backend itself is an
//! external collaborator reached through the [`backend::Backend`]
//! transport, which promises nothing about its answers; everything the
//! library decides on top of those answers is verified.

use vstd::prelude::*;

pub mod auth;
pub mod backend;
pub mod conv;
pub mod enums;
pub mod env;

verus! {

use crate::enums::PamReturnCode;

/// An error of the authentication layer: a non-success backend return code.
#[derive(Clone, Copy, Debug, PartialEq, Eq, Structural)]
pub struct PamError(pub PamReturnCode);

/// The result of every fallible operation of this library.
pub type PamResult<T> = Result<T, PamError>;

impl PamError {
    /// The backend return code this error carries.
    pub fn code(&self) -> (r: PamReturnCode)
        ensures
            r == self.0,
    {
        self.0
    }

    /// A short, fixed description of what this error is.
    pub fn description(&self) -> (r: &'static str)
        ensures
            r@ == "PAM returned an error code"@,
    {
        "PAM returned an error code"
    }
}

impl From<PamReturnCode> for PamError {
    fn from(err: PamReturnCode) -> (r: PamError) {
        PamError(err)
    }
}

impl vstd::std_specs::convert::FromSpecImpl<PamReturnCode> for PamError {
    open spec fn obeys_from_spec() -> bool {
        true
    }

    open spec fn from_spec(err: PamReturnCode) -> PamError {
        PamError(err)
    }
}

} // verus!
