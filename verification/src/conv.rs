//! The conversation bridge.
//!
//! During authentication the backend asks the calling side for
//! information through a sequence of prompts, each tagged with a style.
//! This bridge answers every prompt immediately from a pre-supplied
//! credential pair instead of a human: visible prompts get the login
//! name, masked prompts get the secret, and the informational styles get
//! no answer. An unrecognized style is treated as informational, so the
//! exchange still succeeds.

use vstd::prelude::*;

verus! {

use crate::enums::PamReturnCode;

/// Style of a prompt that expects a visible answer: the login name.
pub const PROMPT_ECHO_ON: i32 = 2;

/// Style of a prompt that expects a masked answer: the secret.
pub const PROMPT_ECHO_OFF: i32 = 1;

/// Style of an error message; no answer is expected.
pub const ERROR_MSG: i32 = 3;

/// Style of an informational message; no answer is expected.
pub const TEXT_INFO: i32 = 4;

/// The answer the bridge owes a prompt of the given style: the login
/// name for a visible prompt, the secret for a masked one, and no
/// payload for everything else.
pub open spec fn spec_response_for(style: i32, login: Seq<char>, secret: Seq<char>) -> Option<
    Seq<char>,
> {
    if style == PROMPT_ECHO_ON {
        Some(login)
    } else if style == PROMPT_ECHO_OFF {
        Some(secret)
    } else {
        None
    }
}

/// The view of an optional owned response.
pub open spec fn response_view(r: Option<String>) -> Option<Seq<char>> {
    match r {
        Some(s) => Some(s@),
        None => None,
    }
}

/// Answers a single prompt from the stored credential pair.
pub fn response_for(style: i32, login: &str, secret: &str) -> (r: Option<String>)
    ensures
        response_view(r) == spec_response_for(style, login@, secret@),
{
    if style == PROMPT_ECHO_ON {
        Some(login.to_owned())
    } else if style == PROMPT_ECHO_OFF {
        Some(secret.to_owned())
    } else {
        None
    }
}

/// Answers a whole prompt sequence in order.
///
/// For a request sequence of any length and any styles, the result holds
/// exactly one response per request, in the same order; visible prompts
/// are answered with the login name, masked prompts with the secret, and
/// the informational styles (or any unrecognized style) with no payload.
/// The exchange always reports success; an empty sequence yields an
/// empty response sequence.
pub fn converse(login: &str, secret: &str, styles: &Vec<i32>) -> (r: (
    Vec<Option<String>>,
    PamReturnCode,
))
    ensures
        r.0@.len() == styles@.len(),
        forall|i: int|
            0 <= i < styles@.len() ==> response_view(r.0@[i]) == spec_response_for(
                styles@[i],
                login@,
                secret@,
            ),
        r.1 == PamReturnCode::Success,
{
    let mut responses: Vec<Option<String>> = Vec::new();
    let mut i: usize = 0;
    while i < styles.len()
        invariant
            i <= styles@.len(),
            responses@.len() == i,
            forall|j: int|
                0 <= j < i ==> response_view(responses@[j]) == spec_response_for(
                    styles@[j],
                    login@,
                    secret@,
                ),
        decreases styles@.len() - i,
    {
        responses.push(response_for(styles[i], login, secret));
        i = i + 1;
    }
    (responses, PamReturnCode::Success)
}

} // verus!
