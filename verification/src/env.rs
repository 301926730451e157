//! The environment initializer's data: the identity record and the
//! fixed, ordered plan of variables set once a session has opened.
//!
//! The plan holds six assignments, in this order: the identity name
//! under its two conventional names, the home directory under its two
//! conventional names, the login shell, and a `PATH` that appends the
//! standard system binary directories to whatever `PATH` was already
//! set. The order matters: a later entry is only meaningful when the
//! earlier ones could be established, so the caller applying the plan
//! stops at the first assignment the backend rejects.

use vstd::prelude::*;
use users::os::unix::UserExt;

verus! {

use crate::enums::{code_of, lemma_code_roundtrip, return_code_of, PamReturnCode};
use crate::{PamError, PamResult};

/// What the identity database knows of an authenticated login name.
pub struct Identity {
    /// The canonical identity name.
    pub name: String,
    /// The home directory.
    pub home: String,
    /// The login shell.
    pub shell: String,
}

/// One environment assignment of the plan.
pub struct EnvVar {
    /// The variable's name.
    pub name: String,
    /// The value assigned to it.
    pub value: String,
}

/// The directories appended to `PATH`.
pub open spec fn spec_path_dirs() -> Seq<char> {
    "/usr/local/sbin:/usr/local/bin:/usr/sbin:/usr/bin:/sbin:/bin"@
}

/// The `PATH` value of the plan: the previous value, when there was
/// one, extended with the standard system binary directories.
pub open spec fn spec_path_value(previous: Option<Seq<char>>) -> Seq<char> {
    match previous {
        Some(p) => p + ":"@ + spec_path_dirs(),
        None => spec_path_dirs(),
    }
}

/// The six ordered assignments derived from an identity.
pub open spec fn spec_env_plan(
    name: Seq<char>,
    home: Seq<char>,
    shell: Seq<char>,
    previous_path: Option<Seq<char>>,
) -> Seq<(Seq<char>, Seq<char>)> {
    seq![
        ("USER"@, name),
        ("LOGNAME"@, name),
        ("HOME"@, home),
        ("PWD"@, home),
        ("SHELL"@, shell),
        ("PATH"@, spec_path_value(previous_path)),
    ]
}

/// The view of an assignment list.
pub open spec fn env_vars_view(vars: Seq<EnvVar>) -> Seq<(Seq<char>, Seq<char>)> {
    vars.map_values(|v: EnvVar| (v.name@, v.value@))
}

/// The view of an optional borrowed string.
pub open spec fn opt_str_view(p: Option<&str>) -> Option<Seq<char>> {
    match p {
        Some(s) => Some(s@),
        None => None,
    }
}

/// The backend-tracked assignments made when the first `codes.len()`
/// entries of a plan are handed over, each as its `NAME=value` text
/// with the code the backend answered.
pub open spec fn spec_putenv_calls(
    plan: Seq<(Seq<char>, Seq<char>)>,
    codes: Seq<i32>,
) -> Seq<crate::backend::BackendCall> {
    Seq::new(
        codes.len(),
        |i: int| crate::backend::BackendCall::PutEnv(plan[i].0 + "="@ + plan[i].1, codes[i]),
    )
}

/// Describes one application of an environment plan, given the codes
/// the backend answered for the attempted assignments: the assignments
/// attempted are exactly a prefix of the plan; every answer before the
/// last was an acceptance; an attempt stops short of the whole plan
/// only on a rejection; the surfaced result is the first rejection's
/// code, or success; and the retained last code is the final answer,
/// or stays `last0` when nothing was attempted.
pub open spec fn spec_env_segment(
    plan: Seq<(Seq<char>, Seq<char>)>,
    codes: Seq<i32>,
    vars: Seq<(Seq<char>, Seq<char>)>,
    r: PamResult<()>,
    last0: PamReturnCode,
    last1: PamReturnCode,
) -> bool {
    &&& codes.len() <= plan.len()
    &&& vars == plan.take(codes.len() as int)
    &&& (forall|j: int|
        0 <= j < codes.len() - 1 ==> return_code_of(#[trigger] codes[j] as int)
            == PamReturnCode::Success)
    &&& (codes.len() < plan.len() ==> codes.len() > 0 && return_code_of(codes.last() as int)
        != PamReturnCode::Success)
    &&& r == spec_env_result(codes)
    &&& last1 == if codes.len() == 0 {
        last0
    } else {
        return_code_of(codes.last() as int)
    }
}

/// When every answer is an acceptance, an application of the plan
/// surfaces success.
pub proof fn lemma_env_result_all_success(codes: Seq<i32>)
    requires
        forall|j: int|
            0 <= j < codes.len() ==> return_code_of(#[trigger] codes[j] as int)
                == PamReturnCode::Success,
    ensures
        spec_env_result(codes) == Ok::<(), PamError>(()),
    decreases codes.len(),
{
    if codes.len() > 0 {
        assert(return_code_of(codes[0] as int) == PamReturnCode::Success);
        assert forall|j: int|
            0 <= j < codes.drop_first().len() implies return_code_of(
            #[trigger] codes.drop_first()[j] as int,
        ) == PamReturnCode::Success by {
            assert(codes.drop_first()[j] == codes[j + 1]);
        }
        lemma_env_result_all_success(codes.drop_first());
    }
}

/// When every answer but the last is an acceptance and the last is a
/// rejection, an application of the plan surfaces that rejection.
pub proof fn lemma_env_result_last_fail(codes: Seq<i32>)
    requires
        codes.len() > 0,
        forall|j: int|
            0 <= j < codes.len() - 1 ==> return_code_of(#[trigger] codes[j] as int)
                == PamReturnCode::Success,
        return_code_of(codes.last() as int) != PamReturnCode::Success,
    ensures
        spec_env_result(codes) == Err::<(), PamError>(
            PamError(return_code_of(codes.last() as int)),
        ),
    decreases codes.len(),
{
    if codes.len() == 1 {
        assert(codes[0] == codes.last());
    } else {
        assert(return_code_of(codes[0] as int) == PamReturnCode::Success);
        assert forall|j: int|
            0 <= j < codes.drop_first().len() - 1 implies return_code_of(
            #[trigger] codes.drop_first()[j] as int,
        ) == PamReturnCode::Success by {
            assert(codes.drop_first()[j] == codes[j + 1]);
        }
        assert(codes.drop_first().last() == codes.last());
        lemma_env_result_last_fail(codes.drop_first());
    }
}

/// Relies on users::get_user_by_name (getpwnam): resolves a login name
/// in the operating environment's identity database to its canonical
/// name, home directory and login shell; absent when the name is not
/// known there.
#[verifier::external_body]
pub(crate) fn lookup_identity(login: &str) -> (r: Option<Identity>)
{
    users::get_user_by_name(login).map(|u| Identity {
        name: u.name().to_string_lossy().into_owned(),
        home: u.home_dir().to_string_lossy().into_owned(),
        shell: u.shell().to_string_lossy().into_owned(),
    })
}

/// Builds the `PATH` value of the plan.
pub fn path_value(previous: Option<&str>) -> (r: String)
    ensures
        r@ == spec_path_value(match previous {
            Some(p) => Some(p@),
            None => None,
        }),
{
    let dirs = "/usr/local/sbin:/usr/local/bin:/usr/sbin:/usr/bin:/sbin:/bin";
    match previous {
        Some(p) => {
            let mut s = p.to_owned();
            s.append(":");
            s.append(dirs);
            s
        },
        None => dirs.to_owned(),
    }
}

/// Builds the six ordered assignments for an identity.
pub fn env_plan(identity: &Identity, previous_path: Option<&str>) -> (r: Vec<EnvVar>)
    ensures
        env_vars_view(r@) == spec_env_plan(
            identity.name@,
            identity.home@,
            identity.shell@,
            match previous_path {
                Some(p) => Some(p@),
                None => None,
            },
        ),
{
    let mut plan: Vec<EnvVar> = Vec::new();
    plan.push(EnvVar { name: "USER".to_owned(), value: identity.name.clone() });
    plan.push(EnvVar { name: "LOGNAME".to_owned(), value: identity.name.clone() });
    plan.push(EnvVar { name: "HOME".to_owned(), value: identity.home.clone() });
    plan.push(EnvVar { name: "PWD".to_owned(), value: identity.home.clone() });
    plan.push(EnvVar { name: "SHELL".to_owned(), value: identity.shell.clone() });
    plan.push(EnvVar { name: "PATH".to_owned(), value: path_value(previous_path) });
    proof {
        assert(env_vars_view(plan@) =~= spec_env_plan(
            identity.name@,
            identity.home@,
            identity.shell@,
            match previous_path {
                Some(p) => Some(p@),
                None => None,
            },
        ));
    }
    plan
}

/// How many of the plan's assignments an application attempts when the
/// backend answers with the given codes: everything up to and including
/// the first rejected assignment, and never more than the plan has.
pub open spec fn spec_env_attempted(codes: Seq<i32>, total: nat) -> nat
    decreases codes.len(),
{
    if codes.len() == 0 || total == 0 {
        0
    } else if return_code_of(codes[0] as int) != PamReturnCode::Success {
        1
    } else {
        1 + spec_env_attempted(codes.drop_first(), (total - 1) as nat)
    }
}

/// The result an application of the plan surfaces: success when every
/// assignment was accepted, else the first rejected assignment's code.
pub open spec fn spec_env_result(codes: Seq<i32>) -> PamResult<()>
    decreases codes.len(),
{
    if codes.len() == 0 {
        Ok(())
    } else if return_code_of(codes[0] as int) != PamReturnCode::Success {
        Err(PamError(return_code_of(codes[0] as int)))
    } else {
        spec_env_result(codes.drop_first())
    }
}

/// Replays an application of an environment plan from the backend's
/// answers alone: given the codes the backend would return, one per
/// attempted assignment, reports how many of `total` assignments are
/// attempted and what the initializer surfaces.
///
/// When the k-th answer is a rejection, exactly k assignments are
/// attempted — the later ones never are — and the surfaced error is
/// that k-th code.
pub fn environment_outcome(codes: &Vec<PamReturnCode>, total: usize) -> (r: (usize, PamResult<()>))
    requires
        codes@.len() == total,
    ensures
        r.0 == spec_env_attempted(codes@.map_values(|c: PamReturnCode| code_of(c) as i32), total as nat),
        r.1 == spec_env_result(codes@.map_values(|c: PamReturnCode| code_of(c) as i32)),
{
    let ghost raw = codes@.map_values(|c: PamReturnCode| code_of(c) as i32);
    proof {
        assert(raw.skip(0) =~= raw);
    }
    let mut i: usize = 0;
    while i < codes.len()
        invariant
            codes@.len() == total,
            raw == codes@.map_values(|c: PamReturnCode| code_of(c) as i32),
            i <= total,
            spec_env_attempted(raw, total as nat) == i + spec_env_attempted(
                raw.skip(i as int),
                (total - i) as nat,
            ),
            spec_env_result(raw) == spec_env_result(raw.skip(i as int)),
            forall|j: int| 0 <= j < i ==> codes@[j] == PamReturnCode::Success,
        decreases codes@.len() - i,
    {
        let c = codes[i];
        proof {
            assert(raw.skip(i as int)[0] == raw[i as int]);
            assert(return_code_of(raw[i as int] as int) == codes@[i as int]) by {
                lemma_code_roundtrip(codes@[i as int]);
            }
            assert(raw.skip(i as int).drop_first() =~= raw.skip(i as int + 1));
        }
        if !c.is_success() {
            return (i + 1, Err(PamError(c)));
        }
        i = i + 1;
    }
    proof {
        assert(raw.skip(total as int) =~= Seq::<i32>::empty());
    }
    (total, Ok(()))
}

} // verus!
