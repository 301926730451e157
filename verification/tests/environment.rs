use pam::enums::PamReturnCode;
use pam::env::{env_plan, environment_outcome, path_value, Identity};
use pam::PamError;

fn identity() -> Identity {
    Identity {
        name: "bob".to_string(),
        home: "/home/bob".to_string(),
        shell: "/bin/bash".to_string(),
    }
}

const DIRS: &str = "/usr/local/sbin:/usr/local/bin:/usr/sbin:/usr/bin:/sbin:/bin";

#[test]
fn plan_holds_the_six_assignments_in_order() {
    let plan = env_plan(&identity(), Some("/usr/bin"));
    let pairs: Vec<(&str, &str)> = plan
        .iter()
        .map(|v| (v.name.as_str(), v.value.as_str()))
        .collect();
    assert_eq!(
        pairs,
        vec![
            ("USER", "bob"),
            ("LOGNAME", "bob"),
            ("HOME", "/home/bob"),
            ("PWD", "/home/bob"),
            ("SHELL", "/bin/bash"),
            ("PATH", "/usr/bin:/usr/local/sbin:/usr/local/bin:/usr/sbin:/usr/bin:/sbin:/bin"),
        ]
    );
}

#[test]
fn path_appends_to_a_previous_value() {
    assert_eq!(path_value(Some("/bin")), format!("/bin:{}", DIRS));
}

#[test]
fn path_without_a_previous_value_is_the_system_directories() {
    assert_eq!(path_value(None), DIRS);
    let plan = env_plan(&identity(), None);
    assert_eq!(plan[5].value, DIRS);
}

#[test]
fn all_accepted_applies_the_whole_plan() {
    let codes = vec![PamReturnCode::Success; 6];
    let (attempted, result) = environment_outcome(&codes, 6);
    assert_eq!(attempted, 6);
    assert_eq!(result, Ok(()));
}

#[test]
fn rejection_stops_the_remaining_assignments() {
    let codes = vec![
        PamReturnCode::Success,
        PamReturnCode::Success,
        PamReturnCode::BufErr,
        PamReturnCode::Success,
        PamReturnCode::Success,
        PamReturnCode::Success,
    ];
    let (attempted, result) = environment_outcome(&codes, 6);
    assert_eq!(attempted, 3);
    assert_eq!(result, Err(PamError(PamReturnCode::BufErr)));
}

#[test]
fn first_rejection_stops_everything_after_it() {
    let codes = vec![PamReturnCode::PermDenied; 6];
    let (attempted, result) = environment_outcome(&codes, 6);
    assert_eq!(attempted, 1);
    assert_eq!(result, Err(PamError(PamReturnCode::PermDenied)));
}

#[test]
fn empty_plan_succeeds_untouched() {
    let codes: Vec<PamReturnCode> = Vec::new();
    let (attempted, result) = environment_outcome(&codes, 0);
    assert_eq!(attempted, 0);
    assert_eq!(result, Ok(()));
}
