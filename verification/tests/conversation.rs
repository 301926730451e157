use pam::conv::{converse, response_for, ERROR_MSG, PROMPT_ECHO_OFF, PROMPT_ECHO_ON, TEXT_INFO};
use pam::enums::PamReturnCode;

#[test]
fn one_response_per_request_in_order() {
    let styles = vec![PROMPT_ECHO_ON, PROMPT_ECHO_OFF, ERROR_MSG, TEXT_INFO];
    let (responses, code) = converse("alice", "correct", &styles);
    assert_eq!(code, PamReturnCode::Success);
    assert_eq!(responses.len(), 4);
    assert_eq!(responses[0].as_deref(), Some("alice"));
    assert_eq!(responses[1].as_deref(), Some("correct"));
    assert_eq!(responses[2], None);
    assert_eq!(responses[3], None);
}

#[test]
fn empty_sequence_succeeds_with_no_responses() {
    let styles: Vec<i32> = Vec::new();
    let (responses, code) = converse("alice", "correct", &styles);
    assert_eq!(code, PamReturnCode::Success);
    assert!(responses.is_empty());
}

#[test]
fn unrecognized_style_is_informational_and_still_succeeds() {
    let styles = vec![0, 99, -7, PROMPT_ECHO_ON];
    let (responses, code) = converse("bob", "secret", &styles);
    assert_eq!(code, PamReturnCode::Success);
    assert_eq!(responses.len(), 4);
    assert_eq!(responses[0], None);
    assert_eq!(responses[1], None);
    assert_eq!(responses[2], None);
    assert_eq!(responses[3].as_deref(), Some("bob"));
}

#[test]
fn repeated_prompts_answer_from_stored_pair_each_time() {
    let styles = vec![PROMPT_ECHO_OFF, PROMPT_ECHO_OFF, PROMPT_ECHO_ON];
    let (responses, code) = converse("carol", "pw", &styles);
    assert_eq!(code, PamReturnCode::Success);
    assert_eq!(responses[0].as_deref(), Some("pw"));
    assert_eq!(responses[1].as_deref(), Some("pw"));
    assert_eq!(responses[2].as_deref(), Some("carol"));
}

#[test]
fn single_prompt_answers() {
    assert_eq!(response_for(PROMPT_ECHO_ON, "u", "s").as_deref(), Some("u"));
    assert_eq!(response_for(PROMPT_ECHO_OFF, "u", "s").as_deref(), Some("s"));
    assert_eq!(response_for(ERROR_MSG, "u", "s"), None);
    assert_eq!(response_for(TEXT_INFO, "u", "s"), None);
}
