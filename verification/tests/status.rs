use code_executer::state::ExecutionState;
use code_executer::status::ProcessStatus;

#[test]
fn running_is_not_finished() {
    assert!(!ProcessStatus::Running.is_finished());
}

#[test]
fn success_is_finished() {
    assert!(ProcessStatus::Success.is_finished());
}

#[test]
fn failure_is_finished() {
    assert!(ProcessStatus::Failure.is_finished());
}

#[test]
fn default_status_is_running() {
    assert_eq!(ProcessStatus::default(), ProcessStatus::Running);
}

#[test]
fn clean_exit_is_success() {
    assert_eq!(ProcessStatus::from_exit(Some(true)), ProcessStatus::Success);
}

#[test]
fn unclean_exit_is_failure() {
    assert_eq!(ProcessStatus::from_exit(Some(false)), ProcessStatus::Failure);
}

#[test]
fn unknown_exit_is_failure() {
    assert_eq!(ProcessStatus::from_exit(None), ProcessStatus::Failure);
}

#[test]
fn new_state_is_empty_and_running() {
    let state = ExecutionState::new();
    assert!(state.output.is_empty());
    assert!(state.error_output.is_empty());
    assert_eq!(state.status, ProcessStatus::Running);
}

#[test]
fn default_state_is_empty_and_running() {
    let state = ExecutionState::default();
    assert!(state.output.is_empty());
    assert!(state.error_output.is_empty());
    assert_eq!(state.status, ProcessStatus::Running);
}

#[test]
fn clone_of_state_is_independent() {
    let mut state = ExecutionState::new();
    state.output.push("one".to_string());
    state.error_output.push("two".to_string());
    state.status = ProcessStatus::Failure;
    let copy = state.clone();
    state.output.push("three".to_string());
    state.status = ProcessStatus::Success;
    assert_eq!(copy.output, vec!["one".to_string()]);
    assert_eq!(copy.error_output, vec!["two".to_string()]);
    assert_eq!(copy.status, ProcessStatus::Failure);
    assert_eq!(state.output, vec!["one".to_string(), "three".to_string()]);
}
