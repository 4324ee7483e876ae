use window_sensor::diagnostics::{DiagnosticsState, RESETREAS_DOG0};

#[test]
fn watchdog_reset_is_latched_as_problem() {
    let mut state = DiagnosticsState::new();
    state.note_resetreas(RESETREAS_DOG0);

    assert!(state.unexpected_reset);
    assert!(state.problem_active());
}

#[test]
fn benign_reset_does_not_raise_problem() {
    let mut state = DiagnosticsState::new();
    state.note_resetreas(1);

    assert!(!state.unexpected_reset);
    assert!(!state.problem_active());
}

#[test]
fn pofwarn_latches_problem() {
    let mut state = DiagnosticsState::new();
    state.note_pofwarn();

    assert!(state.pofwarn_seen);
    assert!(state.problem_active());
}

#[test]
fn a_problem_is_never_forgotten() {
    let mut state = DiagnosticsState::new();
    state.note_pofwarn();
    state.note_resetreas(0);
    assert!(state.problem_active());
    assert!(!state.unexpected_reset);
}

#[test]
fn further_reset_reasons_hide_nothing() {
    let mut state = DiagnosticsState::new();
    state.note_resetreas(RESETREAS_DOG0 | 1);
    assert!(state.problem_active());
}
