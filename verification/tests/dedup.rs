use scanner::scan::{BoundedScanState, ScanState};
use scanner::{CodeType, ScanResult};

fn frame(code: &str) -> Option<ScanResult> {
    Some(ScanResult { code: String::from(code), code_type: CodeType::QrCode })
}

fn run(state: &mut ScanState, frames: Vec<Option<ScanResult>>) -> Vec<String> {
    let mut emitted = Vec::new();
    for obs in frames {
        if let Some(res) = state.observe(obs) {
            emitted.push(res.code);
        }
    }
    emitted
}

#[test]
fn same_code_run_emits_once() {
    let mut state = ScanState::new();
    let frames = vec![frame("A"), frame("A"), frame("A"), frame("A"), frame("A")];
    assert_eq!(run(&mut state, frames), vec!["A"]);
}

#[test]
fn changed_code_reemits() {
    let mut state = ScanState::new();
    let frames = vec![frame("C1"), frame("C1"), frame("C2"), frame("C1")];
    assert_eq!(run(&mut state, frames), vec!["C1", "C2", "C1"]);
}

#[test]
fn no_code_emits_nothing() {
    let mut state = ScanState::new();
    let frames = vec![None, None, None, None];
    assert!(run(&mut state, frames).is_empty());
}

#[test]
fn absence_does_not_rearm_the_same_code() {
    let mut state = ScanState::new();
    let frames = vec![frame("A"), None, None, frame("A")];
    assert_eq!(run(&mut state, frames), vec!["A"]);
}

#[test]
fn emitted_event_keeps_code_and_kind() {
    let mut state = ScanState::new();
    let res = state
        .observe(Some(ScanResult { code: String::from("777"), code_type: CodeType::Barcode }))
        .expect("first recognition must emit");
    assert_eq!(res.code, "777");
    assert_eq!(res.code_type, CodeType::Barcode);
}

#[test]
fn bounded_loop_stops_after_n_distinct_emissions() {
    let mut state = BoundedScanState::new(2);
    let frames = vec![frame("A"), frame("A"), frame("B"), frame("B"), frame("C")];
    let mut emitted = Vec::new();
    for obs in frames {
        if state.finished() {
            break;
        }
        if let Some(res) = state.observe(obs) {
            emitted.push(res.code);
        }
    }
    assert_eq!(emitted, vec!["A", "B"]);
    assert!(state.finished());
}

#[test]
fn bounded_loop_with_zero_budget_is_finished_at_once() {
    let state = BoundedScanState::new(0);
    assert!(state.finished());
}
