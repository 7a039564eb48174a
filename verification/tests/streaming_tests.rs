use bindr::llm::LlmEvent;
use bindr::streaming::StreamController;
use bindr::streaming::StreamState;

#[test]
fn deltas_accumulate_until_a_newline_completes_a_line() {
    let mut state = StreamState::new();
    assert!(!state.has_content());
    state.push_delta("hel");
    assert!(state.has_content());
    assert!(!state.has_lines());
    assert_eq!(state.get_current_line(), "hel");
    state.push_delta("lo\nwor");
    assert!(state.has_lines());
    assert_eq!(state.get_current_line(), "wor");
    assert_eq!(state.pop_line(), Some(String::from("hello")));
    assert_eq!(state.pop_line(), None);
}

#[test]
fn one_delta_can_complete_several_lines() {
    let mut state = StreamState::new();
    state.push_delta("a\nb\nc\nd");
    assert_eq!(state.drain_lines(), vec!["a", "b", "c"]);
    assert_eq!(state.get_current_line(), "d");
    assert!(!state.has_lines());
}

#[test]
fn empty_deltas_leave_no_trace() {
    let mut state = StreamState::new();
    state.push_delta("");
    assert!(!state.has_content());
    assert_eq!(state.get_current_line(), "");
}

#[test]
fn finalize_keeps_a_non_blank_tail() {
    let mut state = StreamState::new();
    state.push_delta("one\ntwo");
    assert_eq!(state.finalize(), vec!["one", "two"]);
    let mut blank_tail = StreamState::new();
    blank_tail.push_delta("one\n   ");
    assert_eq!(blank_tail.finalize(), vec!["one"]);
}

#[test]
fn clear_forgets_everything() {
    let mut state = StreamState::new();
    state.push_delta("x\ny");
    state.clear();
    assert!(!state.has_content());
    assert!(!state.has_lines());
    assert_eq!(state.get_current_line(), "");
}

#[test]
fn the_controller_tracks_the_stream_lifecycle() {
    let mut controller = StreamController::new();
    assert!(!controller.is_streaming());
    controller.start_streaming();
    assert!(controller.is_streaming());
    assert!(!controller.is_complete());
    let lines = controller.process_event(LlmEvent::TextDelta(String::from("hi\nthere")));
    assert_eq!(lines, vec!["hi"]);
    assert!(controller.has_content());
    assert_eq!(controller.get_current_line(), Some(String::from("there")));
    let rest = controller.process_event(LlmEvent::StreamComplete);
    assert_eq!(rest, vec!["there"]);
    assert!(controller.is_complete());
    assert!(!controller.is_streaming());
}

#[test]
fn reasoning_deltas_are_prefixed() {
    let mut controller = StreamController::new();
    let lines = controller.process_event(LlmEvent::ReasoningDelta(String::from("mulling\n")));
    assert_eq!(lines, vec!["\u{1f4ad} mulling"]);
}

#[test]
fn errors_end_the_stream_with_one_line() {
    let mut controller = StreamController::new();
    controller.start_streaming();
    let lines = controller.process_event(LlmEvent::Error(String::from("connection lost")));
    assert_eq!(lines, vec!["\u{274c} Error: connection lost"]);
    assert!(controller.is_complete());
    assert!(!controller.is_streaming());
}

#[test]
fn reset_returns_the_controller_to_the_start() {
    let mut controller = StreamController::new();
    controller.start_streaming();
    controller.process_event(LlmEvent::TextDelta(String::from("abc\n")));
    controller.reset();
    assert!(!controller.is_streaming());
    assert!(!controller.is_complete());
    assert!(!controller.has_content());
    assert_eq!(controller.get_current_line(), None);
}
