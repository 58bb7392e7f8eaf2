use fastly_php_runtime::error::RuntimeError;
use fastly_php_runtime::response::{BodyPhase, ResponseHandle, ResponsePhase};
use fastly_php_runtime::sapi::header_line_accepted;

#[test]
fn new_response_has_sent_nothing() {
    let response = ResponseHandle::new();
    assert_eq!(response.phase(), ResponsePhase::Uninitialized);
    assert_eq!(response.body_phase(), BodyPhase::NotStarted);
}

#[test]
fn flush_closes_body_and_is_idempotent() {
    let mut response = ResponseHandle::new();
    assert_eq!(response.flush(), Ok(()));
    assert_eq!(response.body_phase(), BodyPhase::Finished);
    assert_eq!(response.phase(), ResponsePhase::Uninitialized);
    assert_eq!(response.flush(), Ok(()));
    assert_eq!(response.body_phase(), BodyPhase::Finished);
}

#[test]
fn header_lines_that_can_be_forwarded() {
    let response = ResponseHandle::new();
    assert!(header_line_accepted(&response, "X-Test-Header: Hello, world"));
    assert!(header_line_accepted(&response, "no separator here"));
    assert!(!header_line_accepted(&response, "Bad Name: value"));
    assert!(!header_line_accepted(&response, "X-Test: line\nbreak"));
}

#[test]
fn error_messages() {
    assert_eq!(RuntimeError::RequestBodyFinished.message(), "response already finished");
    assert_eq!(RuntimeError::RequestTaken.message(), "fastly request handle taken");
    assert_eq!(RuntimeError::ResponseFinished.message(), "response already finished");
    assert_eq!(RuntimeError::ResponseUsed.message(), "Fastly Response Handle used");
    assert_eq!(RuntimeError::ResponseTaken.message(), "fastly response handle taken");
}
