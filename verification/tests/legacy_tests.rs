use fastly_php_runtime::legacy::early::{RequestHandle, ResponseHandle};
use fastly_php_runtime::legacy::embedded::{FastlyRequestHandle, FastlyResponseHandle};
use fastly_php_runtime::legacy::slot::Response;

#[test]
fn response_slot_collects_headers_in_memory() {
    let mut slot = Response::new();
    assert!(!slot.is_initialized());
    slot.initialize();
    assert!(slot.is_initialized());
    slot.send_header("x-test", "one");
    slot.send_header("X-Test", "two");
    let response = slot.get();
    assert!(!slot.is_initialized());
    let values: Vec<&str> = response.get_header_all_str("x-test");
    assert_eq!(values, vec!["one", "two"]);
}

#[test]
fn earlier_handles_start_empty() {
    let _ = RequestHandle::new();
    let _ = ResponseHandle::new();
    let _ = FastlyRequestHandle::new();
    let _ = FastlyResponseHandle::new();
}
