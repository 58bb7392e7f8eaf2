use fastly_php_runtime::response_state::Response;

#[test]
fn response_starts_initial() {
    let _response = Response::new();
}
