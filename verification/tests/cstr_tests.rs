use fastly_php_runtime::cstr::{nul_terminated, validate_cstr_contents};

#[test]
fn validate_accepts_text_without_nul() {
    validate_cstr_contents(b"index.php");
    validate_cstr_contents(b"");
}

#[test]
fn nul_terminated_appends_one_nul() {
    assert_eq!(nul_terminated(b"fastly-ce"), b"fastly-ce\0".to_vec());
    assert_eq!(nul_terminated(b""), vec![0u8]);
}
