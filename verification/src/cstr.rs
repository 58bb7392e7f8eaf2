//! Checks and conversions for NUL-terminated C strings.

use vstd::prelude::*;

verus! {

/// No byte of `bytes` is the NUL byte.
pub open spec fn has_no_nul(bytes: Seq<u8>) -> bool {
    forall|i: int| 0 <= i < bytes.len() ==> bytes[i] != 0u8
}

/// Checks that a string meant to become a C string holds no NUL byte.
///
/// A string with a NUL byte inside is rejected before it is used: callers
/// must hand only NUL-free bytes.
pub fn validate_cstr_contents(bytes: &[u8])
    requires
        has_no_nul(bytes@),
{
    let mut i: usize = 0;
    while i < bytes.len()
        invariant
            i <= bytes@.len(),
            has_no_nul(bytes@),
        decreases bytes@.len() - i,
    {
        assert(bytes@[i as int] != 0u8);
        i += 1;
    }
}

/// The bytes of a C string literal: the text followed by one NUL byte.
///
/// The text is validated first, as `validate_cstr_contents` does, so the only
/// NUL byte of the result is the terminator.
pub fn nul_terminated(text: &[u8]) -> (c: Vec<u8>)
    requires
        has_no_nul(text@),
    ensures
        c@ == text@.push(0u8),
{
    validate_cstr_contents(text);
    let mut c: Vec<u8> = Vec::new();
    let mut i: usize = 0;
    while i < text.len()
        invariant
            i <= text@.len(),
            c@ == text@.subrange(0, i as int),
        decreases text@.len() - i,
    {
        c.push(text[i]);
        i += 1;
    }
    c.push(0u8);
    assert(text@.subrange(0, text@.len() as int) == text@);
    c
}

} // verus!
