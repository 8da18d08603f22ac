//! Text as the virtual machine takes it: the bytes of the text, closed by
//! one NUL byte.

use vstd::prelude::*;
use vstd::string::StringSliceAdditionalSpecFns;

verus! {

/// Some byte of `bytes` is NUL.
pub open spec fn has_nul(bytes: Seq<u8>) -> bool {
    exists|i: int| 0 <= i < bytes.len() && bytes[i] == 0u8
}

/// The NUL-terminated form of `bytes`. Text that holds a NUL byte has none:
/// the virtual machine would read it as ending there.
pub open spec fn c_string(bytes: Seq<u8>) -> Option<Seq<u8>> {
    if has_nul(bytes) {
        None
    } else {
        Some(bytes.push(0u8))
    }
}

/// The NUL-terminated form of the UTF-8 bytes of `text`, or nothing where
/// `text` holds a NUL byte.
pub fn to_c_string(text: &str) -> (terminated: Option<Vec<u8>>)
    ensures
        terminated is None <==> has_nul(text.spec_bytes()),
        terminated matches Some(bytes) ==> Some(bytes@) == c_string(text.spec_bytes()),
{
    let source = text.as_bytes();
    let mut bytes: Vec<u8> = Vec::new();
    let mut i: usize = 0;
    while i < source.len()
        invariant
            i <= source@.len(),
            source@ == text.spec_bytes(),
            bytes@ == source@.take(i as int),
            forall|j: int| 0 <= j < i ==> source@[j] != 0u8,
        decreases source@.len() - i,
    {
        let byte: u8 = source[i];
        if byte == 0 {
            return None;
        }
        bytes.push(byte);
        i += 1;
        assert(bytes@ == source@.take(i as int));
    }
    assert(source@.take(i as int) == source@);
    bytes.push(0);
    Some(bytes)
}

} // verus!
