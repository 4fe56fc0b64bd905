//! Keys of the control namespace and the null-terminated strings it hands out.
use vstd::prelude::*;
use vstd::slice::slice_subrange;
use crate::error::Error;

verus! {

/// A non-empty byte string whose last byte is the terminator.
pub open spec fn is_c_str(s: Seq<u8>) -> bool {
    s.len() > 0 && s.last() == 0u8
}

/// `s` holds a terminator somewhere.
pub open spec fn has_nul(s: Seq<u8>) -> bool {
    exists|i: int| 0 <= i < s.len() && s[i] == 0u8
}

/// `r` is the string at the start of `s`, up to and including its first
/// terminator.
pub open spec fn is_leading_c_str(s: Seq<u8>, r: Seq<u8>) -> bool {
    &&& is_c_str(r)
    &&& r.len() <= s.len()
    &&& r == s.subrange(0, r.len() as int)
    &&& forall|j: int| 0 <= j < r.len() - 1 ==> r[j] != 0u8
}

/// Tells whether `s` is a non-empty, null-terminated byte string.
pub fn is_terminated(s: &[u8]) -> (r: bool)
    ensures
        r == is_c_str(s@),
{
    s.len() > 0 && s[s.len() - 1] == 0u8
}

/// Checks a key before it is handed to the native layer: a key is non-empty
/// and ends in its terminator.
pub fn validate_name(name: &[u8]) -> (r: Result<(), Error>)
    ensures
        r is Ok <==> is_c_str(name@),
        r is Err ==> r == Err::<(), Error>(Error::InvalidArgument),
{
    if is_terminated(name) {
        Ok(())
    } else {
        Err(Error::InvalidArgument)
    }
}

/// The null-terminated string at the start of `s`, terminator included.
pub fn ptr2str(s: &[u8]) -> (r: &[u8])
    requires
        has_nul(s@),
    ensures
        is_leading_c_str(s@, r@),
{
    let mut i: usize = 0;
    while s[i] != 0u8
        invariant
            0 <= i < s@.len(),
            has_nul(s@),
            forall|j: int| 0 <= j < i ==> s@[j] != 0u8,
        decreases s@.len() - i,
    {
        if i + 1 == s.len() {
            proof {
                let k = choose|k: int| 0 <= k < s@.len() && s@[k] == 0u8;
                assert(s@[k] == 0u8);
            }
        }
        i = i + 1;
    }
    let r = slice_subrange(s, 0, i + 1);
    assert(r@.last() == s@[i as int]);
    r
}

} // verus!
