//! Byte strings as the system takes them: no NUL inside, a copy where one is kept.
use vstd::prelude::*;

verus! {

/// Whether a byte string holds a NUL byte, which a C string cannot carry.
pub open spec fn has_nul(s: Seq<u8>) -> bool {
    exists|i: int| 0 <= i < s.len() && s[i] == 0
}

/// Whether two byte strings are equal.
pub fn bytes_eq(a: &[u8], b: &[u8]) -> (r: bool)
    ensures
        r == (a@ == b@),
{
    if a.len() != b.len() {
        return false;
    }
    let mut i: usize = 0;
    while i < a.len()
        invariant
            a@.len() == b@.len(),
            i <= a@.len(),
            forall|k: int| 0 <= k < i ==> a@[k] == b@[k],
        decreases a@.len() - i,
    {
        if a[i] != b[i] {
            return false;
        }
        i = i + 1;
    }
    assert(a@ =~= b@);
    true
}

/// Whether a byte string holds a NUL byte.
pub fn contains_nul(s: &[u8]) -> (r: bool)
    ensures
        r == has_nul(s@),
{
    let mut i: usize = 0;
    while i < s.len()
        invariant
            i <= s@.len(),
            forall|k: int| 0 <= k < i ==> s@[k] != 0,
        decreases s@.len() - i,
    {
        if s[i] == 0 {
            return true;
        }
        i = i + 1;
    }
    false
}

/// A copy of a byte string.
pub fn copy_bytes(s: &[u8]) -> (r: Vec<u8>)
    ensures
        r@ == s@,
{
    vstd::slice::slice_to_vec(s)
}

/// `a`, then `sep`, then `b`.
pub fn join_with(a: &[u8], sep: u8, b: &[u8]) -> (r: Vec<u8>)
    ensures
        r@ == a@.push(sep) + b@,
{
    let mut r = copy_bytes(a);
    r.push(sep);
    let mut i: usize = 0;
    while i < b.len()
        invariant
            i <= b@.len(),
            r@ == a@.push(sep) + b@.take(i as int),
        decreases b@.len() - i,
    {
        r.push(b[i]);
        i = i + 1;
        assert(b@.take(i as int) =~= b@.take(i - 1).push(b@[i - 1]));
    }
    assert(b@.take(b@.len() as int) =~= b@);
    r
}

} // verus!
