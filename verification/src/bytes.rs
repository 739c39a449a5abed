//! Moving bytes between buffers and fixed-size arrays.

use vstd::prelude::*;

verus! {

/// Whether two byte strings are equal.
pub fn bytes_equal(a: &[u8], b: &[u8]) -> (equal: bool)
    ensures
        equal == (a@ == b@),
{
    if a.len() != b.len() {
        return false;
    }
    let mut i: usize = 0;
    while i < a.len()
        invariant
            i <= a@.len(),
            a@.len() == b@.len(),
            forall|j: int| 0 <= j < i ==> a@[j] == b@[j],
        decreases a@.len() - i,
    {
        if a[i] != b[i] {
            return false;
        }
        i += 1;
    }
    assert(a@ =~= b@);
    true
}

/// Writes `source` into `target` from the index `at` on.
pub fn copy_into<const N: usize>(target: &mut [u8; N], at: usize, source: &[u8])
    requires
        at + source@.len() <= N,
    ensures
        final(target)@ == old(target)@.subrange(0, at as int) + source@ + old(target)@.subrange(
            at + source@.len(),
            N as int,
        ),
{
    let mut i: usize = 0;
    while i < source.len()
        invariant
            i <= source@.len(),
            at + source@.len() <= N,
            forall|j: int| 0 <= j < at ==> target@[j] == old(target)@[j],
            forall|j: int| 0 <= j < i ==> target@[at + j] == source@[j],
            forall|j: int| at + i <= j < N ==> target@[j] == old(target)@[j],
        decreases source@.len() - i,
    {
        target[at + i] = source[i];
        i += 1;
    }
    assert(target@ =~= old(target)@.subrange(0, at as int) + source@ + old(target)@.subrange(
        at + source@.len(),
        N as int,
    ));
}

/// The array of the `N` bytes of `source`.
pub fn to_array<const N: usize>(source: &[u8]) -> (array: [u8; N])
    requires
        source@.len() == N,
    ensures
        array@ == source@,
{
    let mut array = [0u8; N];
    copy_into(&mut array, 0, source);
    array
}

} // verus!
