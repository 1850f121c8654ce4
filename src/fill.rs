//! Building vectors out of constant arrays.
use vstd::prelude::*;

verus! {

/// Appends the elements of `a` to `v`, in order.
pub fn push_all<T: Copy, const N: usize>(v: &mut Vec<T>, a: &[T; N])
    ensures
        final(v)@ == old(v)@ + a@,
{
    let mut i: usize = 0;
    let ghost start = v@;
    while i < N
        invariant
            i <= N,
            N == a@.len(),
            v@ == start + a@.subrange(0, i as int),
        decreases N - i,
    {
        v.push(a[i]);
        proof {
            assert(a@.subrange(0, i as int + 1) =~= a@.subrange(0, i as int).push(a@[i as int]));
        }
        i = i + 1;
    }
    assert(a@.subrange(0, N as int) =~= a@);
}

} // verus!
