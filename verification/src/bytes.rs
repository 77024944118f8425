//! Small byte-vector helpers shared by the protocol modules: appending,
//! copying a range, and prefix testing, each tied exactly to its `Seq`
//! counterpart.

use vstd::prelude::*;

verus! {

/// Holds when `p` is a prefix of `s`.
pub open spec fn starts_with(s: Seq<u8>, p: Seq<u8>) -> bool {
    p.len() <= s.len() && s.subrange(0, p.len() as int) == p
}

/// Appends all bytes of `src` to `dst`, in order.
pub fn append_bytes(dst: &mut Vec<u8>, src: &Vec<u8>)
    ensures
        final(dst)@ == old(dst)@ + src@,
{
    let mut i: usize = 0;
    while i < src.len()
        invariant
            i <= src.len(),
            dst@ == old(dst)@ + src@.subrange(0, i as int),
        decreases src.len() - i,
    {
        dst.push(src[i]);
        proof {
            assert(old(dst)@ + src@.subrange(0, i + 1) =~= (old(dst)@ + src@.subrange(
                0,
                i as int,
            )).push(src@[i as int]));
        }
        i += 1;
    }
    proof {
        assert(src@.subrange(0, src@.len() as int) =~= src@);
    }
}

/// Copies the bytes of `v` between `start` (inclusive) and `end`
/// (exclusive) into a fresh vector.
pub fn slice_range(v: &Vec<u8>, start: usize, end: usize) -> (r: Vec<u8>)
    requires
        start <= end <= v@.len(),
    ensures
        r@ == v@.subrange(start as int, end as int),
{
    let mut r: Vec<u8> = Vec::new();
    let mut i: usize = start;
    while i < end
        invariant
            start <= i <= end <= v@.len(),
            r@ == v@.subrange(start as int, i as int),
        decreases end - i,
    {
        r.push(v[i]);
        proof {
            assert(v@.subrange(start as int, i + 1) =~= v@.subrange(start as int, i as int).push(
                v@[i as int],
            ));
        }
        i += 1;
    }
    r
}

/// Reports whether `v` begins with the bytes of `prefix`.
pub fn is_prefix(v: &Vec<u8>, prefix: &Vec<u8>) -> (r: bool)
    ensures
        r == starts_with(v@, prefix@),
{
    if prefix.len() > v.len() {
        return false;
    }
    let mut i: usize = 0;
    while i < prefix.len()
        invariant
            i <= prefix.len() <= v.len(),
            forall|k: int| 0 <= k < i ==> v@[k] == prefix@[k],
        decreases prefix.len() - i,
    {
        if v[i] != prefix[i] {
            proof {
                let pl = prefix@.len() as int;
                assert(v@.subrange(0, pl)[i as int] == v@[i as int]);
                assert(v@.subrange(0, pl) != prefix@);
            }
            return false;
        }
        i += 1;
    }
    proof {
        assert(v@.subrange(0, prefix@.len() as int) =~= prefix@);
    }
    true
}

} // verus!
