//! Verified helpers for working with byte vectors, used by the archive
//! readers.

use vstd::prelude::*;

verus! {

/// Copies the bytes of `v` between the indices `i` and `j`.
pub fn subvec_u8(v: &Vec<u8>, i: usize, j: usize) -> (r: Vec<u8>)
    requires
        i <= j <= v@.len(),
    ensures
        r@ == v@.subrange(i as int, j as int),
{
    let mut r: Vec<u8> = Vec::new();
    let mut k: usize = i;
    while k < j
        invariant
            i <= k <= j <= v@.len(),
            r@ == v@.subrange(i as int, k as int),
        decreases j - k,
    {
        r.push(v[k]);
        proof {
            assert(r@ =~= v@.subrange(i as int, k + 1 as int));
        }
        k += 1;
    }
    r
}

/// One byte sequence begins with another.
pub open spec fn spec_starts_with_u8(s: Seq<u8>, p: Seq<u8>) -> bool {
    p.len() <= s.len() && s.subrange(0, p.len() as int) == p
}

/// Tests whether one byte vector begins with another.
pub fn starts_with_bytes(v: &Vec<u8>, p: &Vec<u8>) -> (r: bool)
    ensures
        r == spec_starts_with_u8(v@, p@),
{
    let plen = p.len();
    if plen > v.len() {
        return false;
    }
    let mut i: usize = 0;
    while i < plen
        invariant
            i <= plen,
            plen == p@.len(),
            plen <= v@.len(),
            forall|j: int| 0 <= j < i ==> v@[j] == p@[j],
        decreases plen - i,
    {
        if v[i] != p[i] {
            proof {
                if spec_starts_with_u8(v@, p@) {
                    assert(v@.subrange(0, plen as int)[i as int] == p@[i as int]);
                }
            }
            return false;
        }
        i += 1;
    }
    proof {
        assert(v@.subrange(0, plen as int) =~= p@);
    }
    true
}

/// Compares two byte vectors.
pub fn bytes_eq(a: &Vec<u8>, b: &Vec<u8>) -> (r: bool)
    ensures
        r == (a@ == b@),
{
    if a.len() != b.len() {
        proof {
            if a@ == b@ {
                assert(a@.len() == b@.len());
            }
        }
        return false;
    }
    let len = a.len();
    let mut i: usize = 0;
    while i < len
        invariant
            i <= len,
            len == a@.len(),
            len == b@.len(),
            forall|j: int| 0 <= j < i ==> a@[j] == b@[j],
        decreases len - i,
    {
        if a[i] != b[i] {
            proof {
                if a@ == b@ {
                    assert(a@[i as int] == b@[i as int]);
                }
            }
            return false;
        }
        i += 1;
    }
    proof {
        assert(a@ =~= b@);
    }
    true
}

/// Every byte of the sequence is zero.
pub open spec fn spec_all_zero(s: Seq<u8>) -> bool {
    forall|i: int| 0 <= i < s.len() ==> s[i] == 0u8
}

/// Tests whether every byte of a region is zero.
pub fn region_all_zero(v: &Vec<u8>, from: usize, to: usize) -> (r: bool)
    requires
        from <= to <= v@.len(),
    ensures
        r == spec_all_zero(v@.subrange(from as int, to as int)),
{
    let mut i: usize = from;
    while i < to
        invariant
            from <= i <= to <= v@.len(),
            forall|j: int| from <= j < i ==> v@[j] == 0u8,
        decreases to - i,
    {
        if v[i] != 0 {
            proof {
                let region = v@.subrange(from as int, to as int);
                if spec_all_zero(region) {
                    assert(region[i - from] == 0u8);
                }
            }
            return false;
        }
        i += 1;
    }
    proof {
        let region = v@.subrange(from as int, to as int);
        assert forall|j: int| 0 <= j < region.len() implies region[j] == 0u8 by {
            assert(region[j] == v@[from + j]);
        }
    }
    true
}

/// A byte sequence read as characters, one character per byte.
pub open spec fn spec_bytes_as_chars(s: Seq<u8>) -> Seq<char> {
    Seq::new(s.len(), |i: int| s[i] as char)
}

/// Reads a byte vector as characters, one character per byte.
pub fn bytes_as_chars(v: &Vec<u8>) -> (r: Vec<char>)
    ensures
        r@ == spec_bytes_as_chars(v@),
{
    let len = v.len();
    let mut r: Vec<char> = Vec::new();
    let mut i: usize = 0;
    while i < len
        invariant
            i <= len,
            len == v@.len(),
            r@ =~= spec_bytes_as_chars(v@).subrange(0, i as int),
        decreases len - i,
    {
        r.push(v[i] as char);
        proof {
            assert(r@ =~= spec_bytes_as_chars(v@).subrange(0, i + 1 as int));
        }
        i += 1;
    }
    proof {
        assert(r@ =~= spec_bytes_as_chars(v@));
    }
    r
}

/// Appends one byte vector to another.
pub fn push_all_u8(out: &mut Vec<u8>, s: &Vec<u8>)
    ensures
        final(out)@ == old(out)@ + s@,
{
    let len = s.len();
    let mut i: usize = 0;
    while i < len
        invariant
            i <= len,
            len == s@.len(),
            out@ == old(out)@ + s@.subrange(0, i as int),
        decreases len - i,
    {
        out.push(s[i]);
        proof {
            assert(out@ =~= old(out)@ + s@.subrange(0, i + 1 as int));
        }
        i += 1;
    }
    proof {
        assert(old(out)@ + s@.subrange(0, len as int) =~= old(out)@ + s@);
    }
}

} // verus!
