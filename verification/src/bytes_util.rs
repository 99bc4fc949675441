//! Byte-sequence helpers: big-endian 32-bit fields and verified copies.

use vstd::prelude::*;

verus! {

/// The four bytes of `n` in big-endian order, most significant first.
pub open spec fn be32_of(n: u32) -> Seq<u8> {
    seq![
        ((n >> 24) & 0xff) as u8,
        ((n >> 16) & 0xff) as u8,
        ((n >> 8) & 0xff) as u8,
        (n & 0xff) as u8,
    ]
}

/// The value read back from four big-endian bytes.
pub open spec fn u32_of_be(b: Seq<u8>) -> u32
    recommends
        b.len() == 4,
{
    (((b[0] as u32) << 24) | ((b[1] as u32) << 16) | ((b[2] as u32) << 8) | (b[3] as u32)) as u32
}

/// Reading back the big-endian encoding of `n` yields `n` again.
pub proof fn lemma_be32_round_trip(n: u32)
    ensures
        u32_of_be(be32_of(n)) == n,
{
    assert(((((((n >> 24) & 0xff) as u8) as u32) << 24) | (((((n >> 16) & 0xff) as u8) as u32)
        << 16) | (((((n >> 8) & 0xff) as u8) as u32) << 8) | (((n & 0xff) as u8) as u32)) as u32
        == n) by (bit_vector);
}

/// Appends the big-endian encoding of `n` to `out`.
pub fn encode_be32(n: u32, out: &mut Vec<u8>)
    ensures
        final(out)@ == old(out)@ + be32_of(n),
{
    proof {
        assert(((n >> 24) & 0xff) < 256 && ((n >> 16) & 0xff) < 256 && ((n >> 8) & 0xff) < 256 && (
        n & 0xff) < 256) by (bit_vector);
    }
    out.push(((n >> 24) & 0xff) as u8);
    out.push(((n >> 16) & 0xff) as u8);
    out.push(((n >> 8) & 0xff) as u8);
    out.push((n & 0xff) as u8);
    proof {
        assert(final(out)@ =~= old(out)@ + be32_of(n));
    }
}

/// Reads a big-endian 32-bit field at `offset`.
pub fn decode_be32(b: &Vec<u8>, offset: usize) -> (n: u32)
    requires
        offset + 4 <= b@.len(),
    ensures
        n == u32_of_be(b@.subrange(offset as int, offset as int + 4)),
{
    let blen = b.len();
    let b0 = b[offset];
    let b1 = b[offset + 1];
    let b2 = b[offset + 2];
    let b3 = b[offset + 3];
    proof {
        let s = b@.subrange(offset as int, offset as int + 4);
        assert(s[0] == b@[offset as int] && s[1] == b@[offset as int + 1] && s[2] == b@[offset
            as int + 2] && s[3] == b@[offset as int + 3]);
        assert(((b0 as u32) << 24) <= 0xff000000 && ((b1 as u32) << 16) <= 0xff0000 && ((b2 as u32)
            << 8) <= 0xff00) by (bit_vector);
    }
    ((b0 as u32) << 24) | ((b1 as u32) << 16) | ((b2 as u32) << 8) | (b3 as u32)
}

/// Copies the bytes of `v` in `[start, end)` into a fresh vector.
pub fn copy_range(v: &Vec<u8>, start: usize, end: usize) -> (r: Vec<u8>)
    requires
        start <= end <= v@.len(),
    ensures
        r@ == v@.subrange(start as int, end as int),
{
    let mut r: Vec<u8> = Vec::new();
    let mut i: usize = start;
    while i < end
        invariant
            start <= i <= end <= v@.len(),
            r@ == v@.subrange(start as int, i as int),
        decreases end - i,
    {
        r.push(v[i]);
        proof {
            assert(v@.subrange(start as int, i as int + 1) =~= v@.subrange(start as int, i as int)
                + seq![v@[i as int]]);
        }
        i = i + 1;
    }
    r
}

/// Copies all bytes of `v` into a fresh vector.
pub fn copy_bytes(v: &Vec<u8>) -> (r: Vec<u8>)
    ensures
        r@ == v@,
{
    let r = copy_range(v, 0, v.len());
    proof {
        assert(v@.subrange(0, v@.len() as int) =~= v@);
    }
    r
}

/// Whether `a` and `b` hold the same bytes.
pub fn bytes_eq(a: &Vec<u8>, b: &Vec<u8>) -> (r: bool)
    ensures
        r == (a@ == b@),
{
    if a.len() != b.len() {
        return false;
    }
    let mut i: usize = 0;
    while i < a.len()
        invariant
            i <= a@.len(),
            a@.len() == b@.len(),
            forall|j: int| 0 <= j < i ==> a@[j] == b@[j],
        decreases a@.len() - i,
    {
        if a[i] != b[i] {
            return false;
        }
        i = i + 1;
    }
    proof {
        assert(a@ =~= b@);
    }
    true
}

/// Appends all bytes of `src` to `dst`.
pub fn append_bytes(dst: &mut Vec<u8>, src: &Vec<u8>)
    ensures
        final(dst)@ == old(dst)@ + src@,
{
    let mut i: usize = 0;
    while i < src.len()
        invariant
            i <= src@.len(),
            dst@ == old(dst)@ + src@.subrange(0, i as int),
        decreases src@.len() - i,
    {
        dst.push(src[i]);
        proof {
            assert(old(dst)@ + src@.subrange(0, i as int + 1) =~= (old(dst)@ + src@.subrange(
                0,
                i as int,
            )) + seq![src@[i as int]]);
        }
        i = i + 1;
    }
    proof {
        assert(src@.subrange(0, src@.len() as int) =~= src@);
    }
}

} // verus!
