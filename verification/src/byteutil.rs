//! Small verified helpers over byte slices, arrays and integers.

use vstd::prelude::*;

verus! {

/// Appends every byte of `src` to `dst`, in order.
pub fn push_bytes(dst: &mut Vec<u8>, src: &[u8])
    ensures
        final(dst)@ == old(dst)@ + src@,
{
    let ghost start = dst@;
    let mut i: usize = 0;
    while i < src.len()
        invariant
            i <= src@.len(),
            dst@ == start + src@.take(i as int),
        decreases src@.len() - i,
    {
        dst.push(src[i]);
        proof {
            assert(src@.take(i + 1) =~= src@.take(i as int).push(src@[i as int]));
        }
        i = i + 1;
    }
    proof {
        assert(src@.take(src@.len() as int) =~= src@);
    }
}

/// Compares two fixed-size byte arrays for equality of their contents.
pub fn bytes_eq<const N: usize>(a: &[u8; N], b: &[u8; N]) -> (equal: bool)
    ensures
        equal == (a@ == b@),
{
    let mut i: usize = 0;
    while i < N
        invariant
            i <= N,
            forall|k: int| 0 <= k < i ==> a@[k] == b@[k],
        decreases N - i,
    {
        if a[i] != b[i] {
            return false;
        }
        i = i + 1;
    }
    proof {
        assert(a@ =~= b@);
    }
    true
}

/// Compares two byte slices for equality of their contents.
pub fn slices_eq(a: &[u8], b: &[u8]) -> (equal: bool)
    ensures
        equal == (a@ == b@),
{
    if a.len() != b.len() {
        return false;
    }
    let mut i: usize = 0;
    while i < a.len()
        invariant
            a@.len() == b@.len(),
            i <= a@.len(),
            forall|k: int| 0 <= k < i ==> a@[k] == b@[k],
        decreases a@.len() - i,
    {
        if a[i] != b[i] {
            return false;
        }
        i = i + 1;
    }
    proof {
        assert(a@ =~= b@);
    }
    true
}

/// Copies a slice of exactly `N` bytes into a fresh array.
pub fn bytes_from_slice<const N: usize>(src: &[u8]) -> (out: [u8; N])
    requires
        src@.len() == N,
    ensures
        out@ == src@,
{
    let mut out: [u8; N] = [0; N];
    let mut i: usize = 0;
    while i < N
        invariant
            i <= N,
            src@.len() == N,
            out@.len() == N,
            forall|k: int| 0 <= k < i ==> out@[k] == src@[k],
        decreases N - i,
    {
        out[i] = src[i];
        i = i + 1;
    }
    proof {
        assert(out@ =~= src@);
    }
    out
}

/// The big-endian byte rendering of a 64-bit integer, most significant first.
pub open spec fn u64_be_bytes(value: u64) -> Seq<u8> {
    seq![
        ((value >> 56) & 0xff) as u8,
        ((value >> 48) & 0xff) as u8,
        ((value >> 40) & 0xff) as u8,
        ((value >> 32) & 0xff) as u8,
        ((value >> 24) & 0xff) as u8,
        ((value >> 16) & 0xff) as u8,
        ((value >> 8) & 0xff) as u8,
        (value & 0xff) as u8,
    ]
}

/// The 64-bit integer read from eight big-endian bytes.
pub open spec fn u64_from_be_bytes(bytes: Seq<u8>) -> u64
    recommends
        bytes.len() == 8,
{
    (bytes[0] as u64) << 56 | (bytes[1] as u64) << 48 | (bytes[2] as u64) << 40 | (bytes[3] as u64)
        << 32 | (bytes[4] as u64) << 24 | (bytes[5] as u64) << 16 | (bytes[6] as u64) << 8 | (
    bytes[7] as u64)
}

/// Reading back the big-endian bytes of an integer restores the integer.
pub proof fn lemma_u64_be_bytes_round_trip(value: u64)
    ensures
        u64_be_bytes(value).len() == 8,
        u64_from_be_bytes(u64_be_bytes(value)) == value,
{
    assert(((((value >> 56) & 0xff) as u8) as u64) << 56 | ((((value >> 48) & 0xff) as u8) as u64)
        << 48 | ((((value >> 40) & 0xff) as u8) as u64) << 40 | ((((value >> 32) & 0xff) as u8)
        as u64) << 32 | ((((value >> 24) & 0xff) as u8) as u64) << 24 | ((((value >> 16) & 0xff)
        as u8) as u64) << 16 | ((((value >> 8) & 0xff) as u8) as u64) << 8 | (((value & 0xff)
        as u8) as u64) == value) by (bit_vector);
}

/// Rendering the integer read from eight bytes restores those bytes.
pub proof fn lemma_u64_be_bytes_of_read(bytes: Seq<u8>)
    requires
        bytes.len() == 8,
    ensures
        u64_be_bytes(u64_from_be_bytes(bytes)) == bytes,
{
    let b0 = bytes[0];
    let b1 = bytes[1];
    let b2 = bytes[2];
    let b3 = bytes[3];
    let b4 = bytes[4];
    let b5 = bytes[5];
    let b6 = bytes[6];
    let b7 = bytes[7];
    let joined = u64_from_be_bytes(bytes);
    assert(joined == (b0 as u64) << 56 | (b1 as u64) << 48 | (b2 as u64) << 40 | (b3 as u64) << 32
        | (b4 as u64) << 24 | (b5 as u64) << 16 | (b6 as u64) << 8 | (b7 as u64));
    assert(((((b0 as u64) << 56 | (b1 as u64) << 48 | (b2 as u64) << 40 | (b3 as u64) << 32 | (b4 as u64) << 24 | (b5 as u64) << 16 | (b6 as u64) << 8 | (b7 as u64)) >> 56) & 0xff) as u8 == b0) by (bit_vector);
    assert(((((b0 as u64) << 56 | (b1 as u64) << 48 | (b2 as u64) << 40 | (b3 as u64) << 32 | (b4 as u64) << 24 | (b5 as u64) << 16 | (b6 as u64) << 8 | (b7 as u64)) >> 48) & 0xff) as u8 == b1) by (bit_vector);
    assert(((((b0 as u64) << 56 | (b1 as u64) << 48 | (b2 as u64) << 40 | (b3 as u64) << 32 | (b4 as u64) << 24 | (b5 as u64) << 16 | (b6 as u64) << 8 | (b7 as u64)) >> 40) & 0xff) as u8 == b2) by (bit_vector);
    assert(((((b0 as u64) << 56 | (b1 as u64) << 48 | (b2 as u64) << 40 | (b3 as u64) << 32 | (b4 as u64) << 24 | (b5 as u64) << 16 | (b6 as u64) << 8 | (b7 as u64)) >> 32) & 0xff) as u8 == b3) by (bit_vector);
    assert(((((b0 as u64) << 56 | (b1 as u64) << 48 | (b2 as u64) << 40 | (b3 as u64) << 32 | (b4 as u64) << 24 | (b5 as u64) << 16 | (b6 as u64) << 8 | (b7 as u64)) >> 24) & 0xff) as u8 == b4) by (bit_vector);
    assert(((((b0 as u64) << 56 | (b1 as u64) << 48 | (b2 as u64) << 40 | (b3 as u64) << 32 | (b4 as u64) << 24 | (b5 as u64) << 16 | (b6 as u64) << 8 | (b7 as u64)) >> 16) & 0xff) as u8 == b5) by (bit_vector);
    assert(((((b0 as u64) << 56 | (b1 as u64) << 48 | (b2 as u64) << 40 | (b3 as u64) << 32 | (b4 as u64) << 24 | (b5 as u64) << 16 | (b6 as u64) << 8 | (b7 as u64)) >> 8) & 0xff) as u8 == b6) by (bit_vector);
    assert((((b0 as u64) << 56 | (b1 as u64) << 48 | (b2 as u64) << 40 | (b3 as u64) << 32 | (b4 as u64) << 24 | (b5 as u64) << 16 | (b6 as u64) << 8 | (b7 as u64)) & 0xff) as u8 == b7) by (bit_vector);
    assert(u64_be_bytes(joined) =~= bytes);
}

/// Appends the eight big-endian bytes of `value` to `dst`.
pub fn push_u64_be(dst: &mut Vec<u8>, value: u64)
    ensures
        final(dst)@ == old(dst)@ + u64_be_bytes(value),
{
    let ghost start = dst@;
    dst.push(((value >> 56) & 0xff) as u8);
    dst.push(((value >> 48) & 0xff) as u8);
    dst.push(((value >> 40) & 0xff) as u8);
    dst.push(((value >> 32) & 0xff) as u8);
    dst.push(((value >> 24) & 0xff) as u8);
    dst.push(((value >> 16) & 0xff) as u8);
    dst.push(((value >> 8) & 0xff) as u8);
    dst.push((value & 0xff) as u8);
    proof {
        assert(dst@ =~= start + u64_be_bytes(value));
    }
}

/// Reads a 64-bit integer from eight big-endian bytes.
pub fn read_u64_be(bytes: &[u8]) -> (value: u64)
    requires
        bytes@.len() == 8,
    ensures
        value == u64_from_be_bytes(bytes@),
{
    (bytes[0] as u64) << 56 | (bytes[1] as u64) << 48 | (bytes[2] as u64) << 40 | (bytes[3] as u64)
        << 32 | (bytes[4] as u64) << 24 | (bytes[5] as u64) << 16 | (bytes[6] as u64) << 8 | (
    bytes[7] as u64)
}

} // verus!
