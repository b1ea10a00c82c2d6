//! Byte-level helpers shared by the account and instruction layouts.

use vstd::prelude::*;
use vstd::bytes::*;
use vstd::slice::slice_subrange;

verus! {

/// `s` with the bytes from `off` on replaced by `part`.
pub open spec fn splice(s: Seq<u8>, off: int, part: Seq<u8>) -> Seq<u8> {
    s.take(off) + part + s.skip(off + part.len())
}

/// The 32-byte key stored at `off`.
pub open spec fn key_at(s: Seq<u8>, off: int) -> Seq<u8> {
    s.subrange(off, off + 32)
}

/// The little-endian `u32` stored at `off`.
pub open spec fn u32_at(s: Seq<u8>, off: int) -> u32 {
    spec_u32_from_le_bytes(s.subrange(off, off + 4))
}

/// The little-endian `u64` stored at `off`.
pub open spec fn u64_at(s: Seq<u8>, off: int) -> u64 {
    spec_u64_from_le_bytes(s.subrange(off, off + 8))
}

/// Copies `part` into `buf` at `off`.
pub fn put_bytes<const N: usize>(buf: &mut [u8; N], off: usize, part: &[u8])
    requires
        off + part@.len() <= N,
    ensures
        final(buf)@ == splice(old(buf)@, off as int, part@),
{
    let ghost start = buf@;
    let n: usize = part.len();
    let mut i: usize = 0;
    while i < n
        invariant
            n == part@.len(),
            off + n <= N,
            buf@.len() == N,
            start.len() == N,
            0 <= i <= n,
            forall|j: int| 0 <= j < off ==> buf@[j] == start[j],
            forall|j: int| 0 <= j < i ==> buf@[off + j] == part@[j],
            forall|j: int| off + i <= j < N ==> buf@[j] == start[j],
        decreases n - i,
    {
        buf[off + i] = part[i];
        i = i + 1;
    }
    assert(buf@ =~= splice(start, off as int, part@));
}

/// Writes `v` in little-endian order at `off`.
pub fn put_u32_le<const N: usize>(buf: &mut [u8; N], off: usize, v: u32)
    requires
        off + 4 <= N,
    ensures
        final(buf)@ == splice(old(buf)@, off as int, spec_u32_to_le_bytes(v)),
{
    let b = u32_to_le_bytes(v);
    put_bytes(buf, off, b.as_slice());
}

/// Writes `v` in little-endian order at `off`.
pub fn put_u64_le<const N: usize>(buf: &mut [u8; N], off: usize, v: u64)
    requires
        off + 8 <= N,
    ensures
        final(buf)@ == splice(old(buf)@, off as int, spec_u64_to_le_bytes(v)),
{
    let b = u64_to_le_bytes(v);
    put_bytes(buf, off, b.as_slice());
}

/// Reads the little-endian `u32` at `off`.
pub fn get_u32_le(bytes: &[u8], off: usize) -> (r: u32)
    requires
        off + 4 <= bytes@.len(),
    ensures
        r == u32_at(bytes@, off as int),
{
    let len: usize = bytes.len();
    u32_from_le_bytes(slice_subrange(bytes, off, off + 4))
}

/// Reads the little-endian `u64` at `off`.
pub fn get_u64_le(bytes: &[u8], off: usize) -> (r: u64)
    requires
        off + 8 <= bytes@.len(),
    ensures
        r == u64_at(bytes@, off as int),
{
    let len: usize = bytes.len();
    u64_from_le_bytes(slice_subrange(bytes, off, off + 8))
}

/// Reads the 32-byte key at `off`.
pub fn get_key(bytes: &[u8], off: usize) -> (k: [u8; 32])
    requires
        off + 32 <= bytes@.len(),
    ensures
        k@ == key_at(bytes@, off as int),
{
    let mut k = [0u8; 32];
    let len: usize = bytes.len();
    let mut i: usize = 0;
    while i < 32
        invariant
            off + 32 <= bytes@.len(),
            len == bytes@.len(),
            0 <= i <= 32,
            k@.len() == 32,
            forall|j: int| 0 <= j < i ==> k@[j] == bytes@[off + j],
        decreases 32 - i,
    {
        k[i] = bytes[off + i];
        i = i + 1;
    }
    assert(k@ =~= key_at(bytes@, off as int));
    k
}

/// Whether the 32 bytes at `off` are the key `key`.
pub fn key_matches(bytes: &[u8], off: usize, key: &[u8; 32]) -> (r: bool)
    requires
        off + 32 <= bytes@.len(),
    ensures
        r == (key_at(bytes@, off as int) == key@),
{
    let len: usize = bytes.len();
    let mut i: usize = 0;
    while i < 32
        invariant
            off + 32 <= bytes@.len(),
            len == bytes@.len(),
            key@.len() == 32,
            0 <= i <= 32,
            forall|j: int| 0 <= j < i ==> bytes@[off + j] == key@[j],
        decreases 32 - i,
    {
        if bytes[off + i] != key[i] {
            assert(key_at(bytes@, off as int)[i as int] != key@[i as int]);
            return false;
        }
        i = i + 1;
    }
    assert(key_at(bytes@, off as int) =~= key@);
    true
}

/// Whether two keys are equal.
pub fn keys_equal(a: &[u8; 32], b: &[u8; 32]) -> (r: bool)
    ensures
        r == (a@ == b@),
{
    let mut i: usize = 0;
    while i < 32
        invariant
            a@.len() == 32,
            b@.len() == 32,
            0 <= i <= 32,
            forall|j: int| 0 <= j < i ==> a@[j] == b@[j],
        decreases 32 - i,
    {
        if a[i] != b[i] {
            return false;
        }
        i = i + 1;
    }
    assert(a@ =~= b@);
    true
}

/// Appends `s[from..to]` to `d`.
pub fn push_range(d: &mut Vec<u8>, s: &[u8], from: usize, to: usize)
    requires
        from <= to <= s@.len(),
    ensures
        final(d)@ == old(d)@ + s@.subrange(from as int, to as int),
{
    let ghost start = d@;
    let mut i: usize = from;
    while i < to
        invariant
            from <= i <= to,
            to <= s@.len(),
            d@ == start + s@.subrange(from as int, i as int),
        decreases to - i,
    {
        d.push(s[i]);
        assert(s@.subrange(from as int, i + 1) =~= s@.subrange(from as int, i as int).push(s@[i as int]));
        i = i + 1;
    }
}

/// `n` zero bytes.
pub open spec fn zeros(n: nat) -> Seq<u8> {
    Seq::new(n, |j: int| 0u8)
}

/// Appends `n` zero bytes to `d`.
pub fn push_zeros(d: &mut Vec<u8>, n: usize)
    ensures
        final(d)@ == old(d)@ + zeros(n as nat),
{
    let ghost start = d@;
    let mut i: usize = 0;
    while i < n
        invariant
            0 <= i <= n,
            d@ == start + zeros(i as nat),
        decreases n - i,
    {
        d.push(0u8);
        assert(zeros((i + 1) as nat) =~= zeros(i as nat).push(0u8));
        i = i + 1;
    }
}

} // verus!
