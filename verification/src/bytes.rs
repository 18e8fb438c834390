//! Byte-level helpers shared by the record layouts and the storage keys.

use vstd::prelude::*;
use vstd::bytes::{
    lemma_auto_spec_u64_to_from_le_bytes, spec_u64_from_le_bytes, spec_u64_to_le_bytes,
    u64_from_le_bytes, u64_to_le_bytes,
};

verus! {

/// The `len` bytes of `data` from `offset` on, with zero for every byte
/// past its end.
pub open spec fn window(data: Seq<u8>, offset: int, len: nat) -> Seq<u8> {
    Seq::new(
        len,
        |i: int|
            if 0 <= offset + i < data.len() {
                data[offset + i]
            } else {
                0u8
            },
    )
}

/// `data` cut or filled with zeros to `len` bytes.
pub open spec fn padded(data: Seq<u8>, len: nat) -> Seq<u8> {
    window(data, 0, len)
}

/// `n` zero bytes.
pub open spec fn zeros(n: nat) -> Seq<u8> {
    Seq::new(n, |i: int| 0u8)
}

/// The little-endian bytes of a signed value: those of its two's complement.
pub open spec fn spec_i64_to_le_bytes(x: i64) -> Seq<u8> {
    spec_u64_to_le_bytes(x as u64)
}

/// Adds the bytes of `src` to the end of `out`.
pub fn append_bytes(out: &mut Vec<u8>, src: &[u8])
    ensures
        final(out)@ == old(out)@ + src@,
{
    let mut i: usize = 0;
    while i < src.len()
        invariant
            i <= src@.len(),
            out@ == old(out)@ + src@.subrange(0, i as int),
        decreases src@.len() - i,
    {
        out.push(src[i]);
        i += 1;
        assert(out@ =~= old(out)@ + src@.subrange(0, i as int));
    }
    assert(src@.subrange(0, src@.len() as int) =~= src@);
}

/// Adds the eight little-endian bytes of `value` to the end of `out`.
pub fn append_u64(out: &mut Vec<u8>, value: u64)
    ensures
        final(out)@ == old(out)@ + spec_u64_to_le_bytes(value),
{
    let b = u64_to_le_bytes(value);
    append_bytes(out, b.as_slice());
}

/// The byte of `data` at `i`, and zero past its end.
pub fn byte_at(data: &[u8], i: usize) -> (b: u8)
    ensures
        b == window(data@, i as int, 1)[0],
{
    if i < data.len() {
        data[i]
    } else {
        0
    }
}

/// The `len` bytes of `data` from `offset` on, zero past its end.
pub fn read_window(data: &[u8], offset: usize, len: usize) -> (r: Vec<u8>)
    requires
        offset + len <= usize::MAX,
    ensures
        r@ == window(data@, offset as int, len as nat),
{
    let mut out: Vec<u8> = Vec::new();
    let mut i: usize = 0;
    while i < len
        invariant
            i <= len,
            offset + len <= usize::MAX,
            out@ == window(data@, offset as int, i as nat),
        decreases len - i,
    {
        let b = byte_at(data, offset + i);
        out.push(b);
        i += 1;
        assert(out@ =~= window(data@, offset as int, i as nat));
    }
    out
}

/// The little-endian `u64` at `offset`, bytes past the end read as zero.
pub fn read_u64(data: &[u8], offset: usize) -> (r: u64)
    requires
        offset + 8 <= usize::MAX,
    ensures
        r == spec_u64_from_le_bytes(window(data@, offset as int, 8)),
        spec_u64_to_le_bytes(r) == window(data@, offset as int, 8),
{
    let b = read_window(data, offset, 8);
    proof {
        lemma_auto_spec_u64_to_from_le_bytes();
    }
    u64_from_le_bytes(b.as_slice())
}

/// The 20 bytes at `offset`, bytes past the end read as zero.
pub fn read_address(data: &[u8], offset: usize) -> (r: [u8; 20])
    requires
        offset + 20 <= usize::MAX,
    ensures
        r@ == window(data@, offset as int, 20),
{
    let mut out = [0u8; 20];
    let mut i: usize = 0;
    while i < 20
        invariant
            i <= 20,
            offset + 20 <= usize::MAX,
            forall|j: int| 0 <= j < i ==> out@[j] == window(data@, offset as int, 20)[j],
        decreases 20 - i,
    {
        out[i] = byte_at(data, offset + i);
        i += 1;
    }
    assert(out@ =~= window(data@, offset as int, 20));
    out
}

/// Whether every byte of `bytes` is zero.
pub fn all_zero(bytes: &[u8]) -> (r: bool)
    ensures
        r <==> bytes@ == zeros(bytes@.len()),
{
    let mut i: usize = 0;
    while i < bytes.len()
        invariant
            i <= bytes@.len(),
            forall|j: int| 0 <= j < i ==> bytes@[j] == 0u8,
        decreases bytes@.len() - i,
    {
        if bytes[i] != 0 {
            assert(zeros(bytes@.len())[i as int] == 0u8);
            return false;
        }
        i += 1;
    }
    assert(bytes@ =~= zeros(bytes@.len()));
    true
}

/// Whether two byte strings are the same.
pub fn same_bytes(a: &[u8], b: &[u8]) -> (r: bool)
    ensures
        r <==> a@ == b@,
{
    if a.len() != b.len() {
        return false;
    }
    let mut i: usize = 0;
    while i < a.len()
        invariant
            i <= a@.len(),
            a@.len() == b@.len(),
            forall|j: int| 0 <= j < i ==> a@[j] == b@[j],
        decreases a@.len() - i,
    {
        if a[i] != b[i] {
            return false;
        }
        i += 1;
    }
    assert(a@ =~= b@);
    true
}

/// Two's complement keeps every signed value apart.
pub proof fn lemma_i64_bits_roundtrip(x: i64)
    ensures
        (x as u64) as i64 == x,
{
    assert((x as u64) as i64 == x) by (bit_vector);
}

/// Every 64-bit pattern is the two's complement of one signed value.
pub proof fn lemma_u64_bits_roundtrip(x: u64)
    ensures
        (x as i64) as u64 == x,
{
    assert((x as i64) as u64 == x) by (bit_vector);
}

} // verus!
