//! Little-endian integer codec over byte buffers.
//!
//! All record and instruction fields are little-endian integers at fixed
//! offsets inside byte buffers. The spec functions here give the meaning of
//! a field as a function of the buffer's byte sequence; the executable
//! readers and writers are proved against them.

use vstd::prelude::*;

verus! {

// ---------------------------------------------------------------------------
// Spec: the integer stored little-endian at offset `i` of a byte sequence.
// ---------------------------------------------------------------------------

pub open spec fn u32_le_at(s: Seq<u8>, i: int) -> u32 {
    (s[i] as u32) | (s[i + 1] as u32) << 8 | (s[i + 2] as u32) << 16 | (s[i + 3] as u32) << 24
}

pub open spec fn u64_le_at(s: Seq<u8>, i: int) -> u64 {
    (s[i] as u64) | (s[i + 1] as u64) << 8 | (s[i + 2] as u64) << 16 | (s[i + 3] as u64) << 24
        | (s[i + 4] as u64) << 32 | (s[i + 5] as u64) << 40 | (s[i + 6] as u64) << 48
        | (s[i + 7] as u64) << 56
}

/// Signed fields (timestamps) are the two's-complement reading of the same bytes.
pub open spec fn i64_le_at(s: Seq<u8>, i: int) -> i64 {
    u64_le_at(s, i) as i64
}

pub open spec fn u128_le_at(s: Seq<u8>, i: int) -> u128 {
    (u64_le_at(s, i) as u128) | (u64_le_at(s, i + 8) as u128) << 64
}

// ---------------------------------------------------------------------------
// Exec: readers.
// ---------------------------------------------------------------------------

pub fn read_u32_le(data: &Vec<u8>, off: usize) -> (r: u32)
    requires
        off + 4 <= data.len(),
    ensures
        r == u32_le_at(data@, off as int),
{
    (data[off] as u32) | (data[off + 1] as u32) << 8 | (data[off + 2] as u32) << 16
        | (data[off + 3] as u32) << 24
}

pub fn read_u64_le(data: &Vec<u8>, off: usize) -> (r: u64)
    requires
        off + 8 <= data.len(),
    ensures
        r == u64_le_at(data@, off as int),
{
    (data[off] as u64) | (data[off + 1] as u64) << 8 | (data[off + 2] as u64) << 16
        | (data[off + 3] as u64) << 24 | (data[off + 4] as u64) << 32
        | (data[off + 5] as u64) << 40 | (data[off + 6] as u64) << 48
        | (data[off + 7] as u64) << 56
}

pub fn read_i64_le(data: &Vec<u8>, off: usize) -> (r: i64)
    requires
        off + 8 <= data.len(),
    ensures
        r == i64_le_at(data@, off as int),
{
    read_u64_le(data, off) as i64
}

pub fn read_u128_le(data: &Vec<u8>, off: usize) -> (r: u128)
    requires
        off + 16 <= data.len(),
    ensures
        r == u128_le_at(data@, off as int),
{
    let lo = read_u64_le(data, off);
    let hi = read_u64_le(data, off + 8);
    (lo as u128) | (hi as u128) << 64
}

// ---------------------------------------------------------------------------
// Exec: writers. Each writer changes exactly its own byte range.
// ---------------------------------------------------------------------------

proof fn lemma_u32_pack_bytes(v: u32)
    by (bit_vector)
    ensures
        ((v & 0xff) as u8 as u32) | (((v >> 8) & 0xff) as u8 as u32) << 8
            | (((v >> 16) & 0xff) as u8 as u32) << 16
            | (((v >> 24) & 0xff) as u8 as u32) << 24 == v,
{
}

pub fn write_u32_le(data: &mut Vec<u8>, off: usize, v: u32)
    requires
        off + 4 <= old(data).len(),
    ensures
        final(data).len() == old(data).len(),
        forall|j: int|
            0 <= j < final(data)@.len() && !(off <= j < off + 4) ==> final(data)@[j] == old(
                data,
            )@[j],
        u32_le_at(final(data)@, off as int) == v,
{
    data[off] = (v & 0xff) as u8;
    data[off + 1] = ((v >> 8) & 0xff) as u8;
    data[off + 2] = ((v >> 16) & 0xff) as u8;
    data[off + 3] = ((v >> 24) & 0xff) as u8;
    proof {
        lemma_u32_pack_bytes(v);
    }
}

proof fn lemma_u64_pack_bytes(v: u64)
    by (bit_vector)
    ensures
        ((v & 0xff) as u8 as u64) | (((v >> 8) & 0xff) as u8 as u64) << 8
            | (((v >> 16) & 0xff) as u8 as u64) << 16
            | (((v >> 24) & 0xff) as u8 as u64) << 24
            | (((v >> 32) & 0xff) as u8 as u64) << 32
            | (((v >> 40) & 0xff) as u8 as u64) << 40
            | (((v >> 48) & 0xff) as u8 as u64) << 48
            | (((v >> 56) & 0xff) as u8 as u64) << 56 == v,
{
}

pub fn write_u64_le(data: &mut Vec<u8>, off: usize, v: u64)
    requires
        off + 8 <= old(data).len(),
    ensures
        final(data).len() == old(data).len(),
        forall|j: int|
            0 <= j < final(data)@.len() && !(off <= j < off + 8) ==> final(data)@[j] == old(
                data,
            )@[j],
        u64_le_at(final(data)@, off as int) == v,
{
    data[off] = (v & 0xff) as u8;
    data[off + 1] = ((v >> 8) & 0xff) as u8;
    data[off + 2] = ((v >> 16) & 0xff) as u8;
    data[off + 3] = ((v >> 24) & 0xff) as u8;
    data[off + 4] = ((v >> 32) & 0xff) as u8;
    data[off + 5] = ((v >> 40) & 0xff) as u8;
    data[off + 6] = ((v >> 48) & 0xff) as u8;
    data[off + 7] = ((v >> 56) & 0xff) as u8;
    proof {
        lemma_u64_pack_bytes(v);
    }
}

pub fn write_i64_le(data: &mut Vec<u8>, off: usize, v: i64)
    requires
        off + 8 <= old(data).len(),
    ensures
        final(data).len() == old(data).len(),
        forall|j: int|
            0 <= j < final(data)@.len() && !(off <= j < off + 8) ==> final(data)@[j] == old(
                data,
            )@[j],
        i64_le_at(final(data)@, off as int) == v,
{
    let u = v as u64;
    write_u64_le(data, off, u);
    proof {
        assert(u as i64 == v) by (bit_vector)
            requires
                u == v as u64,
        ;
    }
}

proof fn lemma_u128_split(v: u128)
    by (bit_vector)
    ensures
        ((v as u64) as u128) | (((v >> 64) as u64) as u128) << 64 == v,
{
}

pub fn write_u128_le(data: &mut Vec<u8>, off: usize, v: u128)
    requires
        off + 16 <= old(data).len(),
    ensures
        final(data).len() == old(data).len(),
        forall|j: int|
            0 <= j < final(data)@.len() && !(off <= j < off + 16) ==> final(data)@[j] == old(
                data,
            )@[j],
        u128_le_at(final(data)@, off as int) == v,
{
    let lo = v as u64;
    let hi = (v >> 64) as u64;
    write_u64_le(data, off, lo);
    write_u64_le(data, off + 8, hi);
    proof {
        lemma_u128_split(v);
    }
}

// ---------------------------------------------------------------------------
// Exec: byte-range copy, fill, read-out, and comparison.
// ---------------------------------------------------------------------------

/// Copy `n` bytes from `src[src_off..]` into `dst[dst_off..]`.
pub fn copy_into(dst: &mut Vec<u8>, dst_off: usize, src: &Vec<u8>, src_off: usize, n: usize)
    requires
        dst_off + n <= old(dst).len(),
        src_off + n <= src.len(),
    ensures
        final(dst).len() == old(dst).len(),
        forall|j: int|
            0 <= j < final(dst)@.len() && !(dst_off <= j < dst_off + n) ==> final(dst)@[j] == old(
                dst,
            )@[j],
        final(dst)@.subrange(dst_off as int, dst_off + n as int) == src@.subrange(
            src_off as int,
            src_off + n as int,
        ),
{
    let mut i: usize = 0;
    while i < n
        invariant
            i <= n,
            dst_off + n <= dst.len(),
            src_off + n <= src.len(),
            dst.len() == old(dst).len(),
            forall|j: int|
                0 <= j < dst@.len() && !(dst_off <= j < dst_off + n) ==> dst@[j] == old(dst)@[j],
            forall|j: int| 0 <= j < i ==> #[trigger] dst@[dst_off + j] == src@[src_off + j],
        decreases n - i,
    {
        dst[dst_off + i] = src[src_off + i];
        i = i + 1;
    }
    proof {
        assert forall|k: int| 0 <= k < n implies #[trigger] dst@.subrange(
            dst_off as int,
            dst_off + n as int,
        )[k] == src@.subrange(src_off as int, src_off + n as int)[k] by {
            assert(dst@[dst_off + k] == src@[src_off + k]);
        }
        assert(dst@.subrange(dst_off as int, dst_off + n as int) =~= src@.subrange(
            src_off as int,
            src_off + n as int,
        ));
    }
}

/// Zero `n` bytes of `dst` starting at `off`.
pub fn fill_zero(dst: &mut Vec<u8>, off: usize, n: usize)
    requires
        off + n <= old(dst).len(),
    ensures
        final(dst).len() == old(dst).len(),
        forall|j: int|
            0 <= j < final(dst)@.len() && !(off <= j < off + n) ==> final(dst)@[j] == old(
                dst,
            )@[j],
        forall|j: int| off <= j < off + n ==> final(dst)@[j] == 0,
{
    let mut i: usize = 0;
    while i < n
        invariant
            i <= n,
            off + n <= dst.len(),
            dst.len() == old(dst).len(),
            forall|j: int|
                0 <= j < dst@.len() && !(off <= j < off + n) ==> dst@[j] == old(dst)@[j],
            forall|j: int| off <= j < off + i ==> dst@[j] == 0,
        decreases n - i,
    {
        dst[off + i] = 0;
        i = i + 1;
    }
}

/// Read `n` bytes starting at `off` into a fresh vector.
pub fn read_bytes(data: &Vec<u8>, off: usize, n: usize) -> (r: Vec<u8>)
    requires
        off + n <= data.len(),
    ensures
        r@ == data@.subrange(off as int, off + n as int),
{
    let mut r: Vec<u8> = Vec::new();
    let mut i: usize = 0;
    while i < n
        invariant
            i <= n,
            off + n <= data.len(),
            r@.len() == i,
            forall|j: int| 0 <= j < i ==> r@[j] == data@[off + j],
        decreases n - i,
    {
        r.push(data[off + i]);
        i = i + 1;
    }
    proof {
        assert(r@ =~= data@.subrange(off as int, off + n as int));
    }
    r
}

/// Equality of a byte range of `data` against the whole of `key`.
pub fn range_equals(data: &Vec<u8>, off: usize, key: &Vec<u8>) -> (r: bool)
    requires
        off + key.len() <= data.len(),
    ensures
        r == (data@.subrange(off as int, off + key@.len() as int) == key@),
{
    let n = key.len();
    let mut i: usize = 0;
    while i < n
        invariant
            i <= n,
            n == key.len(),
            off + n <= data.len(),
            forall|j: int| 0 <= j < i ==> data@[off + j] == key@[j],
        decreases n - i,
    {
        if data[off + i] != key[i] {
            proof {
                let ii = i as int;
                assert(data@.subrange(off as int, off + key@.len() as int)[ii] != key@[ii]);
            }
            return false;
        }
        i = i + 1;
    }
    proof {
        assert(data@.subrange(off as int, off + key@.len() as int) =~= key@);
    }
    true
}

} // verus!
