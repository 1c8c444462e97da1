//! Little-endian integer encoding over byte buffers.
use vstd::prelude::*;

verus! {

/// The `u16` stored little-endian at `s[p..p + 2]`.
pub open spec fn le_u16(s: Seq<u8>, p: int) -> u16 {
    (s[p] as u16) | ((s[p + 1] as u16) << 8u16)
}

/// The `u32` stored little-endian at `s[p..p + 4]`.
pub open spec fn le_u32(s: Seq<u8>, p: int) -> u32 {
    (s[p] as u32) | ((s[p + 1] as u32) << 8u32) | ((s[p + 2] as u32) << 16u32) | ((s[p + 3] as u32)
        << 24u32)
}

/// The `u64` stored little-endian at `s[p..p + 8]`.
pub open spec fn le_u64(s: Seq<u8>, p: int) -> u64 {
    (s[p] as u64) | ((s[p + 1] as u64) << 8u64) | ((s[p + 2] as u64) << 16u64) | ((s[p + 3] as u64)
        << 24u64) | ((s[p + 4] as u64) << 32u64) | ((s[p + 5] as u64) << 40u64) | ((s[p + 6] as u64)
        << 48u64) | ((s[p + 7] as u64) << 56u64)
}

/// Little-endian encoding of a `u16`.
pub open spec fn u16_le_bytes(v: u16) -> Seq<u8> {
    seq![v as u8, (v >> 8u16) as u8]
}

/// Little-endian encoding of a `u32`.
pub open spec fn u32_le_bytes(v: u32) -> Seq<u8> {
    seq![v as u8, (v >> 8u32) as u8, (v >> 16u32) as u8, (v >> 24u32) as u8]
}

/// Little-endian encoding of a `u64`.
pub open spec fn u64_le_bytes(v: u64) -> Seq<u8> {
    seq![
        v as u8,
        (v >> 8u64) as u8,
        (v >> 16u64) as u8,
        (v >> 24u64) as u8,
        (v >> 32u64) as u8,
        (v >> 40u64) as u8,
        (v >> 48u64) as u8,
        (v >> 56u64) as u8,
    ]
}

/// `s` with the bytes starting at `start` replaced by `data`.
pub open spec fn overwrite(s: Seq<u8>, start: int, data: Seq<u8>) -> Seq<u8> {
    Seq::new(
        s.len(),
        |i: int|
            if start <= i < start + data.len() {
                data[i - start]
            } else {
                s[i]
            },
    )
}

/// Decoding the encoding of a `u16` gives it back.
pub proof fn lemma_u16_round_trip(v: u16)
    ensures
        le_u16(u16_le_bytes(v), 0) == v,
{
    let b0 = v as u8;
    let b1 = (v >> 8u16) as u8;
    assert((b0 as u16) | ((b1 as u16) << 8u16) == v) by (bit_vector)
        requires
            b0 == v as u8,
            b1 == (v >> 8u16) as u8,
    ;
}

/// Decoding the encoding of a `u32` gives it back.
pub proof fn lemma_u32_round_trip(v: u32)
    ensures
        le_u32(u32_le_bytes(v), 0) == v,
{
    let b0 = v as u8;
    let b1 = (v >> 8u32) as u8;
    let b2 = (v >> 16u32) as u8;
    let b3 = (v >> 24u32) as u8;
    assert((b0 as u32) | ((b1 as u32) << 8u32) | ((b2 as u32) << 16u32) | ((b3 as u32) << 24u32)
        == v) by (bit_vector)
        requires
            b0 == v as u8,
            b1 == (v >> 8u32) as u8,
            b2 == (v >> 16u32) as u8,
            b3 == (v >> 24u32) as u8,
    ;
}

/// Decoding the encoding of a `u64` gives it back.
pub proof fn lemma_u64_round_trip(v: u64)
    ensures
        le_u64(u64_le_bytes(v), 0) == v,
{
    let b0 = v as u8;
    let b1 = (v >> 8u64) as u8;
    let b2 = (v >> 16u64) as u8;
    let b3 = (v >> 24u64) as u8;
    let b4 = (v >> 32u64) as u8;
    let b5 = (v >> 40u64) as u8;
    let b6 = (v >> 48u64) as u8;
    let b7 = (v >> 56u64) as u8;
    assert((b0 as u64) | ((b1 as u64) << 8u64) | ((b2 as u64) << 16u64) | ((b3 as u64) << 24u64)
        | ((b4 as u64) << 32u64) | ((b5 as u64) << 40u64) | ((b6 as u64) << 48u64) | ((b7 as u64)
        << 56u64) == v) by (bit_vector)
        requires
            b0 == v as u8,
            b1 == (v >> 8u64) as u8,
            b2 == (v >> 16u64) as u8,
            b3 == (v >> 24u64) as u8,
            b4 == (v >> 32u64) as u8,
            b5 == (v >> 40u64) as u8,
            b6 == (v >> 48u64) as u8,
            b7 == (v >> 56u64) as u8,
    ;
}

/// Reads the little-endian `u16` at `b[p..p + 2]`.
pub fn get_u16(b: &[u8], p: usize) -> (r: u16)
    requires
        p + 2 <= b@.len(),
    ensures
        r == le_u16(b@, p as int),
{
    (b[p] as u16) | ((b[p + 1] as u16) << 8u16)
}

/// Reads the little-endian `u32` at `b[p..p + 4]`.
pub fn get_u32(b: &[u8], p: usize) -> (r: u32)
    requires
        p + 4 <= b@.len(),
    ensures
        r == le_u32(b@, p as int),
{
    (b[p] as u32) | ((b[p + 1] as u32) << 8u32) | ((b[p + 2] as u32) << 16u32) | ((b[p + 3] as u32)
        << 24u32)
}

/// Reads the little-endian `u64` at `b[p..p + 8]`.
pub fn get_u64(b: &[u8], p: usize) -> (r: u64)
    requires
        p + 8 <= b@.len(),
    ensures
        r == le_u64(b@, p as int),
{
    (b[p] as u64) | ((b[p + 1] as u64) << 8u64) | ((b[p + 2] as u64) << 16u64) | ((b[p + 3] as u64)
        << 24u64) | ((b[p + 4] as u64) << 32u64) | ((b[p + 5] as u64) << 40u64) | ((b[p + 6] as u64)
        << 48u64) | ((b[p + 7] as u64) << 56u64)
}

/// Writes `v` little-endian at `b[p..p + 2]`.
pub fn put_u16(b: &mut [u8], p: usize, v: u16)
    requires
        p + 2 <= old(b)@.len(),
    ensures
        final(b)@ == overwrite(old(b)@, p as int, u16_le_bytes(v)),
{
    b[p] = v as u8;
    b[p + 1] = (v >> 8u16) as u8;
    assert(b@ =~= overwrite(old(b)@, p as int, u16_le_bytes(v)));
}

/// Writes `v` little-endian at `b[p..p + 4]`.
pub fn put_u32(b: &mut [u8], p: usize, v: u32)
    requires
        p + 4 <= old(b)@.len(),
    ensures
        final(b)@ == overwrite(old(b)@, p as int, u32_le_bytes(v)),
{
    b[p] = v as u8;
    b[p + 1] = (v >> 8u32) as u8;
    b[p + 2] = (v >> 16u32) as u8;
    b[p + 3] = (v >> 24u32) as u8;
    assert(b@ =~= overwrite(old(b)@, p as int, u32_le_bytes(v)));
}

/// Writes `v` little-endian at `b[p..p + 8]`.
pub fn put_u64(b: &mut [u8], p: usize, v: u64)
    requires
        p + 8 <= old(b)@.len(),
    ensures
        final(b)@ == overwrite(old(b)@, p as int, u64_le_bytes(v)),
{
    b[p] = v as u8;
    b[p + 1] = (v >> 8u64) as u8;
    b[p + 2] = (v >> 16u64) as u8;
    b[p + 3] = (v >> 24u64) as u8;
    b[p + 4] = (v >> 32u64) as u8;
    b[p + 5] = (v >> 40u64) as u8;
    b[p + 6] = (v >> 48u64) as u8;
    b[p + 7] = (v >> 56u64) as u8;
    assert(b@ =~= overwrite(old(b)@, p as int, u64_le_bytes(v)));
}

/// Copies `src[from..from + n]` into `dst[at..at + n]`.
pub fn copy_bytes(dst: &mut [u8], at: usize, src: &[u8], from: usize, n: usize)
    requires
        at + n <= old(dst)@.len(),
        from + n <= src@.len(),
    ensures
        final(dst)@ == overwrite(old(dst)@, at as int, src@.subrange(from as int, from + n)),
{
    let _dst_len = dst.len();
    let _src_len = src.len();
    let end_dst = at + n;
    let end_src = from + n;
    let mut i: usize = 0;
    while i < n
        invariant
            i <= n,
            at + n == end_dst,
            from + n == end_src,
            at + n <= dst@.len(),
            from + n <= src@.len(),
            dst@.len() == old(dst)@.len(),
            forall|k: int|
                0 <= k < dst@.len() ==> dst@[k] == (if at <= k < at + i {
                    src@[from + k - at]
                } else {
                    old(dst)@[k]
                }),
        decreases n - i,
    {
        dst[at + i] = src[from + i];
        i += 1;
    }
    assert(dst@ =~= overwrite(old(dst)@, at as int, src@.subrange(from as int, from + n)));
}

/// Sets `dst[at..at + n]` to `v`.
pub fn fill_bytes(dst: &mut [u8], at: usize, n: usize, v: u8)
    requires
        at + n <= old(dst)@.len(),
    ensures
        final(dst)@ == overwrite(old(dst)@, at as int, Seq::new(n as nat, |_i: int| v)),
{
    let _dst_len = dst.len();
    let end_dst = at + n;
    let mut i: usize = 0;
    while i < n
        invariant
            i <= n,
            at + n == end_dst,
            at + n <= dst@.len(),
            dst@.len() == old(dst)@.len(),
            forall|k: int|
                0 <= k < dst@.len() ==> dst@[k] == (if at <= k < at + i {
                    v
                } else {
                    old(dst)@[k]
                }),
        decreases n - i,
    {
        dst[at + i] = v;
        i += 1;
    }
    assert(dst@ =~= overwrite(old(dst)@, at as int, Seq::new(n as nat, |_i: int| v)));
}

} // verus!
