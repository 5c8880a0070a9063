use vstd::prelude::*;
use crate::error::ZKError;

verus! {

/// The unsigned value of the two bytes at `i`, least significant first.
pub open spec fn le16_at(s: Seq<u8>, i: int) -> int {
    s[i] + 256 * s[i + 1]
}

/// The unsigned value of the four bytes at `i`, least significant first.
pub open spec fn le32_at(s: Seq<u8>, i: int) -> int {
    s[i] + 256 * s[i + 1] + 65536 * s[i + 2] + 16777216 * s[i + 3]
}

/// The two's-complement reading of the four bytes at `i`.
pub open spec fn le32_signed_at(s: Seq<u8>, i: int) -> int {
    if le32_at(s, i) < 0x8000_0000 {
        le32_at(s, i)
    } else {
        le32_at(s, i) - 0x1_0000_0000
    }
}

pub open spec fn u16_bytes(x: u16) -> Seq<u8> {
    seq![(x % 256) as u8, (x / 256) as u8]
}

pub open spec fn u32_bytes(x: u32) -> Seq<u8> {
    seq![
        (x % 256) as u8,
        (x / 0x100 % 256) as u8,
        (x / 0x1_0000 % 256) as u8,
        (x / 0x100_0000) as u8,
    ]
}

pub open spec fn u64_bytes(x: u64) -> Seq<u8> {
    seq![
        (x % 256) as u8,
        (x / 0x100 % 256) as u8,
        (x / 0x1_0000 % 256) as u8,
        (x / 0x100_0000 % 256) as u8,
        (x / 0x1_0000_0000 % 256) as u8,
        (x / 0x100_0000_0000 % 256) as u8,
        (x / 0x1_0000_0000_0000 % 256) as u8,
        (x / 0x100_0000_0000_0000) as u8,
    ]
}

/// `n` bytes: those of `src` that fit, then zeros.
pub open spec fn padded(src: Seq<u8>, n: nat) -> Seq<u8> {
    Seq::new(n, |k: int| if k < src.len() { src[k] } else { 0u8 })
}

/// Whether a table that a buffered transfer brought can be decoded: a 4-byte size, then
/// `count` records of `width` bytes. An empty table needs no bytes. Otherwise a missing size,
/// a size that does not divide evenly by the count, or bytes that do not add up to the size
/// make a malformed reply, and a width other than `width` has no known layout.
pub open spec fn table_check(data: Seq<u8>, count: int, width: int) -> Result<(), ZKError> {
    if count == 0 {
        Ok(())
    } else if data.len() < 4 {
        Err(ZKError::ResponseError)
    } else if le32_at(data, 0) % count != 0 {
        Err(ZKError::ResponseError)
    } else if le32_at(data, 0) / count != width {
        Err(ZKError::UnsupportedRecordSize)
    } else if data.len() - 4 != le32_at(data, 0) {
        Err(ZKError::ResponseError)
    } else {
        Ok(())
    }
}

pub fn read_u16_le(b: &[u8], i: usize) -> (r: u16)
    requires
        i + 2 <= b@.len(),
    ensures
        r == le16_at(b@, i as int),
{
    b[i] as u16 + 256 * (b[i + 1] as u16)
}

pub fn read_u32_le(b: &[u8], i: usize) -> (r: u32)
    requires
        i + 4 <= b@.len(),
    ensures
        r == le32_at(b@, i as int),
{
    b[i] as u32 + 0x100 * (b[i + 1] as u32) + 0x1_0000 * (b[i + 2] as u32) + 0x100_0000 * (
    b[i + 3] as u32)
}

pub fn read_i32_le(b: &[u8], i: usize) -> (r: i32)
    requires
        i + 4 <= b@.len(),
    ensures
        r == le32_signed_at(b@, i as int),
{
    let u = read_u32_le(b, i);
    if u < 0x8000_0000 {
        u as i32
    } else {
        (u as i64 - 0x1_0000_0000i64) as i32
    }
}

pub fn push_u16_le(buf: &mut Vec<u8>, x: u16)
    ensures
        final(buf)@ == old(buf)@ + u16_bytes(x),
{
    buf.push((x % 256) as u8);
    buf.push((x / 256) as u8);
    assert(final(buf)@ =~= old(buf)@ + u16_bytes(x));
}

pub fn push_u32_le(buf: &mut Vec<u8>, x: u32)
    ensures
        final(buf)@ == old(buf)@ + u32_bytes(x),
{
    buf.push((x % 256) as u8);
    buf.push((x / 0x100 % 256) as u8);
    buf.push((x / 0x1_0000 % 256) as u8);
    buf.push((x / 0x100_0000) as u8);
    assert(final(buf)@ =~= old(buf)@ + u32_bytes(x));
}

pub fn push_u64_le(buf: &mut Vec<u8>, x: u64)
    ensures
        final(buf)@ == old(buf)@ + u64_bytes(x),
{
    buf.push((x % 256) as u8);
    buf.push((x / 0x100 % 256) as u8);
    buf.push((x / 0x1_0000 % 256) as u8);
    buf.push((x / 0x100_0000 % 256) as u8);
    buf.push((x / 0x1_0000_0000 % 256) as u8);
    buf.push((x / 0x100_0000_0000 % 256) as u8);
    buf.push((x / 0x1_0000_0000_0000 % 256) as u8);
    buf.push((x / 0x100_0000_0000_0000) as u8);
    assert(final(buf)@ =~= old(buf)@ + u64_bytes(x));
}

/// Appends `src` cut or zero-filled to exactly `n` bytes.
pub fn push_padded(buf: &mut Vec<u8>, src: &[u8], n: usize)
    ensures
        final(buf)@ == old(buf)@ + padded(src@, n as nat),
{
    let ghost start = buf@;
    let mut k: usize = 0;
    while k < n
        invariant
            k <= n,
            buf@ == start + padded(src@, k as nat),
        decreases n - k,
    {
        if k < src.len() {
            buf.push(src[k]);
        } else {
            buf.push(0u8);
        }
        k = k + 1;
        assert(buf@ =~= start + padded(src@, k as nat));
    }
}

/// Appends every byte of `src`.
pub fn push_all(buf: &mut Vec<u8>, src: &[u8])
    ensures
        final(buf)@ == old(buf)@ + src@,
{
    let ghost start = buf@;
    let mut k: usize = 0;
    while k < src.len()
        invariant
            k <= src@.len(),
            buf@ == start + src@.subrange(0, k as int),
        decreases src@.len() - k,
    {
        buf.push(src[k]);
        k = k + 1;
        assert(buf@ =~= start + src@.subrange(0, k as int));
    }
    assert(src@.subrange(0, src@.len() as int) =~= src@);
}

/// A copy of `b[lo..hi]`.
pub fn copy_range(b: &[u8], lo: usize, hi: usize) -> (r: Vec<u8>)
    requires
        lo <= hi <= b@.len(),
    ensures
        r@ == b@.subrange(lo as int, hi as int),
{
    let mut r: Vec<u8> = Vec::new();
    let mut k: usize = lo;
    while k < hi
        invariant
            lo <= k <= hi,
            hi <= b@.len(),
            r@ == b@.subrange(lo as int, k as int),
        decreases hi - k,
    {
        r.push(b[k]);
        k = k + 1;
        assert(r@ =~= b@.subrange(lo as int, k as int));
    }
    r
}

} // verus!
