//! Little-endian primitive readers over byte slices.
//!
//! Every multi-byte integer in the container format is fixed-width and
//! little-endian; these helpers are the single place where raw bytes are
//! turned into integers.

use vstd::prelude::*;

verus! {

/// Mathematical value of the two bytes at `i`, read little-endian.
pub open spec fn le16(s: Seq<u8>, i: int) -> int {
    s[i] + 256 * s[i + 1]
}

/// Mathematical value of the four bytes at `i`, read little-endian.
pub open spec fn le32(s: Seq<u8>, i: int) -> int {
    s[i] + 0x100 * s[i + 1] + 0x1_0000 * s[i + 2] + 0x100_0000 * s[i + 3]
}

/// Two's-complement reading of a 16-bit little-endian value.
pub open spec fn le16_signed(s: Seq<u8>, i: int) -> int {
    if le16(s, i) < 0x8000 {
        le16(s, i)
    } else {
        le16(s, i) - 0x1_0000
    }
}

/// Two's-complement reading of a 32-bit little-endian value.
pub open spec fn le32_signed(s: Seq<u8>, i: int) -> int {
    if le32(s, i) < 0x8000_0000 {
        le32(s, i)
    } else {
        le32(s, i) - 0x1_0000_0000
    }
}

pub fn read_u8(data: &[u8], at: usize) -> (r: u8)
    requires
        at < data@.len(),
    ensures
        r == data@[at as int],
{
    data[at]
}

pub fn read_u16(data: &[u8], at: usize) -> (r: u16)
    requires
        at + 2 <= data@.len(),
    ensures
        r == le16(data@, at as int),
{
    let b0 = data[at] as u16;
    let b1 = data[at + 1] as u16;
    b0 + b1 * 0x100
}

pub fn read_u32(data: &[u8], at: usize) -> (r: u32)
    requires
        at + 4 <= data@.len(),
    ensures
        r == le32(data@, at as int),
{
    let b0 = data[at] as u32;
    let b1 = data[at + 1] as u32;
    let b2 = data[at + 2] as u32;
    let b3 = data[at + 3] as u32;
    b0 + b1 * 0x100 + b2 * 0x1_0000 + b3 * 0x100_0000
}

/// Compares two byte strings for equality.
pub fn bytes_eq(a: &[u8], b: &[u8]) -> (r: bool)
    ensures
        r <==> a@ == b@,
{
    let n = a.len();
    if n != b.len() {
        return false;
    }
    let mut i: usize = 0;
    while i < n
        invariant
            0 <= i <= n,
            n == a@.len() == b@.len(),
            forall|k: int| 0 <= k < i ==> a@[k] == b@[k],
        decreases n - i,
    {
        if a[i] != b[i] {
            return false;
        }
        i = i + 1;
    }
    proof {
        assert(a@ =~= b@);
    }
    true
}

/// The first position at or after `from` holding byte `b`, if any.
pub open spec fn find_byte_spec(s: Seq<u8>, from: int, b: u8) -> Option<int>
    decreases s.len() - from when 0 <= from <= s.len()
{
    if from >= s.len() {
        None
    } else if s[from] == b {
        Some(from)
    } else {
        find_byte_spec(s, from + 1, b)
    }
}

/// A found position lies in range and is the first match.
pub proof fn lemma_find_byte_spec(s: Seq<u8>, from: int, b: u8)
    requires
        0 <= from <= s.len(),
    ensures
        find_byte_spec(s, from, b) matches Some(i) ==> from <= i < s.len() && s[i] == b
            && forall|k: int| from <= k < i ==> s[k] != b,
        find_byte_spec(s, from, b) is None ==> forall|k: int| from <= k < s.len() ==> s[k] != b,
    decreases s.len() - from,
{
    if from < s.len() && s[from] != b {
        lemma_find_byte_spec(s, from + 1, b);
    }
}

/// Scans for the first occurrence of byte `b` at or after `from`.
pub fn find_byte(data: &[u8], from: usize, b: u8) -> (r: Option<usize>)
    requires
        from <= data@.len(),
    ensures
        match r {
            Some(i) => find_byte_spec(data@, from as int, b) == Some(i as int) && from <= i
                < data@.len(),
            None => find_byte_spec(data@, from as int, b) is None,
        },
{
    let n = data.len();
    let mut i = from;
    while i < n
        invariant
            from <= i <= n,
            n == data@.len(),
            find_byte_spec(data@, from as int, b) == find_byte_spec(data@, i as int, b),
        decreases n - i,
    {
        if data[i] == b {
            return Some(i);
        }
        i = i + 1;
    }
    None
}

/// Copies `len` bytes starting at `start` into a fresh buffer.
pub fn copy_range(data: &[u8], start: usize, len: usize) -> (r: Vec<u8>)
    requires
        start + len <= data@.len(),
    ensures
        r@ == data@.subrange(start as int, start + len),
{
    let n = data.len();
    let mut out: Vec<u8> = Vec::new();
    let mut i: usize = 0;
    while i < len
        invariant
            0 <= i <= len,
            start + len <= data@.len(),
            data@.len() == n,
            out@.len() == i,
            out@ == data@.subrange(start as int, start + i),
        decreases len - i,
    {
        out.push(data[start + i]);
        proof {
            assert(out@ =~= data@.subrange(start as int, start + i + 1));
        }
        i = i + 1;
    }
    out
}

pub fn read_i16(data: &[u8], at: usize) -> (r: i16)
    requires
        at + 2 <= data@.len(),
    ensures
        r == le16_signed(data@, at as int),
{
    let v = read_u16(data, at);
    if v < 0x8000 {
        v as i16
    } else {
        let d = 0xffffu16 - v;
        -(d as i16) - 1
    }
}

pub fn read_i32(data: &[u8], at: usize) -> (r: i32)
    requires
        at + 4 <= data@.len(),
    ensures
        r == le32_signed(data@, at as int),
{
    let v = read_u32(data, at);
    if v < 0x8000_0000 {
        v as i32
    } else {
        let d = 0xffff_ffffu32 - v;
        -(d as i32) - 1
    }
}

} // verus!
