//! Decompression of compressed lump payloads.
//!
//! A compressed lump starts with a fixed header: a four-byte tag, the
//! declared decompressed size, the declared compressed size, and five
//! coder property bytes; the compressed stream follows.  The codec itself
//! is opaque: the library only assembles a standard stream (property
//! bytes, eight-byte little-endian unpacked size, payload) and hands it
//! to the outside decoder.

use vstd::prelude::*;
use crate::bytes::le32;
use crate::error::BspError;

verus! {

/// What the outside LZMA decoder returns for a given stream: `Some` with
/// the inflated bytes where decoding succeeds, `None` where the stream is
/// rejected.  The outcome depends on the stream bytes alone.
pub uninterp spec fn lzma_inflate(s: Seq<u8>) -> Option<Seq<u8>>;

/// Relies on lzma_rs::lzma_decompress: inflates one standard LZMA stream
/// (five property bytes, an eight-byte little-endian unpacked size, then
/// the payload), reporting failure as an error value; the outcome is a
/// function of the stream bytes alone.
#[verifier::external_body]
fn lzma_decompress(input: &[u8]) -> (r: Option<Vec<u8>>)
    ensures
        match r {
            Some(v) => lzma_inflate(input@) == Some(v@),
            None => lzma_inflate(input@) is None,
        },
{
    let mut reader = input;
    let mut out = Vec::new();
    match lzma_rs::lzma_decompress(&mut reader, &mut out) {
        Ok(()) => Some(out),
        Err(_) => None,
    }
}

/// The fixed header of a compressed lump payload is complete and carries
/// the expected four-byte tag ("LZMA").
pub open spec fn compressed_ok(s: Seq<u8>) -> bool {
    &&& s.len() >= 17
    &&& s[0] == 76u8  // 'L'
    &&& s[1] == 90u8  // 'Z'
    &&& s[2] == 77u8  // 'M'
    &&& s[3] == 65u8  // 'A'
}

/// The standard stream assembled from a compressed lump payload: the five
/// property bytes, the declared decompressed size widened to eight bytes,
/// and the compressed stream.
pub open spec fn lzma_stream_of(s: Seq<u8>) -> Seq<u8> {
    let size = le32(s, 4);
    s.subrange(12, 17) + seq![
        (size % 0x100) as u8,
        ((size / 0x100) % 0x100) as u8,
        ((size / 0x1_0000) % 0x100) as u8,
        ((size / 0x100_0000) % 0x100) as u8,
        0u8,
        0u8,
        0u8,
        0u8,
    ] + s.subrange(17, s.len() as int)
}

/// What decompressing a compressed lump payload yields.
pub open spec fn decompress_spec(s: Seq<u8>) -> Option<Seq<u8>> {
    if compressed_ok(s) {
        lzma_inflate(lzma_stream_of(s))
    } else {
        None
    }
}

/// Checks the fixed header of a compressed lump payload, assembles the
/// standard stream, and invokes the opaque decoder on it.
pub fn decompress_lump(raw: &[u8]) -> (r: Result<Vec<u8>, BspError>)
    ensures
        r is Ok <==> decompress_spec(raw@) is Some,
        r matches Ok(v) ==> decompress_spec(raw@) == Some(v@),
        r is Err ==> r == Err::<Vec<u8>, BspError>(BspError::Decompression),
{
    if raw.len() < 17 {
        return Err(BspError::Decompression);
    }
    if !(raw[0] == 76 && raw[1] == 90 && raw[2] == 77 && raw[3] == 65) {
        return Err(BspError::Decompression);
    }
    let size = crate::bytes::read_u32(raw, 4);
    let mut stream: Vec<u8> = Vec::new();
    stream.push(raw[12]);
    stream.push(raw[13]);
    stream.push(raw[14]);
    stream.push(raw[15]);
    stream.push(raw[16]);
    stream.push((size % 0x100) as u8);
    stream.push(((size / 0x100) % 0x100) as u8);
    stream.push(((size / 0x1_0000) % 0x100) as u8);
    stream.push(((size / 0x100_0000) % 0x100) as u8);
    stream.push(0);
    stream.push(0);
    stream.push(0);
    stream.push(0);
    proof {
        assert(stream@ =~= lzma_stream_of(raw@).subrange(0, 13));
    }
    let mut i: usize = 17;
    while i < raw.len()
        invariant
            17 <= i <= raw@.len(),
            raw@.len() >= 17,
            stream@.len() == 13 + i - 17,
            stream@ == lzma_stream_of(raw@).subrange(0, 13 + i - 17),
        decreases raw@.len() - i,
    {
        stream.push(raw[i]);
        proof {
            assert(lzma_stream_of(raw@)[13 + i - 17] == raw@[i as int]);
            assert(stream@ =~= lzma_stream_of(raw@).subrange(0, 13 + i - 17 + 1));
        }
        i = i + 1;
    }
    proof {
        assert(stream@ =~= lzma_stream_of(raw@));
    }
    match lzma_decompress(stream.as_slice()) {
        Some(v) => Ok(v),
        None => Err(BspError::Decompression),
    }
}

} // verus!
