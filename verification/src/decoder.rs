//! Decompression of binary payloads.
//!
//! A binary frame carries an LZ4 frame-format compressed block. Decoding
//! reconstructs the original byte sequence, all or nothing: a malformed
//! header, a truncated block, or a violated internal invariant yields a
//! [`DecodeError`] and no output. A compressor is offered alongside so that
//! callers and tests can build valid payloads.
//!
//! Compression and decompression are done by the `lz4_flex` crate. Both are
//! functions of the input bytes alone, so their results are named by the
//! uninterpreted functions [`lz4_encoded`] and [`lz4_decoded`], and every
//! contract in this library speaks of those names.

use vstd::prelude::*;

verus! {

/// Decoding failed: the payload is not a well-formed LZ4 frame (malformed
/// header, truncated block, or a violated decompression invariant).
#[derive(Clone, Copy, Debug, PartialEq, Eq, Structural)]
pub struct DecodeError;

/// What LZ4 frame decompression yields on the given input: the original byte
/// sequence for a well-formed compressed frame, nothing otherwise. A function
/// of the input bytes alone.
pub uninterp spec fn lz4_decoded(input: Seq<u8>) -> Option<Seq<u8>>;

/// The LZ4 frame-format compression of the given bytes. A function of the
/// input bytes alone.
pub uninterp spec fn lz4_encoded(input: Seq<u8>) -> Seq<u8>;

/// Relies on lz4_flex::frame::FrameDecoder: reading it to the end yields the
/// decompressed bytes of a well-formed frame and reports an error otherwise,
/// a function of the compressed input alone.
#[verifier::external_body]
fn lz4_decompress(input: &Vec<u8>) -> (r: Result<Vec<u8>, DecodeError>)
    ensures
        r matches Ok(d) ==> lz4_decoded(input@) == Some(d@),
        r is Err ==> lz4_decoded(input@) is None,
{
    let mut rdr = lz4_flex::frame::FrameDecoder::new(input.as_slice());
    let mut out: Vec<u8> = Vec::new();
    match std::io::Read::read_to_end(&mut rdr, &mut out) {
        Ok(_) => Ok(out),
        Err(_) => Err(DecodeError),
    }
}

/// Relies on lz4_flex::frame::FrameEncoder: compression is a function of the
/// input bytes alone, and decompressing its output restores the input exactly
/// (the round trip the crate documents and tests as its core promise).
#[verifier::external_body]
fn lz4_compress(input: &Vec<u8>) -> (r: Vec<u8>)
    ensures
        r@ == lz4_encoded(input@),
        lz4_decoded(r@) == Some(input@),
{
    let mut wtr = lz4_flex::frame::FrameEncoder::new(Vec::new());
    std::io::Write::write_all(&mut wtr, input.as_slice()).expect("writing to a Vec cannot fail");
    wtr.finish().expect("writing to a Vec cannot fail")
}

/// Decodes one compressed binary payload: returns the fully reconstructed
/// original byte sequence, or `DecodeError` when the payload is not a
/// well-formed LZ4 frame. All or nothing; no partial output.
pub fn decode(input: &Vec<u8>) -> (r: Result<Vec<u8>, DecodeError>)
    ensures
        r matches Ok(d) ==> lz4_decoded(input@) == Some(d@),
        r is Ok <==> lz4_decoded(input@) is Some,
{
    lz4_decompress(input)
}

/// Compresses a byte sequence into an LZ4 frame that [`decode`] accepts.
pub fn encode(input: &Vec<u8>) -> (r: Vec<u8>)
    ensures
        r@ == lz4_encoded(input@),
        lz4_decoded(r@) == Some(input@),
{
    lz4_compress(input)
}

/// Round trip: decoding the compression of any byte sequence restores that
/// sequence exactly.
pub fn round_trip(input: &Vec<u8>) -> (r: Vec<u8>)
    ensures
        r@ == input@,
{
    let compressed = encode(input);
    match decode(&compressed) {
        Ok(d) => d,
        Err(_) => unreached(),
    }
}

} // verus!
