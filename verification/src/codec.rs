//! Calls into the checksum and decompression crates, and byte-to-text
//! decoding. Each outside call sits behind one trusted wrapper whose
//! contract names its result; everything downstream is verified against
//! those names.
use vstd::prelude::*;

verus! {

/// The CRC-32 (IEEE) checksum of a byte sequence; a function of the bytes
/// alone.
pub uninterp spec fn crc32_of(bytes: Seq<u8>) -> u32;

/// Relies on crc32fast::hash: the CRC-32 (IEEE) checksum of the input,
/// which depends on the input bytes alone.
#[verifier::external_body]
pub fn crc32(data: &[u8]) -> (r: u32)
    ensures
        r == crc32_of(data@),
{
    crc32fast::hash(data)
}

/// What raw-deflate decoding yields for a compressed byte sequence:
/// the decoded bytes, or nothing when the stream is not well-formed
/// deflate; a function of the bytes alone.
pub uninterp spec fn inflate_of(bytes: Seq<u8>) -> Option<Seq<u8>>;

/// Relies on flate2::read::DeflateDecoder (raw deflate, RFC 1951) driven
/// by std::io::Read::read_to_end: decodes the whole stream, or reports an
/// error on malformed input; the outcome depends on the input bytes alone.
#[verifier::external_body]
pub fn inflate(data: &[u8]) -> (r: Result<Vec<u8>, String>)
    ensures
        r is Ok <==> inflate_of(data@) is Some,
        (r matches Ok(v) ==> inflate_of(data@) == Some(v@)),
{
    let mut decoder = flate2::read::DeflateDecoder::new(data);
    let mut out: Vec<u8> = Vec::new();
    match std::io::Read::read_to_end(&mut decoder, &mut out) {
        Ok(_) => Ok(out),
        Err(e) => Err(e.to_string()),
    }
}

/// What lossy UTF-8 decoding yields for a byte sequence; a function of
/// the bytes alone.
pub uninterp spec fn utf8_lossy_of(bytes: Seq<u8>) -> Seq<char>;

/// Relies on String::from_utf8_lossy: decodes UTF-8, substituting the
/// replacement character for invalid sequences. Valid UTF-8 comes back
/// unchanged, so ASCII bytes decode to themselves.
#[verifier::external_body]
pub fn utf8_lossy(bytes: &Vec<u8>) -> (r: String)
    ensures
        r@ == utf8_lossy_of(bytes@),
        (forall|i: int| 0 <= i < bytes@.len() ==> bytes@[i] < 128) ==> r@ == bytes@.map_values(
            |b: u8| b as char,
        ),
{
    String::from_utf8_lossy(bytes).into_owned()
}

} // verus!
