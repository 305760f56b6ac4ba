//! The transport payload of a serialized code line: its text, gzip-compressed
//! and then base64-encoded.
use vstd::prelude::*;
use flate2::read::GzDecoder;
use flate2::write::GzEncoder;
use flate2::Compression;
use std::io::Read;
use std::io::Write;

verus! {

/// The gzip stream that flate2 writes for the UTF-8 bytes of a text.
pub uninterp spec fn gzip_of(text: Seq<char>) -> Seq<u8>;

/// The standard, padded base64 text of some bytes.
pub uninterp spec fn base64_of(bytes: Seq<u8>) -> Seq<char>;

/// The payload of a text: base64 of its gzip stream.
pub open spec fn payload_of(text: Seq<char>) -> Seq<char> {
    base64_of(gzip_of(text))
}

/// Relies on flate2's `GzEncoder` at the default level with the default
/// header (no time stamp, OS byte 255): the stream depends on the text alone.
/// Writing into a `Vec` cannot fail.
#[verifier::external_body]
fn gzip(text: &str) -> (r: Vec<u8>)
    ensures
        r@ == gzip_of(text@),
{
    let mut encoder = GzEncoder::new(Vec::new(), Compression::default());
    encoder.write_all(text.as_bytes()).unwrap();
    encoder.finish().unwrap()
}

/// Relies on flate2's `GzDecoder`: it reads back, as UTF-8 text, the text
/// whose bytes `GzEncoder` compressed.
#[verifier::external_body]
fn gunzip(bytes: &[u8]) -> (r: Option<String>)
    ensures
        forall|t: Seq<char>| bytes@ == gzip_of(t) ==> r is Some && r->0@ == t,
{
    let mut s = String::new();
    match GzDecoder::new(bytes).read_to_string(&mut s) {
        Ok(_) => Some(s),
        Err(_) => None,
    }
}

/// Relies on `base64::encode`: the standard alphabet, with padding.
#[verifier::external_body]
#[allow(deprecated)]
fn base64_encode(bytes: &[u8]) -> (r: String)
    ensures
        r@ == base64_of(bytes@),
{
    base64::encode(bytes)
}

/// Relies on `base64::decode`: it gives back the bytes that `base64::encode`
/// encoded.
#[verifier::external_body]
#[allow(deprecated)]
fn base64_decode(text: &str) -> (r: Option<Vec<u8>>)
    ensures
        forall|b: Seq<u8>| text@ == base64_of(b) ==> r is Some && r->0@ == b,
{
    base64::decode(text).ok()
}

/// Packs a text into its payload.
pub fn pack(text: &str) -> (r: String)
    ensures
        r@ == payload_of(text@),
{
    let compressed = gzip(text);
    base64_encode(compressed.as_slice())
}

/// Unpacks a payload into its text: the payload of any text unpacks to that
/// text. Input that is not valid base64, not a gzip stream, or not UTF-8
/// gives `None`.
pub fn unpack(payload: &str) -> (r: Option<String>)
    ensures
        forall|t: Seq<char>| payload@ == #[trigger] payload_of(t) ==> (r matches Some(s) && s@ == t),
{
    match base64_decode(payload) {
        Some(bytes) => gunzip(bytes.as_slice()),
        None => None,
    }
}

} // verus!
