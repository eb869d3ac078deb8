//! Compression negotiation and the byte transforms behind it.

use vstd::prelude::*;
use crate::param::HttpEncoding;
use crate::text::{chars_of, starts_with, starts_with_exec};
use std::io::Write;

verus! {

/// The gzip stream (flate2, default level) of `data`, or `None` if the
/// encoder reports a failure.
pub uninterp spec fn gzip_of(data: Seq<u8>) -> Option<Seq<u8>>;

/// The raw deflate stream (flate2, default level) of `data`, or `None` on
/// failure.
pub uninterp spec fn deflate_of(data: Seq<u8>) -> Option<Seq<u8>>;

/// The brotli stream (default encoder parameters) of `data`, or `None` on
/// failure.
pub uninterp spec fn brotli_of(data: Seq<u8>) -> Option<Seq<u8>>;

pub open spec fn opt_bytes(r: Option<Vec<u8>>) -> Option<Seq<u8>> {
    match r {
        Some(v) => Some(v@),
        None => None,
    }
}

/// Relies on flate2's `GzEncoder` at `Compression::default()`: writing all of
/// `data` into a vector and finishing yields the gzip stream.
#[verifier::external_body]
fn gzip_bytes(data: &[u8]) -> (r: Option<Vec<u8>>)
    ensures
        opt_bytes(r) == gzip_of(data@),
{
    let mut e = flate2::write::GzEncoder::new(Vec::new(), flate2::Compression::default());
    match e.write_all(data) {
        Ok(()) => e.finish().ok(),
        Err(_) => None,
    }
}

/// Relies on flate2's `DeflateEncoder` at `Compression::default()`: writing
/// all of `data` into a vector and finishing yields the deflate stream.
#[verifier::external_body]
fn deflate_bytes(data: &[u8]) -> (r: Option<Vec<u8>>)
    ensures
        opt_bytes(r) == deflate_of(data@),
{
    let mut e = flate2::write::DeflateEncoder::new(Vec::new(), flate2::Compression::default());
    match e.write_all(data) {
        Ok(()) => e.finish().ok(),
        Err(_) => None,
    }
}

/// Relies on `brotli::enc::BrotliCompress` with default parameters, reading
/// `data` and writing the brotli stream into a vector.
#[verifier::external_body]
fn brotli_bytes(data: &[u8]) -> (r: Option<Vec<u8>>)
    ensures
        opt_bytes(r) == brotli_of(data@),
{
    let params = brotli::enc::backward_references::BrotliEncoderParams::default();
    let mut out = Vec::new();
    match brotli::enc::BrotliCompress(&mut std::io::Cursor::new(data), &mut out, &params) {
        Ok(_) => Some(out),
        Err(_) => None,
    }
}

/// The result of transforming `data` with `mode`; no mode is the identity.
pub open spec fn compressed(data: Seq<u8>, mode: Option<HttpEncoding>) -> Option<Seq<u8>> {
    match mode {
        None => Some(data),
        Some(HttpEncoding::Gzip) => gzip_of(data),
        Some(HttpEncoding::Deflate) => deflate_of(data),
        Some(HttpEncoding::Br) => brotli_of(data),
    }
}

/// Transforms `data` with the given encoding; `None` passes it through.
/// Returns `None` when the encoder fails.
pub fn compress(data: Vec<u8>, mode: Option<HttpEncoding>) -> (r: Option<Vec<u8>>)
    ensures
        opt_bytes(r) == compressed(data@, mode),
{
    match mode {
        None => Some(data),
        Some(HttpEncoding::Gzip) => gzip_bytes(data.as_slice()),
        Some(HttpEncoding::Deflate) => deflate_bytes(data.as_slice()),
        Some(HttpEncoding::Br) => brotli_bytes(data.as_slice()),
    }
}

/// Body and encoding actually sent: the compressed bytes with the chosen
/// encoding, or, if compression fails, the uncompressed bytes and no encoding.
pub open spec fn encoded_body(data: Seq<u8>, mode: Option<HttpEncoding>) -> (Seq<u8>, Option<HttpEncoding>) {
    match compressed(data, mode) {
        Some(c) => (c, mode),
        None => (data, None),
    }
}

/// Compresses `data` per `mode`, falling back to the uncompressed bytes (and no
/// encoding) when the encoder fails.
pub fn encode_body(data: Vec<u8>, mode: Option<HttpEncoding>) -> (r: (Vec<u8>, Option<HttpEncoding>))
    ensures
        (r.0@, r.1) == encoded_body(data@, mode),
{
    match mode {
        None => (data, None),
        Some(e) => {
            let c = compress(data.clone(), mode);
            match c {
                Some(v) => (v, mode),
                None => (data, None),
            }
        },
    }
}

/// Negotiation: gzip if accepted, else deflate if accepted, else none.
/// Brotli is never chosen.
pub open spec fn decide_spec(accepted: Seq<HttpEncoding>) -> Option<HttpEncoding> {
    if accepted.contains(HttpEncoding::Gzip) {
        Some(HttpEncoding::Gzip)
    } else if accepted.contains(HttpEncoding::Deflate) {
        Some(HttpEncoding::Deflate)
    } else {
        None
    }
}

fn accepts(accepted: &Vec<HttpEncoding>, e: HttpEncoding) -> (r: bool)
    ensures
        r == accepted@.contains(e),
{
    let mut i: usize = 0;
    while i < accepted.len()
        invariant
            i <= accepted@.len(),
            forall|k: int| 0 <= k < i ==> accepted@[k] != e,
        decreases accepted.len() - i,
    {
        if accepted[i] == e {
            return true;
        }
        i = i + 1;
    }
    false
}

/// Picks the encoding for a response from the client's accepted set.
pub fn decide_encoding(accept_encoding: &Vec<HttpEncoding>) -> (r: Option<HttpEncoding>)
    ensures
        r == decide_spec(accept_encoding@),
{
    if accepts(accept_encoding, HttpEncoding::Gzip) {
        Some(HttpEncoding::Gzip)
    } else if accepts(accept_encoding, HttpEncoding::Deflate) {
        Some(HttpEncoding::Deflate)
    } else {
        None
    }
}

/// Media-type prefixes of content that is already compressed.
pub open spec fn skip_prefixes() -> Seq<Seq<char>> {
    seq![
        "image/jpeg"@,
        "image/jpg"@,
        "image/png"@,
        "image/gif"@,
        "image/webp"@,
        "image/bmp"@,
        "image/x-icon"@,
        "video/"@,
        "audio/"@,
        "application/zip"@,
        "application/x-rar"@,
        "application/x-7z-compressed"@,
        "application/gzip"@,
        "application/x-gzip"@,
        "font/woff"@,
        "font/woff2"@,
        "application/vnd.ms-fontobject"@,
    ]
}

pub open spec fn skips_compression(mime: Seq<char>) -> bool {
    exists|i: int| 0 <= i < skip_prefixes().len() && starts_with(mime, #[trigger] skip_prefixes()[i])
}

/// Whether a file of this media type is sent without compression.
pub fn should_skip_compression(mime_type: &str) -> (r: bool)
    ensures
        r == skips_compression(mime_type@),
{
    let m = chars_of(mime_type);
    let prefixes: Vec<&str> = vec![
        "image/jpeg",
        "image/jpg",
        "image/png",
        "image/gif",
        "image/webp",
        "image/bmp",
        "image/x-icon",
        "video/",
        "audio/",
        "application/zip",
        "application/x-rar",
        "application/x-7z-compressed",
        "application/gzip",
        "application/x-gzip",
        "font/woff",
        "font/woff2",
        "application/vnd.ms-fontobject",
    ];
    assert(prefixes@.len() == skip_prefixes().len());
    assert(forall|i: int| 0 <= i < prefixes@.len() ==> #[trigger] prefixes@[i]@ == skip_prefixes()[i]);
    let mut i: usize = 0;
    while i < prefixes.len()
        invariant
            m@ == mime_type@,
            prefixes@.len() == skip_prefixes().len(),
            forall|k: int| 0 <= k < prefixes@.len() ==> #[trigger] prefixes@[k]@ == skip_prefixes()[k],
            i <= prefixes@.len(),
            forall|k: int| 0 <= k < i ==> !starts_with(m@, #[trigger] skip_prefixes()[k]),
        decreases prefixes.len() - i,
    {
        if starts_with_exec(&m, &chars_of(prefixes[i])) {
            return true;
        }
        i = i + 1;
    }
    false
}

} // verus!
