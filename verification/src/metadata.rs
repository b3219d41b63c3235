//! Payloads of small metadata boxes (EXIF, XMP, JUMBF) built around a text,
//! and the `brob` box that carries another box Brotli-compressed.

use crate::container::{be32, push_be32, Box, BoxView, BOX_TYPE_BROB};
use vstd::prelude::*;
use vstd::string::StringSliceAdditionalSpecFns;

verus! {

/// Everything of the XMP packet that precedes the description text.
pub const XMP_HEAD: &'static str =
    "<?xml version=\"1.0\" encoding=\"UTF-8\"?>\n<x:xmpmeta xmlns:x=\"adobe:ns:meta/\">\n  <rdf:RDF xmlns:rdf=\"http://www.w3.org/1999/02/22-rdf-syntax-ns#\">\n    <rdf:Description rdf:about=\"\">\n      <dc:description xmlns:dc=\"http://purl.org/dc/elements/1.1/\">";

/// Everything of the XMP packet that follows the description text.
pub const XMP_TAIL: &'static str =
    "</dc:description>\n    </rdf:Description>\n  </rdf:RDF>\n</x:xmpmeta>";

/// What precedes the text in the JSON content of a JUMBF box.
pub const JSON_HEAD: &'static str = "{\"test\": \"";

/// What follows the text in the JSON content of a JUMBF box.
pub const JSON_TAIL: &'static str = "\"}";

/// Type of the description box inside a JUMBF box.
pub const BOX_TYPE_JUMD: [u8; 4] = [0x6a, 0x75, 0x6d, 0x64];

/// Type of the JSON content box inside a JUMBF box.
pub const BOX_TYPE_JSON: [u8; 4] = [0x6a, 0x73, 0x6f, 0x6e];

/// Offset of the text from the TIFF header when it does not fit the entry:
/// header, entry count, one entry, next-directory offset.
pub const EXIF_VALUE_OFFSET: u32 = 26;

/// The two bytes of `n` in little-endian order.
pub open spec fn le16(n: int) -> Seq<u8> {
    seq![(n % 0x100) as u8, ((n / 0x100) % 0x100) as u8]
}

/// The four bytes of `n` in little-endian order.
pub open spec fn le32(n: int) -> Seq<u8> {
    seq![
        (n % 0x100) as u8,
        ((n / 0x100) % 0x100) as u8,
        ((n / 0x1_0000) % 0x100) as u8,
        ((n / 0x100_0000) % 0x100) as u8,
    ]
}

/// `n` zero bytes.
pub open spec fn zeros(n: int) -> Seq<u8> {
    Seq::new(n as nat, |i: int| 0u8)
}

/// The part of an EXIF payload that does not depend on how long the text
/// is: a zero TIFF offset, the little-endian TIFF header with its first
/// directory at 8, and one ASCII entry, ImageDescription, of `count` bytes.
pub open spec fn exif_head(count: int) -> Seq<u8> {
    seq![0u8, 0, 0, 0, 0x49, 0x49] + le16(42) + le32(8) + le16(1) + le16(0x010e) + le16(2) + le32(
        count,
    )
}

/// A minimal EXIF payload that describes the image by `content`. The text
/// is stored with a terminating zero: inside the entry where that takes at
/// most four bytes, else after the directory.
pub open spec fn exif_spec(content: Seq<u8>) -> Seq<u8> {
    let count = content.len() as int + 1;
    if count <= 4 {
        exif_head(count) + content + zeros(4 - content.len()) + le32(0)
    } else {
        exif_head(count) + le32(EXIF_VALUE_OFFSET as int) + le32(0) + content + seq![0u8]
    }
}

/// A minimal XMP packet whose description is `content`.
pub open spec fn xmp_spec(content: Seq<u8>) -> Seq<u8> {
    XMP_HEAD.spec_bytes() + content + XMP_TAIL.spec_bytes()
}

/// Payload of the description box of a JUMBF box labelled `content`: a zero
/// UUID, the toggle byte 3 (requestable), the label and a zero.
pub open spec fn jumd_payload(content: Seq<u8>) -> Seq<u8> {
    zeros(16) + seq![0x03u8] + content + seq![0u8]
}

/// Payload of the JSON box of a JUMBF box whose text is `content`.
pub open spec fn json_payload(content: Seq<u8>) -> Seq<u8> {
    JSON_HEAD.spec_bytes() + content + JSON_TAIL.spec_bytes()
}

/// A minimal JUMBF payload: a description box, then a JSON box.
pub open spec fn jumbf_spec(content: Seq<u8>) -> Seq<u8> {
    be32(8 + jumd_payload(content).len() as int) + BOX_TYPE_JUMD@ + jumd_payload(content) + be32(
        8 + json_payload(content).len() as int,
    ) + BOX_TYPE_JSON@ + json_payload(content)
}

fn push_le16(out: &mut Vec<u8>, n: u16)
    ensures
        final(out)@ == old(out)@ + le16(n as int),
{
    out.push((n % 0x100) as u8);
    out.push((n / 0x100) as u8);
    assert(out@ =~= old(out)@ + le16(n as int));
}

fn push_le32(out: &mut Vec<u8>, n: u32)
    ensures
        final(out)@ == old(out)@ + le32(n as int),
{
    out.push((n % 0x100) as u8);
    out.push(((n / 0x100) % 0x100) as u8);
    out.push(((n / 0x1_0000) % 0x100) as u8);
    out.push((n / 0x100_0000) as u8);
    assert(out@ =~= old(out)@ + le32(n as int));
}

fn push_zeros(out: &mut Vec<u8>, n: usize)
    ensures
        final(out)@ == old(out)@ + zeros(n as int),
{
    let mut i: usize = 0;
    while i < n
        invariant
            i <= n,
            out@ == old(out)@ + zeros(i as int),
        decreases n - i,
    {
        out.push(0);
        i = i + 1;
        assert(out@ =~= old(out)@ + zeros(i as int));
    }
}

/// Builds a minimal EXIF payload around `content`.
pub fn create_minimal_exif(content: &str) -> (r: Vec<u8>)
    requires
        content.spec_bytes().len() < 0xffff_ffff,
    ensures
        r@ == exif_spec(content.spec_bytes()),
{
    let content_bytes: &[u8] = content.as_bytes();
    let content_len: usize = content_bytes.len();
    let count: u32 = content_len as u32 + 1;
    let mut data: Vec<u8> = Vec::new();
    push_zeros(&mut data, 4);
    data.push(0x49);
    data.push(0x49);
    push_le16(&mut data, 42);
    push_le32(&mut data, 8);
    push_le16(&mut data, 1);
    push_le16(&mut data, 0x010e);
    push_le16(&mut data, 2);
    push_le32(&mut data, count);
    assert(data@ =~= exif_head(count as int)) by {
        assert(zeros(4) =~= seq![0u8, 0, 0, 0]);
    }
    if count <= 4 {
        data.extend_from_slice(content_bytes);
        push_zeros(&mut data, 4 - content_len);
    } else {
        push_le32(&mut data, EXIF_VALUE_OFFSET);
    }
    push_le32(&mut data, 0);
    if count > 4 {
        data.extend_from_slice(content_bytes);
        data.push(0);
    }
    assert(data@ =~= exif_spec(content.spec_bytes()));
    data
}

/// Builds a minimal XMP packet around `content`.
pub fn create_minimal_xmp(content: &str) -> (r: Vec<u8>)
    ensures
        r@ == xmp_spec(content.spec_bytes()),
{
    let mut data: Vec<u8> = Vec::new();
    data.extend_from_slice(XMP_HEAD.as_bytes());
    data.extend_from_slice(content.as_bytes());
    data.extend_from_slice(XMP_TAIL.as_bytes());
    assert(data@ =~= xmp_spec(content.spec_bytes()));
    data
}

/// Builds a minimal JUMBF payload around `content`.
pub fn create_minimal_jumbf(content: &str) -> (r: Vec<u8>)
    requires
        8 + json_payload(content.spec_bytes()).len() <= 0xffff_ffff,
        8 + jumd_payload(content.spec_bytes()).len() <= 0xffff_ffff,
    ensures
        r@ == jumbf_spec(content.spec_bytes()),
{
    let label: &[u8] = content.as_bytes();
    let mut jumd_data: Vec<u8> = Vec::new();
    push_zeros(&mut jumd_data, 16);
    jumd_data.push(0x03);
    jumd_data.extend_from_slice(label);
    jumd_data.push(0);
    assert(jumd_data@ =~= jumd_payload(content.spec_bytes()));

    let mut json: Vec<u8> = Vec::new();
    json.extend_from_slice(JSON_HEAD.as_bytes());
    json.extend_from_slice(label);
    json.extend_from_slice(JSON_TAIL.as_bytes());
    assert(json@ =~= json_payload(content.spec_bytes()));

    let mut data: Vec<u8> = Vec::new();
    let jumd_len: u32 = (8 + jumd_data.len()) as u32;
    push_be32(&mut data, jumd_len);
    data.extend_from_slice(BOX_TYPE_JUMD.as_slice());
    data.extend_from_slice(jumd_data.as_slice());
    let json_len: u32 = (8 + json.len()) as u32;
    push_be32(&mut data, json_len);
    data.extend_from_slice(BOX_TYPE_JSON.as_slice());
    data.extend_from_slice(json.as_slice());
    assert(data@ =~= jumbf_spec(content.spec_bytes()));
    data
}

/// Runs `brotli::BrotliCompress` with the crate's default parameters over
/// the whole of `data`, reading from a cursor and writing to a vector.
/// Nothing is claimed of the bytes that come back: the encoder weighs its
/// choices with the platform's floating-point logarithm, so they may differ
/// from machine to machine. `None` stands for an error reported by the
/// compressor.
#[verifier::external_body]
fn brotli_compress(data: &[u8]) -> (r: Option<Vec<u8>>) {
    let mut output = Vec::new();
    let params = brotli::enc::BrotliEncoderParams::default();
    match brotli::BrotliCompress(&mut std::io::Cursor::new(data), &mut output, &params) {
        Ok(_) => Some(output),
        Err(_) => None,
    }
}

/// The `brob` box around an already compressed payload: the type of the
/// box that was compressed, then the compressed bytes.
pub fn brob_box(inner_type: &[u8; 4], compressed: &[u8]) -> (r: Box)
    ensures
        r@ == (BoxView { box_type: BOX_TYPE_BROB@, data: inner_type@ + compressed@ }),
{
    let mut content: Vec<u8> = Vec::new();
    content.extend_from_slice(inner_type.as_slice());
    content.extend_from_slice(compressed);
    assert(content@ =~= inner_type@ + compressed@);
    Box::new(BOX_TYPE_BROB, content)
}

/// Compresses `uncompressed_data` and wraps it in a `brob` box that names
/// `inner_type`. `None` only where the compressor reports an error.
pub fn create_brob_box(inner_type: &[u8; 4], uncompressed_data: &[u8]) -> (r: Option<Box>)
    ensures
        r matches Some(b) ==> b@.box_type == BOX_TYPE_BROB@ && b@.data.len() >= 4
            && b@.data.subrange(0, 4) == inner_type@,
{
    match brotli_compress(uncompressed_data) {
        Some(compressed) => {
            let b = brob_box(inner_type, compressed.as_slice());
            assert(b@.data.subrange(0, 4) =~= inner_type@);
            Some(b)
        },
        None => None,
    }
}

} // verus!
