//! Telling a JPEG XL file from its first bytes.

use crate::container::{codestream_spec, container_spec, JXL_SIGNATURE};
use crate::types::JxlSignature;
use vstd::prelude::*;

verus! {

/// The two bytes that a bare codestream starts with.
pub open spec fn codestream_signature() -> Seq<u8> {
    seq![0xffu8, 0x0a]
}

/// The twelve bytes that a container file starts with.
pub open spec fn container_signature() -> Seq<u8> {
    seq![0x00u8, 0x00, 0x00, 0x0c, 0x4a, 0x58, 0x4c, 0x20, 0x0d, 0x0a, 0x87, 0x0a]
}

/// `data` and `signature` agree as far as the shorter of them goes.
pub open spec fn agrees(data: Seq<u8>, signature: Seq<u8>) -> bool {
    forall|i: int| 0 <= i < data.len() && i < signature.len() ==> data[i] == signature[i]
}

/// What the first bytes of a file say about it. Data that agrees with a
/// signature but ends before it is not enough to tell; that holds of no
/// data at all, too.
pub open spec fn signature_spec(data: Seq<u8>) -> JxlSignature {
    if agrees(data, codestream_signature()) {
        if data.len() >= 2 {
            JxlSignature::Codestream
        } else {
            JxlSignature::NotEnoughBytes
        }
    } else if agrees(data, container_signature()) {
        if data.len() >= 12 {
            JxlSignature::Container
        } else {
            JxlSignature::NotEnoughBytes
        }
    } else {
        JxlSignature::Invalid
    }
}

/// Calls `jxl::api::check_signature` and names its four outcomes. That
/// function compares the data, as far as it goes, first with the two bytes
/// of a codestream and then with the twelve bytes of a container: on
/// agreement it reports the kind where the data holds the whole signature
/// and asks for more input where it does not; with neither it reports that
/// the data is no JPEG XL file.
#[verifier::external_body]
fn check_signature(data: &[u8]) -> (r: JxlSignature)
    ensures
        r == signature_spec(data@),
{
    match jxl::api::check_signature(data) {
        jxl::api::ProcessingResult::Complete {
            result: Some(jxl::api::JxlSignatureType::Codestream),
        } => JxlSignature::Codestream,
        jxl::api::ProcessingResult::Complete {
            result: Some(jxl::api::JxlSignatureType::Container),
        } => JxlSignature::Container,
        jxl::api::ProcessingResult::Complete { result: None } => JxlSignature::Invalid,
        jxl::api::ProcessingResult::NeedsMoreInput { .. } => JxlSignature::NotEnoughBytes,
    }
}

/// Checks whether data starts as a JPEG XL file does.
pub fn jxl_signature_check(data: &[u8]) -> (r: JxlSignature)
    ensures
        r == signature_spec(data@),
{
    if data.len() == 0 {
        return JxlSignature::NotEnoughBytes;
    }
    check_signature(data)
}

/// The check agrees with the two tests on the start of a file: data is
/// told to be a codestream exactly where it starts as a bare codestream
/// does, and a container exactly where it starts with the container
/// signature.
pub proof fn lemma_signature_agrees(data: Seq<u8>)
    ensures
        codestream_spec(data) <==> signature_spec(data) == JxlSignature::Codestream,
        container_spec(data) <==> signature_spec(data) == JxlSignature::Container,
{
    assert(JXL_SIGNATURE@ =~= container_signature());
    if data.len() >= 12 {
        if container_spec(data) {
            assert forall|i: int| 0 <= i < 12 implies data[i] == container_signature()[i] by {
                assert(data.subrange(0, 12)[i] == data[i]);
            }
        }
        if agrees(data, container_signature()) {
            assert(data.subrange(0, 12) =~= container_signature());
        }
    }
    if agrees(data, codestream_signature()) && agrees(data, container_signature())
        && data.len() >= 1 {
        assert(data[0] == codestream_signature()[0]);
        assert(data[0] == container_signature()[0]);
    }
    if data.len() >= 2 {
        assert(codestream_signature()[0] == 0xff && codestream_signature()[1] == 0x0a);
    }
}

} // verus!
