//! The version of the library as one number.

use vstd::prelude::*;

verus! {

/// The number that a version is packed into: the major version in the top
/// byte, then the minor version, then the patch level, and a zero byte.
pub open spec fn packed_version(major: u32, minor: u32, patch: u32) -> u32 {
    (major << 24) | (minor << 16) | (patch << 8)
}

/// Packs a version into one number.
pub fn pack_version(major: u32, minor: u32, patch: u32) -> (r: u32)
    ensures
        r == packed_version(major, minor, patch),
        major < 0x100 && minor < 0x100 && patch < 0x100 ==> r == major * 0x100_0000 + minor
            * 0x1_0000 + patch * 0x100,
{
    let r = (major << 24) | (minor << 16) | (patch << 8);
    assert(major < 0x100 && minor < 0x100 && patch < 0x100 ==> ((major << 24) | (minor << 16) | (
    patch << 8)) == major * 0x100_0000 + minor * 0x1_0000 + patch * 0x100) by (bit_vector);
    r
}

} // verus!
