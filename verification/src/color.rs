//! Structured colour encodings: white point, primaries, transfer function
//! and rendering intent, by tag and, where the tag says so, by value.
//!
//! Chromaticity coordinates are held in millionths, the unit in which a
//! JPEG XL codestream stores them.

use crate::binary32::Binary32;
use crate::types::{
    JxlColorEncodingTag, JxlColorProfileTag, JxlPrimariesTag, JxlRenderingIntent,
    JxlTransferFunctionTag, JxlWhitePointTag,
};
use vstd::prelude::*;

verus! {

/// A white point: a tag and, for `Chromaticity`, its coordinates in
/// millionths.
#[derive(Debug, Clone, Copy, PartialEq, Eq, Structural)]
#[allow(non_snake_case)]
pub struct JxlWhitePointRaw {
    pub Tag: JxlWhitePointTag,
    pub Wx: i32,
    pub Wy: i32,
}

/// A set of primaries: a tag and, for `Chromaticities`, the coordinates of
/// red, green and blue in millionths.
#[derive(Debug, Clone, Copy, PartialEq, Eq, Structural)]
#[allow(non_snake_case)]
pub struct JxlPrimariesRaw {
    pub Tag: JxlPrimariesTag,
    pub Rx: i32,
    pub Ry: i32,
    pub Gx: i32,
    pub Gy: i32,
    pub Bx: i32,
    pub By: i32,
}

/// A transfer function: a tag and, for `Gamma`, the exponent.
#[derive(Debug, Clone, Copy, PartialEq, Eq, Structural)]
#[allow(non_snake_case)]
pub struct JxlTransferFunctionRaw {
    pub Tag: JxlTransferFunctionTag,
    pub Gamma: Binary32,
}

/// A structured colour encoding.
#[derive(Debug, Clone, Copy, PartialEq, Eq, Structural)]
#[allow(non_snake_case)]
pub struct JxlColorEncodingRaw {
    pub Tag: JxlColorEncodingTag,
    pub WhitePoint: JxlWhitePointRaw,
    pub Primaries: JxlPrimariesRaw,
    pub TransferFunction: JxlTransferFunctionRaw,
    pub RenderingIntent: JxlRenderingIntent,
}

/// A colour profile: an ICC blob of `IccLength` bytes held elsewhere, or a
/// structured encoding.
#[derive(Debug, Clone, Copy, PartialEq, Eq, Structural)]
#[allow(non_snake_case)]
pub struct JxlColorProfileRaw {
    pub Tag: JxlColorProfileTag,
    pub IccLength: usize,
    pub Encoding: JxlColorEncodingRaw,
}

/// The encoding that stands where none is given: sRGB with the D65 white
/// point and perceptual intent; coordinates and exponent are zero.
pub open spec fn default_encoding() -> JxlColorEncodingRaw {
    JxlColorEncodingRaw {
        Tag: JxlColorEncodingTag::Rgb,
        WhitePoint: JxlWhitePointRaw { Tag: JxlWhitePointTag::D65, Wx: 0, Wy: 0 },
        Primaries: JxlPrimariesRaw {
            Tag: JxlPrimariesTag::Srgb,
            Rx: 0,
            Ry: 0,
            Gx: 0,
            Gy: 0,
            Bx: 0,
            By: 0,
        },
        TransferFunction: JxlTransferFunctionRaw {
            Tag: JxlTransferFunctionTag::Srgb,
            Gamma: Binary32 { bits: 0 },
        },
        RenderingIntent: JxlRenderingIntent::Perceptual,
    }
}

impl Default for JxlWhitePointRaw {
    fn default() -> (r: Self)
        ensures
            r == (JxlWhitePointRaw { Tag: JxlWhitePointTag::D65, Wx: 0, Wy: 0 }),
    {
        JxlWhitePointRaw { Tag: JxlWhitePointTag::D65, Wx: 0, Wy: 0 }
    }
}

impl Default for JxlPrimariesRaw {
    fn default() -> (r: Self)
        ensures
            r == (JxlPrimariesRaw {
                Tag: JxlPrimariesTag::Srgb,
                Rx: 0,
                Ry: 0,
                Gx: 0,
                Gy: 0,
                Bx: 0,
                By: 0,
            }),
    {
        JxlPrimariesRaw { Tag: JxlPrimariesTag::Srgb, Rx: 0, Ry: 0, Gx: 0, Gy: 0, Bx: 0, By: 0 }
    }
}

impl Default for JxlTransferFunctionRaw {
    fn default() -> (r: Self)
        ensures
            r == (JxlTransferFunctionRaw {
                Tag: JxlTransferFunctionTag::Srgb,
                Gamma: Binary32 { bits: 0 },
            }),
    {
        JxlTransferFunctionRaw { Tag: JxlTransferFunctionTag::Srgb, Gamma: Binary32 { bits: 0 } }
    }
}

impl Default for JxlColorEncodingRaw {
    fn default() -> (r: Self)
        ensures
            r == default_encoding(),
    {
        JxlColorEncodingRaw {
            Tag: JxlColorEncodingTag::Rgb,
            WhitePoint: JxlWhitePointRaw::default(),
            Primaries: JxlPrimariesRaw::default(),
            TransferFunction: JxlTransferFunctionRaw::default(),
            RenderingIntent: JxlRenderingIntent::Perceptual,
        }
    }
}

impl Default for JxlColorProfileRaw {
    fn default() -> (r: Self)
        ensures
            r == (JxlColorProfileRaw {
                Tag: JxlColorProfileTag::Simple,
                IccLength: 0,
                Encoding: default_encoding(),
            }),
    {
        JxlColorProfileRaw {
            Tag: JxlColorProfileTag::Simple,
            IccLength: 0,
            Encoding: JxlColorEncodingRaw::default(),
        }
    }
}

} // verus!
