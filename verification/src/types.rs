//! Plain descriptions of images, pixel layouts and colour encodings.

use vstd::prelude::*;

verus! {

/// Status codes returned by decoder operations.
#[derive(Debug, Clone, Copy, PartialEq, Eq, Structural)]
pub enum JxlStatus {
    Success,
    Error,
    NeedMoreInput,
    InvalidArgument,
    BufferTooSmall,
    InvalidState,
}

/// Sample storage of an output buffer.
#[derive(Debug, Clone, Copy, PartialEq, Eq, Structural)]
pub enum JxlDataFormat {
    Uint8,
    Uint16,
    Float16,
    Float32,
}

/// Channel layout of the colour samples of a pixel.
#[derive(Debug, Clone, Copy, PartialEq, Eq, Structural)]
pub enum JxlColorType {
    Rgba,
    Grayscale,
    GrayscaleAlpha,
    Rgb,
    Bgr,
    Bgra,
}

/// Byte order of samples wider than one byte.
#[derive(Debug, Clone, Copy, PartialEq, Eq, Structural)]
pub enum JxlEndianness {
    Native,
    LittleEndian,
    BigEndian,
}

/// The layout a caller wants its pixels in.
#[derive(Debug, Clone, Copy, PartialEq, Eq, Structural)]
#[allow(non_snake_case)]
pub struct JxlPixelFormat {
    pub DataFormat: JxlDataFormat,
    pub ColorType: JxlColorType,
    pub Endianness: JxlEndianness,
}

impl Default for JxlPixelFormat {
    fn default() -> (r: Self)
        ensures
            r.DataFormat == JxlDataFormat::Uint8,
            r.ColorType == JxlColorType::Rgba,
            r.Endianness == JxlEndianness::Native,
    {
        JxlPixelFormat {
            DataFormat: JxlDataFormat::Uint8,
            ColorType: JxlColorType::Rgba,
            Endianness: JxlEndianness::Native,
        }
    }
}

/// Image orientation, numbered as EXIF does.
#[derive(Debug, Clone, Copy, PartialEq, Eq, Structural)]
pub enum JxlOrientation {
    Identity,
    FlipHorizontal,
    Rotate180,
    FlipVertical,
    Transpose,
    Rotate90Cw,
    AntiTranspose,
    Rotate90Ccw,
}

/// How eagerly partial image data is rendered.
#[derive(Debug, Clone, Copy, PartialEq, Eq, Structural)]
pub enum JxlProgressiveMode {
    Eager,
    Pass,
    FullFrame,
}

/// What an extra channel carries.
#[derive(Debug, Clone, Copy, PartialEq, Eq, Structural)]
pub enum JxlExtraChannelType {
    Alpha,
    Depth,
    SpotColor,
    SelectionMask,
    Cfa,
    Thermal,
    NonOptional,
    Optional,
    Unknown,
}

/// One extra channel of an image.
#[derive(Debug, Clone, Copy, PartialEq, Eq, Structural)]
#[allow(non_snake_case)]
pub struct JxlExtraChannelInfo {
    pub ChannelType: JxlExtraChannelType,
    pub AlphaAssociated: bool,
}

/// What a step of streaming decoding reports.
#[derive(Debug, Clone, Copy, PartialEq, Eq, Structural)]
pub enum JxlDecoderEvent {
    Error,
    NeedMoreInput,
    HaveBasicInfo,
    HaveFrameHeader,
    NeedOutputBuffer,
    FrameComplete,
    Complete,
}

/// Result of looking at the first bytes of a file.
#[derive(Debug, Clone, Copy, PartialEq, Eq, Structural)]
pub enum JxlSignature {
    NotEnoughBytes,
    Invalid,
    Codestream,
    Container,
}

/// Rendering intent of a colour profile.
#[derive(Debug, Clone, Copy, PartialEq, Eq, Structural)]
pub enum JxlRenderingIntent {
    Perceptual,
    Relative,
    Saturation,
    Absolute,
}

/// Which white point a colour encoding names.
#[derive(Debug, Clone, Copy, PartialEq, Eq, Structural)]
pub enum JxlWhitePointTag {
    D65,
    E,
    Dci,
    Chromaticity,
}

/// Which primaries a colour encoding names.
#[derive(Debug, Clone, Copy, PartialEq, Eq, Structural)]
pub enum JxlPrimariesTag {
    Srgb,
    Bt2100,
    P3,
    Chromaticities,
}

/// Which transfer function a colour encoding names.
#[derive(Debug, Clone, Copy, PartialEq, Eq, Structural)]
pub enum JxlTransferFunctionTag {
    Bt709,
    Linear,
    Srgb,
    Pq,
    Dci,
    Hlg,
    Gamma,
}

/// The colour space family of an encoding.
#[derive(Debug, Clone, Copy, PartialEq, Eq, Structural)]
pub enum JxlColorEncodingTag {
    Rgb,
    Grayscale,
    Xyb,
}

/// Whether a profile is an ICC blob or a structured encoding.
#[derive(Debug, Clone, Copy, PartialEq, Eq, Structural)]
pub enum JxlColorProfileTag {
    Icc,
    Simple,
}

} // verus!
