//! What a colour management backend is asked to do: the sample layout and
//! the rendering intent of a transform, and the checks on the buffers that
//! a transform is given.

use crate::color::JxlColorProfileRaw;
use crate::container::be32_at;
use crate::types::{JxlColorProfileTag, JxlRenderingIntent};
use vstd::prelude::*;

verus! {

/// Offset of the rendering intent in the header of an ICC profile.
pub const ICC_INTENT_OFFSET: usize = 64;

/// Layout of the floating-point samples of a pixel in a transform.
#[derive(Debug, Clone, Copy, PartialEq, Eq, Structural)]
pub enum CmsPixelFormat {
    Gray,
    Rgb,
    Cmyk,
}

/// Why a transform cannot be set up or run.
#[derive(Debug, Clone, Copy, PartialEq, Eq, Structural)]
pub enum CmsError {
    /// No sample layout has this many channels.
    UnsupportedChannelCount { channels: usize },
    /// The input does not hold a whole number of pixels.
    InputNotDivisible { length: usize, channels: usize },
    /// The output cannot hold `pixels` pixels of `channels` samples.
    OutputTooSmall { pixels: usize, channels: usize, length: usize },
    /// A transform in place needs as many channels out as in.
    ChannelCountMismatch,
}

/// The layout that goes with a channel count.
pub open spec fn pixel_format_spec(channels: usize) -> Result<CmsPixelFormat, CmsError> {
    if channels == 1 {
        Ok(CmsPixelFormat::Gray)
    } else if channels == 3 {
        Ok(CmsPixelFormat::Rgb)
    } else if channels == 4 {
        Ok(CmsPixelFormat::Cmyk)
    } else {
        Err(CmsError::UnsupportedChannelCount { channels })
    }
}

/// The rendering intent that an ICC header value stands for; values that
/// name none stand for relative colorimetric.
pub open spec fn intent_of_code(code: int) -> JxlRenderingIntent {
    if code == 0 {
        JxlRenderingIntent::Perceptual
    } else if code == 2 {
        JxlRenderingIntent::Saturation
    } else if code == 3 {
        JxlRenderingIntent::Absolute
    } else {
        JxlRenderingIntent::Relative
    }
}

/// The rendering intent of a profile: that of its encoding where it is
/// structured; for an ICC profile the big-endian number at bytes 64 to 67
/// of its header, and relative colorimetric where the profile is too short
/// to have one.
pub open spec fn intent_spec(profile: JxlColorProfileRaw, icc: Seq<u8>) -> JxlRenderingIntent {
    if profile.Tag == JxlColorProfileTag::Simple {
        profile.Encoding.RenderingIntent
    } else if icc.len() >= 68 {
        intent_of_code(be32_at(icc, 64))
    } else {
        JxlRenderingIntent::Relative
    }
}

/// The outcome of checking the buffers of a transform from `input_len`
/// samples into room for `output_len`: the number of pixels.
pub open spec fn transform_spec(
    input_len: usize,
    output_len: usize,
    input_channels: usize,
    output_channels: usize,
) -> Result<usize, CmsError> {
    if input_len % input_channels != 0 {
        Err(CmsError::InputNotDivisible { length: input_len, channels: input_channels })
    } else if output_len < (input_len / input_channels) * output_channels {
        Err(
            CmsError::OutputTooSmall {
                pixels: input_len / input_channels,
                channels: output_channels,
                length: output_len,
            },
        )
    } else {
        Ok(input_len / input_channels)
    }
}

/// Maps a channel count to the layout of floating-point samples.
pub fn channels_to_pixel_format(channels: usize) -> (r: Result<CmsPixelFormat, CmsError>)
    ensures
        r == pixel_format_spec(channels),
{
    match channels {
        1 => Ok(CmsPixelFormat::Gray),
        3 => Ok(CmsPixelFormat::Rgb),
        4 => Ok(CmsPixelFormat::Cmyk),
        _ => Err(CmsError::UnsupportedChannelCount { channels }),
    }
}

/// Extracts the rendering intent of a colour profile. `icc` holds the
/// bytes of the profile where it is an ICC profile.
pub fn rendering_intent_from_profile(profile: &JxlColorProfileRaw, icc: &[u8]) -> (r:
    JxlRenderingIntent)
    ensures
        r == intent_spec(*profile, icc@),
{
    match profile.Tag {
        JxlColorProfileTag::Simple => profile.Encoding.RenderingIntent,
        JxlColorProfileTag::Icc => {
            if icc.len() >= 68 {
                let b0: u32 = icc[ICC_INTENT_OFFSET] as u32;
                let b1: u32 = icc[ICC_INTENT_OFFSET + 1] as u32;
                let b2: u32 = icc[ICC_INTENT_OFFSET + 2] as u32;
                let b3: u32 = icc[ICC_INTENT_OFFSET + 3] as u32;
                let code: u32 = b0 * 0x100_0000 + b1 * 0x1_0000 + b2 * 0x100 + b3;
                match code {
                    0 => JxlRenderingIntent::Perceptual,
                    1 => JxlRenderingIntent::Relative,
                    2 => JxlRenderingIntent::Saturation,
                    3 => JxlRenderingIntent::Absolute,
                    _ => JxlRenderingIntent::Relative,
                }
            } else {
                JxlRenderingIntent::Relative
            }
        },
    }
}

/// Checks the buffers of a transform from one buffer into another and
/// gives the number of pixels to transform.
pub fn check_transform(
    input_len: usize,
    output_len: usize,
    input_channels: usize,
    output_channels: usize,
) -> (r: Result<usize, CmsError>)
    requires
        input_channels > 0,
    ensures
        r == transform_spec(input_len, output_len, input_channels, output_channels),
{
    if input_len % input_channels != 0 {
        return Err(CmsError::InputNotDivisible { length: input_len, channels: input_channels });
    }
    let num_pixels: usize = input_len / input_channels;
    let too_small = match num_pixels.checked_mul(output_channels) {
        Some(expected) => output_len < expected,
        None => true,
    };
    if too_small {
        return Err(
            CmsError::OutputTooSmall {
                pixels: num_pixels,
                channels: output_channels,
                length: output_len,
            },
        );
    }
    Ok(num_pixels)
}

/// Checks that a transform can run in place.
pub fn check_transform_inplace(input_channels: usize, output_channels: usize) -> (r: Result<
    (),
    CmsError,
>)
    ensures
        r.is_ok() == (input_channels == output_channels),
        r.is_err() ==> r == Err::<(), CmsError>(CmsError::ChannelCountMismatch),
{
    if input_channels != output_channels {
        Err(CmsError::ChannelCountMismatch)
    } else {
        Ok(())
    }
}

} // verus!
