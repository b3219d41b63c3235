//! From the caller's description of pixels and options to what the decoder
//! is asked for, and the sizes of the buffers that pixels are read into.

use crate::binary32::{Binary32, NITS_255};
use crate::types::{
    JxlColorType, JxlDataFormat, JxlEndianness, JxlExtraChannelInfo, JxlExtraChannelType,
    JxlOrientation, JxlPixelFormat, JxlProgressiveMode,
};
use vstd::prelude::*;

verus! {

/// Tone mapping information of an image.
#[derive(Debug, Clone, Copy, PartialEq, Eq, Structural)]
#[allow(non_snake_case)]
pub struct JxlToneMapping {
    /// Peak luminance of the content in nits.
    pub IntensityTarget: Binary32,
    /// Lowest luminance of the content in nits.
    pub MinNits: Binary32,
    /// Luminance below which the content is linear.
    pub LinearBelow: Binary32,
    /// `LinearBelow` is a fraction of the display peak, not a luminance.
    pub RelativeToMaxDisplay: bool,
}

/// Basic information about an image.
#[derive(Debug, Clone, Copy, PartialEq, Eq, Structural)]
#[allow(non_snake_case)]
pub struct JxlBasicInfoRaw {
    pub Width: u32,
    pub Height: u32,
    pub BitsPerSample: u32,
    pub ExponentBitsPerSample: u32,
    pub NumColorChannels: u32,
    pub NumExtraChannels: u32,
    pub Animation_TpsNumerator: u32,
    pub Animation_TpsDenominator: u32,
    pub Animation_NumLoops: u32,
    pub Preview_Width: u32,
    pub Preview_Height: u32,
    pub ToneMapping: JxlToneMapping,
    pub Orientation: JxlOrientation,
    pub AlphaPremultiplied: bool,
    pub IsAnimated: bool,
    pub UsesOriginalProfile: bool,
}

/// Header of one frame.
#[derive(Debug, Clone, Copy, PartialEq, Eq, Structural)]
#[allow(non_snake_case)]
pub struct JxlFrameHeader {
    /// How long the frame is shown, in milliseconds.
    pub DurationMs: Binary32,
    pub FrameWidth: u32,
    pub FrameHeight: u32,
    pub NameLength: u32,
}

/// Options of a decoder, as its caller states them.
#[derive(Debug, Clone, Copy, PartialEq, Eq, Structural)]
#[allow(non_snake_case)]
pub struct JxlDecodeOptions {
    /// Largest number of pixels to decode; 0 for no limit.
    pub PixelLimit: usize,
    /// Display luminance to tone-map to, in nits; 0 for none.
    pub DesiredIntensityTarget: Binary32,
    pub ProgressiveMode: JxlProgressiveMode,
    pub AdjustOrientation: bool,
    pub RenderSpotColors: bool,
    pub Coalescing: bool,
    pub SkipPreview: bool,
    pub EnableOutput: bool,
    pub HighPrecision: bool,
    pub PremultiplyAlpha: bool,
    pub DecodeExtraChannels: bool,
    pub PixelFormat: JxlPixelFormat,
}

/// The options that the decoder itself takes.
#[derive(Debug, Clone, Copy, PartialEq, Eq, Structural)]
pub struct UpstreamDecoderOptions {
    pub adjust_orientation: bool,
    pub render_spot_colors: bool,
    pub coalescing: bool,
    pub desired_intensity_target: Option<Binary32>,
    pub skip_preview: bool,
    pub progressive_mode: JxlProgressiveMode,
    pub enable_output: bool,
    pub pixel_limit: Option<usize>,
    pub high_precision: bool,
    pub premultiply_output: bool,
}

/// How the decoder stores one sample.
#[derive(Debug, Clone, Copy, PartialEq, Eq, Structural)]
pub enum UpstreamDataFormat {
    U8 { bit_depth: u8 },
    U16 { endianness: JxlEndianness, bit_depth: u8 },
    F16 { endianness: JxlEndianness },
    Float32 { endianness: JxlEndianness },
}

/// The pixel layout that the decoder is asked for: the colour channels,
/// and for each extra channel its own format, or none where the channel is
/// not wanted as a plane of its own.
#[derive(Debug, Clone)]
pub struct UpstreamPixelFormat {
    pub color_type: JxlColorType,
    pub color_data_format: Option<UpstreamDataFormat>,
    pub extra_channel_format: Vec<Option<UpstreamDataFormat>>,
}

/// Bytes that one sample takes.
pub open spec fn sample_bytes(data_format: JxlDataFormat) -> int {
    match data_format {
        JxlDataFormat::Uint8 => 1,
        JxlDataFormat::Uint16 => 2,
        JxlDataFormat::Float16 => 2,
        JxlDataFormat::Float32 => 4,
    }
}

/// Samples that one pixel has.
pub open spec fn pixel_samples(color_type: JxlColorType) -> int {
    match color_type {
        JxlColorType::Grayscale => 1,
        JxlColorType::GrayscaleAlpha => 2,
        JxlColorType::Rgb => 3,
        JxlColorType::Bgr => 3,
        JxlColorType::Rgba => 4,
        JxlColorType::Bgra => 4,
    }
}

/// Bytes that one row of the image takes.
pub open spec fn row_bytes(info: JxlBasicInfoRaw, pixel_format: JxlPixelFormat) -> int {
    info.Width * pixel_samples(pixel_format.ColorType) * sample_bytes(pixel_format.DataFormat)
}

/// Bytes that the whole image takes.
pub open spec fn image_bytes(info: JxlBasicInfoRaw, pixel_format: JxlPixelFormat) -> int {
    row_bytes(info, pixel_format) * info.Height
}

/// Bytes that one extra channel of the image takes: a single plane.
pub open spec fn plane_bytes(info: JxlBasicInfoRaw, pixel_format: JxlPixelFormat) -> int {
    info.Width * info.Height * sample_bytes(pixel_format.DataFormat)
}

/// The colour samples of a pixel include alpha.
pub open spec fn includes_alpha(color_type: JxlColorType) -> bool {
    color_type == JxlColorType::Rgba || color_type == JxlColorType::Bgra || color_type
        == JxlColorType::GrayscaleAlpha
}

/// The decoder's sample format for a caller's data format and byte order.
pub open spec fn data_format_spec(format: JxlPixelFormat) -> UpstreamDataFormat {
    match format.DataFormat {
        JxlDataFormat::Uint8 => UpstreamDataFormat::U8 { bit_depth: 8 },
        JxlDataFormat::Uint16 => UpstreamDataFormat::U16 {
            endianness: format.Endianness,
            bit_depth: 16,
        },
        JxlDataFormat::Float16 => UpstreamDataFormat::F16 { endianness: format.Endianness },
        JxlDataFormat::Float32 => UpstreamDataFormat::Float32 { endianness: format.Endianness },
    }
}

/// Channel `i` is the first alpha channel among the extra channels.
pub open spec fn first_alpha(extra_channels: Seq<JxlExtraChannelInfo>, i: int) -> bool {
    &&& 0 <= i < extra_channels.len()
    &&& extra_channels[i].ChannelType == JxlExtraChannelType::Alpha
    &&& forall|j: int| 0 <= j < i ==> extra_channels[j].ChannelType != JxlExtraChannelType::Alpha
}

/// The format in which extra channel `i` is asked for: none where extra
/// channels are skipped, and none for the first alpha channel where the
/// colour samples already carry alpha.
pub open spec fn extra_format_spec(
    format: JxlPixelFormat,
    extra_channels: Seq<JxlExtraChannelInfo>,
    skip_extra_channels: bool,
    i: int,
) -> Option<UpstreamDataFormat> {
    if skip_extra_channels || (includes_alpha(format.ColorType) && first_alpha(
        extra_channels,
        i,
    )) {
        None
    } else {
        Some(data_format_spec(format))
    }
}

/// The decoder options that a caller's options stand for.
pub open spec fn options_spec(c_options: JxlDecodeOptions) -> UpstreamDecoderOptions {
    UpstreamDecoderOptions {
        adjust_orientation: c_options.AdjustOrientation,
        render_spot_colors: c_options.RenderSpotColors,
        coalescing: c_options.Coalescing,
        desired_intensity_target: if c_options.DesiredIntensityTarget.positive() {
            Some(c_options.DesiredIntensityTarget)
        } else {
            None
        },
        skip_preview: c_options.SkipPreview,
        progressive_mode: c_options.ProgressiveMode,
        enable_output: c_options.EnableOutput,
        pixel_limit: if c_options.PixelLimit > 0 {
            Some(c_options.PixelLimit)
        } else {
            None
        },
        high_precision: c_options.HighPrecision,
        premultiply_output: c_options.PremultiplyAlpha,
    }
}

/// The options of a decoder whose caller states none.
pub open spec fn default_options() -> JxlDecodeOptions {
    JxlDecodeOptions {
        PixelLimit: 0,
        DesiredIntensityTarget: Binary32 { bits: 0 },
        ProgressiveMode: JxlProgressiveMode::Pass,
        AdjustOrientation: true,
        RenderSpotColors: true,
        Coalescing: true,
        SkipPreview: true,
        EnableOutput: true,
        HighPrecision: false,
        PremultiplyAlpha: false,
        DecodeExtraChannels: false,
        PixelFormat: JxlPixelFormat {
            DataFormat: JxlDataFormat::Uint8,
            ColorType: JxlColorType::Rgba,
            Endianness: JxlEndianness::Native,
        },
    }
}

impl Default for JxlBasicInfoRaw {
    fn default() -> (r: Self)
        ensures
            r == (JxlBasicInfoRaw {
                Width: 0,
                Height: 0,
                BitsPerSample: 8,
                ExponentBitsPerSample: 0,
                NumColorChannels: 3,
                NumExtraChannels: 0,
                Animation_TpsNumerator: 0,
                Animation_TpsDenominator: 0,
                Animation_NumLoops: 0,
                Preview_Width: 0,
                Preview_Height: 0,
                ToneMapping: JxlToneMapping {
                    IntensityTarget: Binary32 { bits: NITS_255 },
                    MinNits: Binary32 { bits: 0 },
                    LinearBelow: Binary32 { bits: 0 },
                    RelativeToMaxDisplay: false,
                },
                Orientation: JxlOrientation::Identity,
                AlphaPremultiplied: false,
                IsAnimated: false,
                UsesOriginalProfile: false,
            }),
    {
        JxlBasicInfoRaw {
            Width: 0,
            Height: 0,
            BitsPerSample: 8,
            ExponentBitsPerSample: 0,
            NumColorChannels: 3,
            NumExtraChannels: 0,
            Animation_TpsNumerator: 0,
            Animation_TpsDenominator: 0,
            Animation_NumLoops: 0,
            Preview_Width: 0,
            Preview_Height: 0,
            ToneMapping: JxlToneMapping {
                IntensityTarget: Binary32 { bits: NITS_255 },
                MinNits: Binary32 { bits: 0 },
                LinearBelow: Binary32 { bits: 0 },
                RelativeToMaxDisplay: false,
            },
            Orientation: JxlOrientation::Identity,
            AlphaPremultiplied: false,
            IsAnimated: false,
            UsesOriginalProfile: false,
        }
    }
}

impl Default for JxlDecodeOptions {
    fn default() -> (r: Self)
        ensures
            r == default_options(),
    {
        JxlDecodeOptions {
            PixelLimit: 0,
            DesiredIntensityTarget: Binary32 { bits: 0 },
            ProgressiveMode: JxlProgressiveMode::Pass,
            AdjustOrientation: true,
            RenderSpotColors: true,
            Coalescing: true,
            SkipPreview: true,
            EnableOutput: true,
            HighPrecision: false,
            PremultiplyAlpha: false,
            DecodeExtraChannels: false,
            PixelFormat: JxlPixelFormat::default(),
        }
    }
}

/// Converts a caller's options to the options of the decoder: a target
/// intensity or a pixel limit that is not positive means none.
pub fn convert_options_to_upstream(c_options: &JxlDecodeOptions) -> (r: UpstreamDecoderOptions)
    ensures
        r == options_spec(*c_options),
{
    UpstreamDecoderOptions {
        adjust_orientation: c_options.AdjustOrientation,
        render_spot_colors: c_options.RenderSpotColors,
        coalescing: c_options.Coalescing,
        desired_intensity_target: if c_options.DesiredIntensityTarget.is_positive() {
            Some(c_options.DesiredIntensityTarget)
        } else {
            None
        },
        skip_preview: c_options.SkipPreview,
        progressive_mode: c_options.ProgressiveMode,
        enable_output: c_options.EnableOutput,
        pixel_limit: if c_options.PixelLimit > 0 {
            Some(c_options.PixelLimit)
        } else {
            None
        },
        high_precision: c_options.HighPrecision,
        premultiply_output: c_options.PremultiplyAlpha,
    }
}

/// Calculates bytes per sample based on data format.
pub fn bytes_per_sample(data_format: JxlDataFormat) -> (r: usize)
    ensures
        r == sample_bytes(data_format),
{
    match data_format {
        JxlDataFormat::Uint8 => 1,
        JxlDataFormat::Uint16 | JxlDataFormat::Float16 => 2,
        JxlDataFormat::Float32 => 4,
    }
}

/// Calculates samples per pixel based on color type.
pub fn samples_per_pixel(color_type: JxlColorType) -> (r: usize)
    ensures
        r == pixel_samples(color_type),
{
    match color_type {
        JxlColorType::Grayscale => 1,
        JxlColorType::GrayscaleAlpha => 2,
        JxlColorType::Rgb | JxlColorType::Bgr => 3,
        JxlColorType::Rgba | JxlColorType::Bgra => 4,
    }
}

/// The product of three sizes, where it fits.
fn checked_product(a: usize, b: usize, c: usize) -> (r: Option<usize>)
    ensures
        a * b * c <= usize::MAX ==> r == Some((a * b * c) as usize),
        a * b * c > usize::MAX ==> r.is_none(),
{
    if c == 0 || b == 0 {
        assert(a * b * c == 0) by (nonlinear_arith)
            requires
                c == 0 || b == 0,
        ;
        return Some(0);
    }
    match a.checked_mul(b) {
        Some(ab) => ab.checked_mul(c),
        None => {
            assert(a * b * c >= a * b) by (nonlinear_arith)
                requires
                    c >= 1,
                    a * b >= 0,
            ;
            None
        },
    }
}

/// Calculates the bytes per row for the given image info and pixel
/// format; `None` where that number does not fit the machine's word.
pub fn calculate_bytes_per_row(info: &JxlBasicInfoRaw, pixel_format: &JxlPixelFormat) -> (r:
    Option<usize>)
    ensures
        row_bytes(*info, *pixel_format) <= usize::MAX ==> r == Some(
            row_bytes(*info, *pixel_format) as usize,
        ),
        row_bytes(*info, *pixel_format) > usize::MAX ==> r.is_none(),
{
    let width: usize = info.Width as usize;
    let bps: usize = bytes_per_sample(pixel_format.DataFormat);
    let spp: usize = samples_per_pixel(pixel_format.ColorType);
    checked_product(width, spp, bps)
}

/// Calculates the required buffer size for the given image info and pixel
/// format; `None` where that number does not fit the machine's word.
pub fn calculate_buffer_size(info: &JxlBasicInfoRaw, pixel_format: &JxlPixelFormat) -> (r: Option<
    usize,
>)
    ensures
        image_bytes(*info, *pixel_format) <= usize::MAX ==> r == Some(
            image_bytes(*info, *pixel_format) as usize,
        ),
        image_bytes(*info, *pixel_format) > usize::MAX ==> r.is_none(),
{
    let height: usize = info.Height as usize;
    match calculate_bytes_per_row(info, pixel_format) {
        Some(row) => row.checked_mul(height),
        None => {
            if height == 0 {
                assert(image_bytes(*info, *pixel_format) == 0) by (nonlinear_arith)
                    requires
                        image_bytes(*info, *pixel_format) == row_bytes(*info, *pixel_format)
                            * info.Height,
                        info.Height == 0,
                ;
                Some(0)
            } else {
                assert(image_bytes(*info, *pixel_format) >= row_bytes(*info, *pixel_format))
                    by (nonlinear_arith)
                    requires
                        image_bytes(*info, *pixel_format) == row_bytes(*info, *pixel_format)
                            * info.Height,
                        info.Height >= 1,
                        row_bytes(*info, *pixel_format) >= 0,
                ;
                None
            }
        },
    }
}

/// Calculates the size of the buffer for one extra channel, a single
/// plane in the sample format of the pixel format; `None` where that
/// number does not fit the machine's word.
pub fn calculate_extra_channel_buffer_size(info: &JxlBasicInfoRaw, pixel_format: &JxlPixelFormat)
    -> (r: Option<usize>)
    ensures
        plane_bytes(*info, *pixel_format) <= usize::MAX ==> r == Some(
            plane_bytes(*info, *pixel_format) as usize,
        ),
        plane_bytes(*info, *pixel_format) > usize::MAX ==> r.is_none(),
{
    let width: usize = info.Width as usize;
    let height: usize = info.Height as usize;
    let bps: usize = bytes_per_sample(pixel_format.DataFormat);
    checked_product(width, height, bps)
}

/// The decoder's sample format for a caller's pixel format.
pub fn convert_data_format(format: &JxlPixelFormat) -> (r: UpstreamDataFormat)
    ensures
        r == data_format_spec(*format),
{
    let endianness = format.Endianness;
    match format.DataFormat {
        JxlDataFormat::Uint8 => UpstreamDataFormat::U8 { bit_depth: 8 },
        JxlDataFormat::Uint16 => UpstreamDataFormat::U16 { endianness, bit_depth: 16 },
        JxlDataFormat::Float16 => UpstreamDataFormat::F16 { endianness },
        JxlDataFormat::Float32 => UpstreamDataFormat::Float32 { endianness },
    }
}

/// Converts a caller's pixel format to the layout that the decoder is
/// asked for. Where the colour samples carry alpha, the first alpha
/// channel among the extra channels is not asked for again.
pub fn convert_to_jxl_pixel_format(
    format: &JxlPixelFormat,
    extra_channels: &[JxlExtraChannelInfo],
    skip_extra_channels: bool,
) -> (r: UpstreamPixelFormat)
    ensures
        r.color_type == format.ColorType,
        r.color_data_format == Some(data_format_spec(*format)),
        r.extra_channel_format@.len() == extra_channels@.len(),
        forall|i: int|
            0 <= i < extra_channels@.len() ==> #[trigger] r.extra_channel_format@[i]
                == extra_format_spec(*format, extra_channels@, skip_extra_channels, i),
{
    let data_format = convert_data_format(format);
    let color_includes_alpha = match format.ColorType {
        JxlColorType::Rgba | JxlColorType::Bgra | JxlColorType::GrayscaleAlpha => true,
        _ => false,
    };
    let mut extra_channel_format: Vec<Option<UpstreamDataFormat>> = Vec::new();
    let mut alpha_seen = false;
    let mut i: usize = 0;
    let n: usize = extra_channels.len();
    while i < n
        invariant
            i <= n,
            n == extra_channels@.len(),
            data_format == data_format_spec(*format),
            color_includes_alpha == includes_alpha(format.ColorType),
            extra_channel_format@.len() == i,
            alpha_seen == (exists|j: int|
                0 <= j < i && extra_channels@[j].ChannelType == JxlExtraChannelType::Alpha),
            forall|k: int|
                0 <= k < i ==> #[trigger] extra_channel_format@[k] == extra_format_spec(
                    *format,
                    extra_channels@,
                    skip_extra_channels,
                    k,
                ),
        decreases n - i,
    {
        let is_alpha = match extra_channels[i].ChannelType {
            JxlExtraChannelType::Alpha => true,
            _ => false,
        };
        let value = if skip_extra_channels {
            None
        } else if color_includes_alpha && is_alpha && !alpha_seen {
            None
        } else {
            Some(data_format)
        };
        proof {
            if is_alpha && !alpha_seen {
                assert(first_alpha(extra_channels@, i as int));
            }
            if alpha_seen {
                assert(!first_alpha(extra_channels@, i as int));
            }
        }
        if is_alpha {
            alpha_seen = true;
        }
        extra_channel_format.push(value);
        i = i + 1;
    }
    UpstreamPixelFormat {
        color_type: format.ColorType,
        color_data_format: Some(data_format),
        extra_channel_format,
    }
}

} // verus!
