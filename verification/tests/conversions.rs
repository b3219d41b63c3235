use jxl_core::binary32::Binary32;
use jxl_core::conversions::{
    bytes_per_sample, calculate_buffer_size, calculate_bytes_per_row,
    calculate_extra_channel_buffer_size, convert_data_format, convert_options_to_upstream,
    convert_to_jxl_pixel_format, samples_per_pixel, JxlBasicInfoRaw, JxlDecodeOptions,
    UpstreamDataFormat,
};
use jxl_core::types::{
    JxlColorType, JxlDataFormat, JxlEndianness, JxlExtraChannelInfo, JxlExtraChannelType,
    JxlOrientation, JxlPixelFormat, JxlProgressiveMode,
};

fn rgba_u8() -> JxlPixelFormat {
    JxlPixelFormat {
        ColorType: JxlColorType::Rgba,
        DataFormat: JxlDataFormat::Uint8,
        Endianness: JxlEndianness::Native,
    }
}

fn rgb_u8() -> JxlPixelFormat {
    JxlPixelFormat {
        ColorType: JxlColorType::Rgb,
        DataFormat: JxlDataFormat::Uint8,
        Endianness: JxlEndianness::Native,
    }
}

fn one_alpha() -> Vec<JxlExtraChannelInfo> {
    vec![JxlExtraChannelInfo { ChannelType: JxlExtraChannelType::Alpha, AlphaAssociated: false }]
}

#[test]
fn decoder_tests_test_convert_to_jxl_pixel_format_rgba_with_alpha() {
    let format = rgba_u8();
    let extra_channels = one_alpha();

    // When using RGBA with alpha as extra channel, alpha should be None
    // (alpha is already in the RGBA color output)
    let pixel_format = convert_to_jxl_pixel_format(&format, &extra_channels, false);

    assert_eq!(pixel_format.extra_channel_format.len(), 1);
    assert!(
        pixel_format.extra_channel_format[0].is_none(),
        "Alpha should be None when using RGBA"
    );
}

#[test]
fn decoder_tests_test_convert_to_jxl_pixel_format_rgb_with_alpha() {
    let format = rgb_u8();
    let extra_channels = one_alpha();

    // When using RGB (no alpha in color), alpha should be Some
    // (alpha needs to go to a separate buffer)
    let pixel_format = convert_to_jxl_pixel_format(&format, &extra_channels, false);

    assert_eq!(pixel_format.extra_channel_format.len(), 1);
    assert!(
        pixel_format.extra_channel_format[0].is_some(),
        "Alpha should be Some when using RGB"
    );
}

#[test]
fn decoder_test_convert_to_jxl_pixel_format_rgba_with_alpha() {
    let format = rgba_u8();
    let extra_channels = one_alpha();

    let pixel_format = convert_to_jxl_pixel_format(&format, &extra_channels, false);

    assert_eq!(pixel_format.extra_channel_format.len(), 1);
    assert!(
        pixel_format.extra_channel_format[0].is_none(),
        "Alpha should be None when using RGBA"
    );
}

#[test]
fn decoder_test_convert_to_jxl_pixel_format_rgb_with_alpha() {
    let format = rgb_u8();
    let extra_channels = one_alpha();

    let pixel_format = convert_to_jxl_pixel_format(&format, &extra_channels, false);

    assert_eq!(pixel_format.extra_channel_format.len(), 1);
    assert!(
        pixel_format.extra_channel_format[0].is_some(),
        "Alpha should be Some when using RGB"
    );
}

#[test]
fn only_the_first_alpha_channel_is_left_out() {
    let channel = |t| JxlExtraChannelInfo { ChannelType: t, AlphaAssociated: false };
    let extra = vec![
        channel(JxlExtraChannelType::Depth),
        channel(JxlExtraChannelType::Alpha),
        channel(JxlExtraChannelType::Alpha),
        channel(JxlExtraChannelType::SpotColor),
    ];
    let format = JxlPixelFormat {
        ColorType: JxlColorType::GrayscaleAlpha,
        DataFormat: JxlDataFormat::Uint16,
        Endianness: JxlEndianness::BigEndian,
    };
    let wanted =
        Some(UpstreamDataFormat::U16 { endianness: JxlEndianness::BigEndian, bit_depth: 16 });
    let pf = convert_to_jxl_pixel_format(&format, &extra, false);
    assert_eq!(pf.color_type, JxlColorType::GrayscaleAlpha);
    assert_eq!(pf.color_data_format, wanted);
    assert_eq!(pf.extra_channel_format, vec![wanted, None, wanted, wanted]);

    let skipped = convert_to_jxl_pixel_format(&format, &extra, true);
    assert_eq!(skipped.extra_channel_format, vec![None; 4]);
    assert_eq!(skipped.color_data_format, wanted);

    let bgr = JxlPixelFormat { ColorType: JxlColorType::Bgr, ..format };
    let all = convert_to_jxl_pixel_format(&bgr, &extra, false);
    assert_eq!(all.extra_channel_format, vec![wanted; 4]);

    let none = convert_to_jxl_pixel_format(&format, &[], false);
    assert!(none.extra_channel_format.is_empty());
}

#[test]
fn data_formats_carry_depth_and_byte_order() {
    let f = |d, e| JxlPixelFormat { DataFormat: d, ColorType: JxlColorType::Rgb, Endianness: e };
    assert_eq!(
        convert_data_format(&f(JxlDataFormat::Uint8, JxlEndianness::BigEndian)),
        UpstreamDataFormat::U8 { bit_depth: 8 }
    );
    assert_eq!(
        convert_data_format(&f(JxlDataFormat::Uint16, JxlEndianness::LittleEndian)),
        UpstreamDataFormat::U16 { endianness: JxlEndianness::LittleEndian, bit_depth: 16 }
    );
    assert_eq!(
        convert_data_format(&f(JxlDataFormat::Float16, JxlEndianness::Native)),
        UpstreamDataFormat::F16 { endianness: JxlEndianness::Native }
    );
    assert_eq!(
        convert_data_format(&f(JxlDataFormat::Float32, JxlEndianness::BigEndian)),
        UpstreamDataFormat::Float32 { endianness: JxlEndianness::BigEndian }
    );
}

#[test]
fn sample_and_pixel_sizes() {
    assert_eq!(bytes_per_sample(JxlDataFormat::Uint8), 1);
    assert_eq!(bytes_per_sample(JxlDataFormat::Uint16), 2);
    assert_eq!(bytes_per_sample(JxlDataFormat::Float16), 2);
    assert_eq!(bytes_per_sample(JxlDataFormat::Float32), 4);
    assert_eq!(samples_per_pixel(JxlColorType::Grayscale), 1);
    assert_eq!(samples_per_pixel(JxlColorType::GrayscaleAlpha), 2);
    assert_eq!(samples_per_pixel(JxlColorType::Rgb), 3);
    assert_eq!(samples_per_pixel(JxlColorType::Bgr), 3);
    assert_eq!(samples_per_pixel(JxlColorType::Rgba), 4);
    assert_eq!(samples_per_pixel(JxlColorType::Bgra), 4);
}

#[test]
fn buffer_sizes_are_products() {
    let info = JxlBasicInfoRaw { Width: 640, Height: 480, ..JxlBasicInfoRaw::default() };
    let f = JxlPixelFormat {
        DataFormat: JxlDataFormat::Float32,
        ColorType: JxlColorType::Rgb,
        Endianness: JxlEndianness::Native,
    };
    assert_eq!(calculate_bytes_per_row(&info, &f), Some(640 * 3 * 4));
    assert_eq!(calculate_buffer_size(&info, &f), Some(640 * 3 * 4 * 480));
    assert_eq!(calculate_extra_channel_buffer_size(&info, &f), Some(640 * 480 * 4));
    assert_eq!(calculate_buffer_size(&info, &rgba_u8()), Some(640 * 4 * 480));

    let empty = JxlBasicInfoRaw { Width: 0, Height: 480, ..JxlBasicInfoRaw::default() };
    assert_eq!(calculate_bytes_per_row(&empty, &f), Some(0));
    assert_eq!(calculate_buffer_size(&empty, &f), Some(0));
}

#[test]
fn buffer_sizes_beyond_the_word_are_refused() {
    let huge =
        JxlBasicInfoRaw { Width: u32::MAX, Height: u32::MAX, ..JxlBasicInfoRaw::default() };
    let f = JxlPixelFormat {
        DataFormat: JxlDataFormat::Float32,
        ColorType: JxlColorType::Rgba,
        Endianness: JxlEndianness::Native,
    };
    let row = u32::MAX as u128 * 16;
    let expected_row = if row <= usize::MAX as u128 { Some(row as usize) } else { None };
    assert_eq!(calculate_bytes_per_row(&huge, &f), expected_row);
    // 16 * (2^32 - 1)^2 exceeds 2^64
    assert_eq!(calculate_buffer_size(&huge, &f), None);
    let flat = JxlBasicInfoRaw { Height: 0, ..huge };
    assert_eq!(calculate_buffer_size(&flat, &f), Some(0));
}

#[test]
fn default_info_and_options() {
    let info = JxlBasicInfoRaw::default();
    assert_eq!(info.BitsPerSample, 8);
    assert_eq!(info.NumColorChannels, 3);
    assert_eq!(info.Orientation, JxlOrientation::Identity);
    assert_eq!(f32::from_bits(info.ToneMapping.IntensityTarget.bits), 255.0);
    assert_eq!(f32::from_bits(info.ToneMapping.MinNits.bits), 0.0);
    let options = JxlDecodeOptions::default();
    assert_eq!(options.PixelLimit, 0);
    assert_eq!(f32::from_bits(options.DesiredIntensityTarget.bits), 0.0);
    assert_eq!(options.ProgressiveMode, JxlProgressiveMode::Pass);
    assert!(options.AdjustOrientation && options.RenderSpotColors && options.Coalescing);
    assert!(options.SkipPreview && options.EnableOutput);
    assert!(!options.HighPrecision && !options.PremultiplyAlpha && !options.DecodeExtraChannels);
    assert_eq!(options.PixelFormat, JxlPixelFormat::default());
    assert_eq!(JxlPixelFormat::default(), rgba_u8());
}

#[test]
fn options_without_a_positive_value_mean_none() {
    let defaults = convert_options_to_upstream(&JxlDecodeOptions::default());
    assert_eq!(defaults.desired_intensity_target, None);
    assert_eq!(defaults.pixel_limit, None);
    assert!(defaults.adjust_orientation && defaults.coalescing && defaults.skip_preview);
    assert!(!defaults.premultiply_output);
    assert_eq!(defaults.progressive_mode, JxlProgressiveMode::Pass);

    let nits = |x: f32| Binary32 { bits: x.to_bits() };
    let set = JxlDecodeOptions {
        PixelLimit: 1 << 20,
        DesiredIntensityTarget: nits(203.0),
        ProgressiveMode: JxlProgressiveMode::Eager,
        PremultiplyAlpha: true,
        AdjustOrientation: false,
        ..JxlDecodeOptions::default()
    };
    let up = convert_options_to_upstream(&set);
    assert_eq!(up.desired_intensity_target, Some(nits(203.0)));
    assert_eq!(up.pixel_limit, Some(1 << 20));
    assert_eq!(up.progressive_mode, JxlProgressiveMode::Eager);
    assert!(up.premultiply_output && !up.adjust_orientation);

    for x in [0.0, -0.0, -1.0, f32::NAN, f32::NEG_INFINITY] {
        let o = JxlDecodeOptions { DesiredIntensityTarget: nits(x), ..set };
        assert_eq!(convert_options_to_upstream(&o).desired_intensity_target, None, "{x}");
    }
}
