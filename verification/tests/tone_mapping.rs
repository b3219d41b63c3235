use jxl_core::binary32::Binary32;
use jxl_core::color::{JxlColorProfileRaw, JxlPrimariesRaw};
use jxl_core::luminance::Luminances;
use jxl_core::tone_mapping::{
    is_bt2020_compatible, is_whole_pixels, pixel_count, transfer_function, ToneMapConfig,
    ToneMapMethod, ToneMappingLcms2Cms, TransformPlan, TransformStep,
};
use jxl_core::types::{
    JxlColorEncodingTag, JxlColorProfileTag, JxlPrimariesTag, JxlTransferFunctionTag,
};

fn nits(x: f32) -> Binary32 {
    Binary32 { bits: x.to_bits() }
}

const ALL_METHODS: [ToneMapMethod; 5] = [
    ToneMapMethod::Bt2446a,
    ToneMapMethod::Bt2446aLinear,
    ToneMapMethod::Bt2446aPerceptual,
    ToneMapMethod::Rec2408,
    ToneMapMethod::CmsOnly,
];

fn bt2100_pq() -> JxlColorProfileRaw {
    let mut p = JxlColorProfileRaw::default();
    p.Encoding.Primaries = JxlPrimariesRaw { Tag: JxlPrimariesTag::Bt2100, ..p.Encoding.Primaries };
    p.Encoding.TransferFunction.Tag = JxlTransferFunctionTag::Pq;
    p
}

const BT2100: Luminances = Luminances { r: 2627, g: 6780, b: 593, den: 10000 };

#[test]
fn default_targets_are_203_and_255_nits() {
    for m in ALL_METHODS {
        let expect = if m == ToneMapMethod::Rec2408 { 255.0 } else { 203.0 };
        assert_eq!(f32::from_bits(m.default_intensity_target().bits), expect, "{m:?}");
    }
    assert_eq!(ToneMapMethod::default(), ToneMapMethod::Bt2446aPerceptual);
    let cms = ToneMappingLcms2Cms::default();
    assert_eq!(f32::from_bits(cms.desired_intensity_target.bits), 203.0);
    assert_eq!(cms.method, ToneMapMethod::Bt2446aPerceptual);
}

#[test]
fn a_target_that_is_not_positive_means_the_default() {
    for m in ALL_METHODS {
        for x in [0.0, -0.0, -5.0, f32::NAN, f32::NEG_INFINITY] {
            assert_eq!(m.resolve_intensity_target(nits(x)), m.default_intensity_target(), "{x}");
        }
        for x in [1.0, 100.0, 203.0, 1e-30, f32::INFINITY] {
            assert_eq!(m.resolve_intensity_target(nits(x)), nits(x), "{x}");
        }
    }
}

#[test]
fn no_tone_mapping_unless_the_source_is_brighter() {
    let none = TransformPlan { config: None, pq_intensity_target: None };
    for m in ALL_METHODS {
        let cms = ToneMappingLcms2Cms { desired_intensity_target: nits(203.0), method: m };
        for source in [203.0, 100.0, 0.0, -1.0, f32::NAN] {
            assert_eq!(cms.plan(&bt2100_pq(), nits(source)), none, "{m:?} {source}");
        }
        for target in [0.0, -0.0, -203.0, f32::NAN] {
            let off = ToneMappingLcms2Cms { desired_intensity_target: nits(target), method: m };
            assert_eq!(off.plan(&bt2100_pq(), nits(10000.0)), none, "{m:?} {target}");
        }
    }
}

#[test]
fn each_method_gets_its_kernel() {
    let source = nits(10000.0);
    let target = nits(203.0);
    let plan = |m| {
        ToneMappingLcms2Cms { desired_intensity_target: target, method: m }
            .plan(&bt2100_pq(), source)
    };
    assert_eq!(
        plan(ToneMapMethod::Bt2446a).config,
        Some(ToneMapConfig::Bt2446a { source, target, luminances: BT2100 })
    );
    assert_eq!(
        plan(ToneMapMethod::Bt2446aLinear).config,
        Some(ToneMapConfig::Bt2446aLinear { source, target, luminances: BT2100 })
    );
    assert_eq!(
        plan(ToneMapMethod::Bt2446aPerceptual).config,
        Some(ToneMapConfig::Bt2446aPerceptual { source, target })
    );
    assert_eq!(
        plan(ToneMapMethod::Rec2408).config,
        Some(ToneMapConfig::Rec2408 { source, target, luminances: BT2100 })
    );
    assert_eq!(plan(ToneMapMethod::CmsOnly).config, None);
    assert_eq!(plan(ToneMapMethod::CmsOnly).pq_intensity_target, None);
}

#[test]
fn weights_come_from_the_profile() {
    let cms = ToneMappingLcms2Cms {
        desired_intensity_target: nits(203.0),
        method: ToneMapMethod::Rec2408,
    };
    let srgb = JxlColorProfileRaw::default();
    let plan = cms.plan(&srgb, nits(1000.0));
    assert_eq!(
        plan.config,
        Some(ToneMapConfig::Rec2408 {
            source: nits(1000.0),
            target: nits(203.0),
            luminances: Luminances { r: 2126, g: 7152, b: 722, den: 10000 },
        })
    );
    assert_eq!(plan.pq_intensity_target, None);
}

#[test]
fn pq_samples_are_decoded_first() {
    let cms = ToneMappingLcms2Cms {
        desired_intensity_target: nits(203.0),
        method: ToneMapMethod::Bt2446a,
    };
    let plan = cms.plan(&bt2100_pq(), nits(4000.0));
    assert_eq!(plan.pq_intensity_target, Some(nits(4000.0)));
    assert!(plan.input_is_linear());
    assert!(plan.needs_working_copy());
    let config = ToneMapConfig::Bt2446a { source: nits(4000.0), target: nits(203.0), luminances: BT2100 };
    assert_eq!(
        plan.steps(),
        vec![TransformStep::DecodePq(nits(4000.0)), TransformStep::ToneMap(config)]
    );

    // Other transfer functions, and profiles that name none, need no decode.
    for tag in [
        JxlTransferFunctionTag::Linear,
        JxlTransferFunctionTag::Srgb,
        JxlTransferFunctionTag::Hlg,
        JxlTransferFunctionTag::Bt709,
        JxlTransferFunctionTag::Dci,
        JxlTransferFunctionTag::Gamma,
    ] {
        let mut p = bt2100_pq();
        p.Encoding.TransferFunction.Tag = tag;
        let plan = cms.plan(&p, nits(4000.0));
        assert_eq!(plan.pq_intensity_target, None, "{tag:?}");
        assert!(!plan.input_is_linear());
        assert_eq!(plan.steps(), vec![TransformStep::ToneMap(config)]);
    }
    let mut xyb = bt2100_pq();
    xyb.Encoding.Tag = JxlColorEncodingTag::Xyb;
    assert_eq!(cms.plan(&xyb, nits(4000.0)).pq_intensity_target, None);
    let mut icc = bt2100_pq();
    icc.Tag = JxlColorProfileTag::Icc;
    assert_eq!(cms.plan(&icc, nits(4000.0)).pq_intensity_target, None);
    let mut gray = bt2100_pq();
    gray.Encoding.Tag = JxlColorEncodingTag::Grayscale;
    assert_eq!(cms.plan(&gray, nits(4000.0)).pq_intensity_target, Some(nits(4000.0)));

    // Without tone mapping there is no decode either.
    let skip = cms.plan(&bt2100_pq(), nits(100.0));
    assert!(!skip.needs_working_copy());
    assert!(skip.steps().is_empty());
}

#[test]
fn transfer_function_is_known_for_rgb_and_gray() {
    let p = bt2100_pq();
    assert_eq!(transfer_function(&p), Some(JxlTransferFunctionTag::Pq));
    let mut gray = p;
    gray.Encoding.Tag = JxlColorEncodingTag::Grayscale;
    assert_eq!(transfer_function(&gray), Some(JxlTransferFunctionTag::Pq));
    let mut xyb = p;
    xyb.Encoding.Tag = JxlColorEncodingTag::Xyb;
    assert_eq!(transfer_function(&xyb), None);
    let mut icc = p;
    icc.Tag = JxlColorProfileTag::Icc;
    assert_eq!(transfer_function(&icc), None);
}

#[test]
fn pixels_are_whole_triples() {
    assert_eq!(pixel_count(0), 0);
    assert_eq!(pixel_count(2), 0);
    assert_eq!(pixel_count(3), 1);
    assert_eq!(pixel_count(11), 3);
    assert_eq!(pixel_count(12), 4);
}

#[test]
fn buffers_of_whole_pixels() {
    for len in [0usize, 3, 6, 300] {
        assert!(is_whole_pixels(len));
    }
    for len in [1usize, 2, 4, 301, usize::MAX - 1] {
        assert!(!is_whole_pixels(len), "{len}");
    }
}

#[test]
fn the_perceptual_method_wants_bt2020_primaries() {
    let bt2100 = bt2100_pq();
    let srgb = JxlColorProfileRaw::default();
    let mut custom = srgb;
    custom.Encoding.Primaries = JxlPrimariesRaw {
        Tag: JxlPrimariesTag::Chromaticities,
        Rx: 708_000,
        Ry: 292_000,
        Gx: 170_000,
        Gy: 797_000,
        Bx: 131_000,
        By: 46_000,
    };
    let mut other = custom;
    other.Encoding.Primaries.By = 46_001;
    let mut display = srgb;
    display.Encoding.Primaries.Tag = JxlPrimariesTag::P3;
    let mut icc = srgb;
    icc.Tag = JxlColorProfileTag::Icc;
    let mut xyb = srgb;
    xyb.Encoding.Tag = JxlColorEncodingTag::Xyb;

    assert!(is_bt2020_compatible(&bt2100));
    assert!(is_bt2020_compatible(&custom));
    assert!(is_bt2020_compatible(&icc));
    assert!(is_bt2020_compatible(&xyb));
    assert!(!is_bt2020_compatible(&srgb));
    assert!(!is_bt2020_compatible(&display));
    assert!(!is_bt2020_compatible(&other));

    for m in ALL_METHODS {
        let cms = ToneMappingLcms2Cms { desired_intensity_target: nits(203.0), method: m };
        assert!(cms.check_profile(&bt2100));
        assert_eq!(cms.check_profile(&srgb), m != ToneMapMethod::Bt2446aPerceptual, "{m:?}");
    }
}
