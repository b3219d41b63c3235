//! Choice of the HDR to SDR tone-mapping method and of what has to happen
//! to a buffer of pixels before it reaches the colour management stage.
//!
//! The kernels themselves compute in floating point and live outside this
//! library. What is decided here is whether one runs at all, which one, on
//! what intensities and weights, and whether the samples must first be
//! decoded from the PQ transfer function.

use crate::binary32::{Binary32, NITS_203, NITS_255};
use crate::color::JxlColorProfileRaw;
use crate::luminance::{luminances_from_profile, profile_spec, Luminances};
use crate::types::{
    JxlColorEncodingTag, JxlColorProfileTag, JxlPrimariesTag, JxlTransferFunctionTag,
};
use vstd::prelude::*;

verus! {

/// Tone mapping algorithm.
#[derive(Debug, Clone, Copy, PartialEq, Eq, Structural)]
pub enum ToneMapMethod {
    /// BT.2446 method A in the Y'CbCr' domain.
    Bt2446a,
    /// The BT.2446a curve applied to linear luminance.
    Bt2446aLinear,
    /// The BT.2446a curve in the IPTPQc4 perceptual space.
    Bt2446aPerceptual,
    /// Rec. 2408 / BT.2390 in the PQ domain, with gamut mapping; its output
    /// is normalised to the target peak.
    Rec2408,
    /// No tone mapping, colour management only.
    CmsOnly,
}

impl Default for ToneMapMethod {
    fn default() -> (r: Self)
        ensures
            r == ToneMapMethod::Bt2446aPerceptual,
    {
        ToneMapMethod::Bt2446aPerceptual
    }
}

impl ToneMapMethod {
    /// The display luminance, in nits, that the method aims at by default:
    /// 255 for `Rec2408`, 203 for every other method.
    pub open spec fn default_target(self) -> Binary32 {
        if self == ToneMapMethod::Rec2408 {
            Binary32 { bits: NITS_255 }
        } else {
            Binary32 { bits: NITS_203 }
        }
    }

    /// The target that is in force where `requested` was configured: the
    /// request itself where it is a positive number, else the default of
    /// the method.
    pub open spec fn effective_target(self, requested: Binary32) -> Binary32 {
        if requested.positive() {
            requested
        } else {
            self.default_target()
        }
    }

    /// Returns the default target display luminance (nits) of this method.
    pub fn default_intensity_target(self) -> (r: Binary32)
        ensures
            r == self.default_target(),
    {
        match self {
            ToneMapMethod::Rec2408 => Binary32 { bits: NITS_255 },
            ToneMapMethod::Bt2446a
            | ToneMapMethod::Bt2446aLinear
            | ToneMapMethod::Bt2446aPerceptual => Binary32 { bits: NITS_203 },
            ToneMapMethod::CmsOnly => Binary32 { bits: NITS_203 },
        }
    }

    /// Resolves a configured target: zero, a negative number or no number
    /// at all stand for the default of the method.
    pub fn resolve_intensity_target(self, requested: Binary32) -> (r: Binary32)
        ensures
            r == self.effective_target(requested),
            r.positive(),
    {
        if requested.is_positive() {
            requested
        } else {
            self.default_intensity_target()
        }
    }
}

/// What a kernel needs to be set up: the peak luminance of the source and
/// of the target in nits, and for the kernels that weigh the channels, the
/// luminance weights of the source primaries.
#[derive(Debug, Clone, Copy, PartialEq, Eq, Structural)]
pub enum ToneMapConfig {
    Bt2446a { source: Binary32, target: Binary32, luminances: Luminances },
    Bt2446aLinear { source: Binary32, target: Binary32, luminances: Luminances },
    Bt2446aPerceptual { source: Binary32, target: Binary32 },
    Rec2408 { source: Binary32, target: Binary32, luminances: Luminances },
}

/// What happens to each buffer on its way to colour management.
#[derive(Debug, Clone, Copy, PartialEq, Eq, Structural)]
pub struct TransformPlan {
    /// The kernel to run, if any.
    pub config: Option<ToneMapConfig>,
    /// Where set, the samples are PQ-encoded and are decoded to linear
    /// light first, 1.0 standing for this many nits; the colour management
    /// stage is then told that its input is linear.
    pub pq_intensity_target: Option<Binary32>,
}

/// One thing done to a buffer of samples.
#[derive(Debug, Clone, Copy, PartialEq, Eq, Structural)]
pub enum TransformStep {
    /// Decode PQ samples to linear light, 1.0 standing for the given nits.
    DecodePq(Binary32),
    /// Run the configured kernel.
    ToneMap(ToneMapConfig),
}

/// A tone mapping front end for a colour management system.
#[derive(Debug, Clone, Copy, PartialEq, Eq, Structural)]
pub struct ToneMappingLcms2Cms {
    /// Target display luminance in nits.
    pub desired_intensity_target: Binary32,
    /// Tone mapping algorithm.
    pub method: ToneMapMethod,
}

impl Default for ToneMappingLcms2Cms {
    fn default() -> (r: Self)
        ensures
            r.desired_intensity_target == (Binary32 { bits: NITS_203 }),
            r.method == ToneMapMethod::Bt2446aPerceptual,
    {
        ToneMappingLcms2Cms {
            desired_intensity_target: Binary32 { bits: NITS_203 },
            method: ToneMapMethod::Bt2446aPerceptual,
        }
    }
}

/// The transfer function of a profile: known for structured RGB and
/// grayscale encodings only.
pub open spec fn transfer_function_spec(profile: JxlColorProfileRaw) -> Option<
    JxlTransferFunctionTag,
> {
    if profile.Tag == JxlColorProfileTag::Simple && (profile.Encoding.Tag
        == JxlColorEncodingTag::Rgb || profile.Encoding.Tag == JxlColorEncodingTag::Grayscale) {
        Some(profile.Encoding.TransferFunction.Tag)
    } else {
        None
    }
}

/// The primaries of a profile are those of BT.2020, as far as the profile
/// tells: a structured RGB encoding must name BT.2100 or give its
/// chromaticities, (0.708, 0.292), (0.170, 0.797) and (0.131, 0.046); of
/// any other profile BT.2020 is assumed, as it is for the luminance weights.
pub open spec fn bt2020_compatible(profile: JxlColorProfileRaw) -> bool {
    if profile.Tag == JxlColorProfileTag::Simple && profile.Encoding.Tag
        == JxlColorEncodingTag::Rgb {
        let p = profile.Encoding.Primaries;
        match p.Tag {
            JxlPrimariesTag::Bt2100 => true,
            JxlPrimariesTag::Chromaticities => p.Rx == 708_000 && p.Ry == 292_000 && p.Gx
                == 170_000 && p.Gy == 797_000 && p.Bx == 131_000 && p.By == 46_000,
            _ => false,
        }
    } else {
        true
    }
}

/// The kernel set-up for a method, a source and a target.
pub open spec fn config_spec(
    method: ToneMapMethod,
    source: Binary32,
    target: Binary32,
    luminances: Luminances,
) -> Option<ToneMapConfig> {
    match method {
        ToneMapMethod::Bt2446a => Some(ToneMapConfig::Bt2446a { source, target, luminances }),
        ToneMapMethod::Bt2446aLinear => Some(
            ToneMapConfig::Bt2446aLinear { source, target, luminances },
        ),
        ToneMapMethod::Bt2446aPerceptual => Some(
            ToneMapConfig::Bt2446aPerceptual { source, target },
        ),
        ToneMapMethod::Rec2408 => Some(ToneMapConfig::Rec2408 { source, target, luminances }),
        ToneMapMethod::CmsOnly => None,
    }
}

impl ToneMappingLcms2Cms {
    /// The configured method can run on images in the profile `input`: the
    /// perceptual method is defined for BT.2020 primaries only.
    pub open spec fn suits(self, input: JxlColorProfileRaw) -> bool {
        self.method == ToneMapMethod::Bt2446aPerceptual ==> bt2020_compatible(input)
    }

    /// Checks, once for a pipeline, that the configured method can run on
    /// images in the profile `input`.
    pub fn check_profile(&self, input: &JxlColorProfileRaw) -> (r: bool)
        ensures
            r == self.suits(*input),
    {
        match self.method {
            ToneMapMethod::Bt2446aPerceptual => is_bt2020_compatible(input),
            _ => true,
        }
    }

    /// Tone mapping applies: the source is brighter than the target, the
    /// target is a positive number, and a method that maps is chosen.
    pub open spec fn applies(self, intensity_target: Binary32) -> bool {
        &&& intensity_target.greater(self.desired_intensity_target)
        &&& self.desired_intensity_target.positive()
        &&& self.method != ToneMapMethod::CmsOnly
    }

    /// The plan for images in the colour profile `input` whose content
    /// peaks at `intensity_target` nits.
    pub open spec fn plan_spec(self, input: JxlColorProfileRaw, intensity_target: Binary32)
        -> TransformPlan {
        if self.applies(intensity_target) {
            TransformPlan {
                config: config_spec(
                    self.method,
                    intensity_target,
                    self.desired_intensity_target,
                    profile_spec(input),
                ),
                pq_intensity_target: if transfer_function_spec(input) == Some(
                    JxlTransferFunctionTag::Pq,
                ) {
                    Some(intensity_target)
                } else {
                    None
                },
            }
        } else {
            TransformPlan { config: None, pq_intensity_target: None }
        }
    }

    /// Decides what is done to the pixels of an image before colour
    /// management: nothing where the source is not brighter than the
    /// target; else the kernel of the configured method, after a PQ decode
    /// where the profile says that the samples are PQ-encoded.
    pub fn plan(&self, input: &JxlColorProfileRaw, intensity_target: Binary32) -> (r:
        TransformPlan)
        ensures
            r == self.plan_spec(*input, intensity_target),
            r.pq_intensity_target.is_some() ==> r.config.is_some(),
    {
        if !(intensity_target.gt(self.desired_intensity_target)
            && self.desired_intensity_target.is_positive()) {
            return TransformPlan { config: None, pq_intensity_target: None };
        }
        let source = intensity_target;
        let target = self.desired_intensity_target;
        let config = match self.method {
            ToneMapMethod::Bt2446a => ToneMapConfig::Bt2446a {
                source,
                target,
                luminances: luminances_from_profile(input),
            },
            ToneMapMethod::Bt2446aLinear => ToneMapConfig::Bt2446aLinear {
                source,
                target,
                luminances: luminances_from_profile(input),
            },
            ToneMapMethod::Bt2446aPerceptual => ToneMapConfig::Bt2446aPerceptual {
                source,
                target,
            },
            ToneMapMethod::Rec2408 => ToneMapConfig::Rec2408 {
                source,
                target,
                luminances: luminances_from_profile(input),
            },
            ToneMapMethod::CmsOnly => {
                return TransformPlan { config: None, pq_intensity_target: None };
            },
        };
        let pq_encoded = match transfer_function(input) {
            Some(JxlTransferFunctionTag::Pq) => true,
            _ => false,
        };
        TransformPlan {
            config: Some(config),
            pq_intensity_target: if pq_encoded {
                Some(intensity_target)
            } else {
                None
            },
        }
    }
}

/// Whether the primaries of a profile are those of BT.2020, as far as the
/// profile tells.
pub fn is_bt2020_compatible(profile: &JxlColorProfileRaw) -> (r: bool)
    ensures
        r == bt2020_compatible(*profile),
{
    match (profile.Tag, profile.Encoding.Tag) {
        (JxlColorProfileTag::Simple, JxlColorEncodingTag::Rgb) => {
            let p = profile.Encoding.Primaries;
            match p.Tag {
                JxlPrimariesTag::Bt2100 => true,
                JxlPrimariesTag::Chromaticities => p.Rx == 708_000 && p.Ry == 292_000 && p.Gx
                    == 170_000 && p.Gy == 797_000 && p.Bx == 131_000 && p.By == 46_000,
                _ => false,
            }
        },
        _ => true,
    }
}

/// The transfer function of a profile, where the profile names one.
pub fn transfer_function(profile: &JxlColorProfileRaw) -> (r: Option<JxlTransferFunctionTag>)
    ensures
        r == transfer_function_spec(*profile),
{
    match (profile.Tag, profile.Encoding.Tag) {
        (JxlColorProfileTag::Simple, JxlColorEncodingTag::Rgb) => Some(
            profile.Encoding.TransferFunction.Tag,
        ),
        (JxlColorProfileTag::Simple, JxlColorEncodingTag::Grayscale) => Some(
            profile.Encoding.TransferFunction.Tag,
        ),
        _ => None,
    }
}

impl TransformPlan {
    /// The steps of the plan in the order in which they run.
    pub open spec fn steps_spec(self) -> Seq<TransformStep> {
        let decode = match self.pq_intensity_target {
            Some(nits) => seq![TransformStep::DecodePq(nits)],
            None => Seq::empty(),
        };
        let map = match self.config {
            Some(config) => seq![TransformStep::ToneMap(config)],
            None => Seq::empty(),
        };
        decode + map
    }

    /// The samples are changed before colour management, so a transform
    /// from one buffer into another first copies them.
    pub fn needs_working_copy(&self) -> (r: bool)
        ensures
            r == (self.steps_spec().len() > 0),
    {
        self.config.is_some() || self.pq_intensity_target.is_some()
    }

    /// The colour management stage is to treat its input as linear light.
    pub fn input_is_linear(&self) -> (r: bool)
        ensures
            r == self.pq_intensity_target.is_some(),
    {
        self.pq_intensity_target.is_some()
    }

    /// What is done to a buffer, in order: the PQ decode, then the kernel.
    pub fn steps(&self) -> (r: Vec<TransformStep>)
        ensures
            r@ == self.steps_spec(),
    {
        let mut out: Vec<TransformStep> = Vec::new();
        if let Some(nits) = self.pq_intensity_target {
            out.push(TransformStep::DecodePq(nits));
        }
        if let Some(config) = self.config {
            out.push(TransformStep::ToneMap(config));
        }
        assert(out@ =~= self.steps_spec());
        out
    }
}

/// How many whole pixels an interleaved RGB buffer of `len` samples holds.
/// A kernel maps those and leaves up to two samples at the end as they are.
pub fn pixel_count(len: usize) -> (r: usize)
    ensures
        r == len / 3,
        3 * r <= len < 3 * r + 3,
{
    len / 3
}

/// Whether a buffer of `len` samples is made of whole RGB pixels.
pub fn is_whole_pixels(len: usize) -> (r: bool)
    ensures
        r == (len % 3 == 0),
        r == (3 * (len / 3) == len),
{
    len % 3 == 0
}

} // verus!
