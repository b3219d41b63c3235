//! Verified core of a JPEG XL colour pipeline: planning of HDR to SDR tone
//! mapping, exact derivation of luminance weights and colour-space matrices,
//! pixel-format arithmetic and the container box format.

mod arith;
pub mod binary32;
pub mod cms;
pub mod color;
pub mod container;
pub mod conversions;
pub mod decoder;
pub mod error;
pub mod luminance;
pub mod matrix;
pub mod metadata;
pub mod signature;
pub mod tone_mapping;
pub mod tool;
pub mod types;
pub mod version;
