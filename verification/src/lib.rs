use vstd::prelude::*;

pub mod bytes;
pub mod errors;
pub mod ffprobe;
pub mod ffprobe_json;
pub mod file_copier;
pub mod flag_validator;
pub mod gpu_accel;
pub mod hdr;
pub mod hdr_synthesis;
pub mod hdr_utils;
pub mod hevc_sps;
pub mod image_builders;
pub mod image_formats;
pub mod image_heic_analysis;
pub mod image_quality_detector;
pub mod isobmff;
pub mod path_safety;
pub mod text;

verus! {
}
