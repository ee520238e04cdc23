//! Decisions of an on-demand media thumbnailing service: which decoder a
//! source file gets, which keyframe stands for a video, and how the decoded
//! raster is fitted and normalised before it is encoded.

pub mod cache;
pub mod decode;
pub mod error;
pub mod frame;
pub mod key;
pub mod raster;
pub mod render;
pub mod scan;
pub mod score;
pub mod selector;
pub mod size;
pub mod text;
