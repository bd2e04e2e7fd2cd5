//! Codec level resolution for H.264/AVC, HEVC and AV1.
//!
//! Each codec family has a table of levels in ascending capability. A
//! `LevelSelector` describes a workload (picture size, frame rate, tier,
//! profile, optional bitrate and level bounds) and `select` finds the lowest
//! level of the table that accommodates it.
pub mod av1;
pub mod common;
pub mod h264;
pub mod hevc;
