//! Plain-value description of one off-screen frame that shows a single
//! triangle: how the frame lies in memory, where the triangle stands on it,
//! and how the bytes read back from the device become a PNG file.
//!
//! Nothing here touches a device. The caller allocates, submits and reads
//! back; this crate says with which sizes and in which order, and judges the
//! bytes that come back.

pub mod color;
pub mod commands;
pub mod coverage;
pub mod frame;
pub mod geometry;
pub mod inspect;
pub mod layout;
pub mod plan;
