//! Verified core of an OpenXR API layer that feeds synthetic eye-gaze data,
//! received over OSC, into applications through the eye-gaze interaction
//! extension.
//!
//! Everything here works on plain values: handles are raw `u64` values,
//! result codes and structure tags are raw `i32` values, and timestamps are
//! nanoseconds.  The FFI glue that turns raw OpenXR structures into these
//! values lives outside the library.
pub mod codes;
pub mod text;
pub mod feed;
pub mod binding;
pub mod extensions;
pub mod chain;
pub mod dispatch;
pub mod layer;
