//! Raw OpenXR result codes, structure tags and location flags used by the layer.
use vstd::prelude::*;

verus! {

/// `XR_SUCCESS`.
pub const XR_SUCCESS: i32 = 0;

/// `XR_ERROR_VALIDATION_FAILURE`.
pub const XR_ERROR_VALIDATION_FAILURE: i32 = -1;

/// `XR_ERROR_SIZE_INSUFFICIENT`.
pub const XR_ERROR_SIZE_INSUFFICIENT: i32 = -11;

/// `XR_ERROR_HANDLE_INVALID`.
pub const XR_ERROR_HANDLE_INVALID: i32 = -12;

/// `XR_TYPE_EXTENSION_PROPERTIES`.
pub const XR_TYPE_EXTENSION_PROPERTIES: i32 = 2;

/// `XR_TYPE_SYSTEM_EYE_GAZE_INTERACTION_PROPERTIES_EXT`.
pub const XR_TYPE_SYSTEM_EYE_GAZE_INTERACTION_PROPERTIES_EXT: i32 = 1000030000;

/// `XR_TYPE_EYE_GAZE_SAMPLE_TIME_EXT`.
pub const XR_TYPE_EYE_GAZE_SAMPLE_TIME_EXT: i32 = 1000030001;

/// `XR_NULL_HANDLE`.
pub const XR_NULL_HANDLE: u64 = 0;

/// `XR_SPACE_LOCATION_ORIENTATION_TRACKED_BIT`.
pub const XR_SPACE_LOCATION_ORIENTATION_TRACKED: u64 = 4;

/// `XR_SPACE_LOCATION_POSITION_TRACKED_BIT`.
pub const XR_SPACE_LOCATION_POSITION_TRACKED: u64 = 8;

} // verus!
