//! Advertising the eye-gaze interaction extension in the runtime's list of
//! instance extensions.
use vstd::prelude::*;
use crate::codes::{
    XR_ERROR_SIZE_INSUFFICIENT, XR_ERROR_VALIDATION_FAILURE, XR_SUCCESS,
    XR_TYPE_EXTENSION_PROPERTIES,
};

verus! {

/// Name of the extension that the layer adds.
pub const ADVERTISED_EXTENSION_NAME: &'static str = "XR_EXT_eye_gaze_interaction";

/// Version of the extension that the layer adds.
pub const ADVERTISED_EXTENSION_VERSION: u32 = 1;

pub open spec fn advertised_extension_name() -> Seq<char> {
    "XR_EXT_eye_gaze_interaction"@
}

/// One slot of the caller's extension-properties buffer.
#[derive(Debug)]
pub struct ExtensionProperties {
    /// Structure tag that the caller put in the slot.
    pub ty: i32,
    pub extension_name: String,
    pub extension_version: u32,
}

/// Whether slot `e` holds the advertised extension.
pub open spec fn is_advertised_entry(e: ExtensionProperties) -> bool {
    &&& e.ty == XR_TYPE_EXTENSION_PROPERTIES
    &&& e.extension_name@ == advertised_extension_name()
    &&& e.extension_version == ADVERTISED_EXTENSION_VERSION
}

/// Status of an enumeration with `capacity` slots, where the runtime reported
/// `real_status` and `real_count` entries, and the slot after the runtime's
/// entries carries the tag `slot_tag`.
pub open spec fn enumeration_status(real_status: i32, real_count: u32, capacity: u32, slot_tag: i32) -> i32 {
    if capacity == 0 {
        real_status
    } else if (capacity as int) < real_count + 1 {
        XR_ERROR_SIZE_INSUFFICIENT
    } else if slot_tag != XR_TYPE_EXTENSION_PROPERTIES {
        XR_ERROR_VALIDATION_FAILURE
    } else {
        XR_SUCCESS
    }
}

/// Whether `r` and `after` are what completing an enumeration makes of the
/// runtime's answer (`real_status`, `real_count`) and the caller's slots
/// `before`.
pub open spec fn enumeration_completed(
    real_status: i32,
    real_count: u32,
    capacity: u32,
    before: Seq<ExtensionProperties>,
    after: Seq<ExtensionProperties>,
    r: (i32, u32),
) -> bool {
    &&& r.1 == real_count + 1
    &&& r.0 == enumeration_status(
        real_status,
        real_count,
        capacity,
        if real_count < capacity {
            before[real_count as int].ty
        } else {
            0
        },
    )
    &&& r.0 == XR_SUCCESS && capacity > 0 ==> {
        &&& after.len() == before.len()
        &&& is_advertised_entry(after[real_count as int])
        &&& forall|i: int| 0 <= i < after.len() && i != real_count ==> after[i] == before[i]
    }
    &&& !(r.0 == XR_SUCCESS && capacity > 0) ==> after == before
}

/// With a runtime that answered a query with success: a size query succeeds
/// and counts one entry more than the runtime; a capacity below that total
/// fails with `XR_ERROR_SIZE_INSUFFICIENT`; a sufficient capacity, whose slot
/// after the runtime's entries is tagged for extension properties, succeeds
/// and holds the advertised name and version there.
pub proof fn lemma_enumeration_by_capacity(
    real_count: u32,
    capacity: u32,
    before: Seq<ExtensionProperties>,
    after: Seq<ExtensionProperties>,
    r: (i32, u32),
)
    requires
        real_count < u32::MAX,
        before.len() == capacity as nat,
        enumeration_completed(XR_SUCCESS, real_count, capacity, before, after, r),
    ensures
        r.1 == real_count + 1,
        capacity == 0 ==> r.0 == XR_SUCCESS,
        0 < capacity < real_count + 1 ==> r.0 == XR_ERROR_SIZE_INSUFFICIENT,
        capacity >= real_count + 1 && before[real_count as int].ty == XR_TYPE_EXTENSION_PROPERTIES
            ==> {
            &&& r.0 == XR_SUCCESS
            &&& after[real_count as int].extension_name@ == advertised_extension_name()
            &&& after[real_count as int].extension_version == ADVERTISED_EXTENSION_VERSION
        },
{
}

/// Completes an enumeration of instance extensions that the runtime already
/// answered with `real_status` and `real_count`: the count becomes the true
/// total, one more than the runtime's.  A zero `capacity` is a size query and
/// keeps the runtime's status.  A capacity below the total fails with
/// `XR_ERROR_SIZE_INSUFFICIENT`.  Otherwise the slot after the runtime's
/// entries must carry the extension-properties tag, else the call fails
/// with `XR_ERROR_VALIDATION_FAILURE`; if it does, the advertised extension
/// is written there.  `properties` holds the caller's `capacity` slots.
pub fn append_advertised_extension(
    real_status: i32,
    real_count: u32,
    capacity: u32,
    properties: &mut Vec<ExtensionProperties>,
) -> (r: (i32, u32))
    requires
        real_count < u32::MAX,
        old(properties)@.len() == capacity as nat,
    ensures
        enumeration_completed(real_status, real_count, capacity, old(properties)@, final(properties)@, r),
{
    let total = real_count + 1;
    if capacity == 0 {
        return (real_status, total);
    }
    if capacity < total {
        return (XR_ERROR_SIZE_INSUFFICIENT, total);
    }
    let i = real_count as usize;
    if properties[i].ty != XR_TYPE_EXTENSION_PROPERTIES {
        return (XR_ERROR_VALIDATION_FAILURE, total);
    }
    proof {
        reveal_strlit("XR_EXT_eye_gaze_interaction");
    }
    let entry = ExtensionProperties {
        ty: XR_TYPE_EXTENSION_PROPERTIES,
        extension_name: String::from_str(ADVERTISED_EXTENSION_NAME),
        extension_version: ADVERTISED_EXTENSION_VERSION,
    };
    properties.set(i, entry);
    (XR_SUCCESS, total)
}

} // verus!
