//! Extension blocks chained to the output structures of the runtime, as
//! owned lists of tagged blocks.
use vstd::prelude::*;
use crate::codes::{XR_TYPE_EYE_GAZE_SAMPLE_TIME_EXT, XR_TYPE_SYSTEM_EYE_GAZE_INTERACTION_PROPERTIES_EXT};

verus! {

/// A block of the system-properties chain.  Only blocks with the eye-gaze
/// interaction tag carry a meaningful capability flag.
#[derive(PartialEq, Eq, Structural, Clone, Copy, Debug)]
pub struct SystemPropertyBlock {
    pub ty: i32,
    pub supports_eye_gaze_interaction: bool,
}

/// A block of the space-location chain.  Only blocks with the gaze sample
/// time tag carry a meaningful time.
#[derive(PartialEq, Eq, Structural, Clone, Copy, Debug)]
pub struct LocationBlock {
    pub ty: i32,
    pub time: i64,
}

/// The system-properties block after the layer's change.
pub open spec fn with_eye_gaze_support(b: SystemPropertyBlock) -> SystemPropertyBlock {
    if b.ty == XR_TYPE_SYSTEM_EYE_GAZE_INTERACTION_PROPERTIES_EXT {
        SystemPropertyBlock { supports_eye_gaze_interaction: true, ..b }
    } else {
        b
    }
}

/// The space-location block after the layer's change.
pub open spec fn with_zero_sample_time(b: LocationBlock) -> LocationBlock {
    if b.ty == XR_TYPE_EYE_GAZE_SAMPLE_TIME_EXT {
        LocationBlock { time: 0, ..b }
    } else {
        b
    }
}

/// Sets the capability flag of every eye-gaze interaction block of the chain;
/// other blocks are left as they are.
pub fn mark_eye_gaze_support(chain: &mut Vec<SystemPropertyBlock>)
    ensures
        final(chain)@ == old(chain)@.map_values(|b: SystemPropertyBlock| with_eye_gaze_support(b)),
{
    let ghost start = chain@;
    let mut i: usize = 0;
    while i < chain.len()
        invariant
            chain@.len() == start.len(),
            i <= chain@.len(),
            forall|j: int| 0 <= j < i ==> chain@[j] == with_eye_gaze_support(#[trigger] start[j]),
            forall|j: int| i <= j < chain@.len() ==> chain@[j] == start[j],
        decreases chain@.len() - i,
    {
        if chain[i].ty == XR_TYPE_SYSTEM_EYE_GAZE_INTERACTION_PROPERTIES_EXT {
            let b = SystemPropertyBlock { ty: chain[i].ty, supports_eye_gaze_interaction: true };
            chain.set(i, b);
        }
        i = i + 1;
    }
    proof {
        assert(chain@ =~= start.map_values(|b: SystemPropertyBlock| with_eye_gaze_support(b)));
    }
}

/// Zeroes the time of every gaze sample time block of the chain; other
/// blocks are left as they are.
pub fn zero_sample_times(chain: &mut Vec<LocationBlock>)
    ensures
        final(chain)@ == old(chain)@.map_values(|b: LocationBlock| with_zero_sample_time(b)),
{
    let ghost start = chain@;
    let mut i: usize = 0;
    while i < chain.len()
        invariant
            chain@.len() == start.len(),
            i <= chain@.len(),
            forall|j: int| 0 <= j < i ==> chain@[j] == with_zero_sample_time(#[trigger] start[j]),
            forall|j: int| i <= j < chain@.len() ==> chain@[j] == start[j],
        decreases chain@.len() - i,
    {
        if chain[i].ty == XR_TYPE_EYE_GAZE_SAMPLE_TIME_EXT {
            let b = LocationBlock { ty: chain[i].ty, time: 0 };
            chain.set(i, b);
        }
        i = i + 1;
    }
    proof {
        assert(chain@ =~= start.map_values(|b: LocationBlock| with_zero_sample_time(b)));
    }
}

} // verus!
