//! The layer's state and the decisions of its substitute entry points.
use vstd::prelude::*;
use crate::binding::{
    record_space, suggest, BindingResolver, ResolverView, SuggestOutcome, SuggestedBinding,
};
use crate::chain::{mark_eye_gaze_support, with_eye_gaze_support, with_zero_sample_time, zero_sample_times, LocationBlock, SystemPropertyBlock};
use crate::codes::{XR_SPACE_LOCATION_ORIENTATION_TRACKED, XR_SPACE_LOCATION_POSITION_TRACKED, XR_SUCCESS};
use crate::dispatch::{entry_point, entry_point_of, EntryPoint, FunctionSlots, ProcAddrOutcome};
use crate::extensions::{append_advertised_extension, enumeration_completed, ExtensionProperties};
use crate::feed::{is_sample_fresh, spec_is_fresh};
use crate::text::{c_string_from_buffer, first_nul};
use vstd::utf8::{decode_utf8, valid_utf8};

verus! {

/// Which eye a gaze anchor stands for.
#[derive(PartialEq, Eq, Structural, Clone, Copy, Debug)]
pub enum Eye {
    Left,
    Right,
}

/// What the substitute of `xrGetActionStatePose` does.
#[derive(PartialEq, Eq, Structural, Clone, Copy, Debug)]
pub enum PoseStateOutcome {
    /// Not the gaze action: the call goes to the runtime unchanged.
    Forward,
    /// The gaze action: report success with this activity.
    Gaze { is_active: bool },
}

/// What the substitute of `xrLocateSpace` does.
#[derive(PartialEq, Eq, Structural, Clone, Copy, Debug)]
pub enum LocateOutcome {
    /// Not a gaze anchor: the call goes to the runtime unchanged.
    Forward,
    /// A gaze anchor: report success with these location flags, the origin
    /// as position, and the orientation of this eye's latest sample.
    Gaze { eye: Eye, location_flags: u64 },
}

/// The location flags of a synthesized gaze location.
pub open spec fn gaze_location_flags(flags: u64) -> u64 {
    flags | XR_SPACE_LOCATION_POSITION_TRACKED | XR_SPACE_LOCATION_ORIENTATION_TRACKED
}

/// The state of the layer: the downstream instance, the captured runtime
/// implementations and the binding discovery.
pub struct OpenXRLayer {
    instance: Option<u64>,
    get_instance_proc_addr: Option<u64>,
    functions: FunctionSlots,
    resolver: BindingResolver,
}

impl OpenXRLayer {
    /// The instance created through this layer.
    pub closed spec fn spec_instance(&self) -> Option<u64> {
        self.instance
    }

    /// The next layer's `xrGetInstanceProcAddr`, as a raw address.
    pub closed spec fn spec_next_lookup(&self) -> Option<u64> {
        self.get_instance_proc_addr
    }

    /// The captured runtime implementation of `e`, if any.
    pub closed spec fn real_function_of(&self, e: EntryPoint) -> Option<u64> {
        self.functions.slot(e)
    }

    /// The state of the binding discovery.
    pub closed spec fn bindings(&self) -> ResolverView {
        self.resolver.view()
    }

    /// A layer before any instance exists: nothing captured, nothing bound.
    pub fn new() -> (r: OpenXRLayer)
        ensures
            r.spec_instance() is None,
            r.spec_next_lookup() is None,
            forall|e: EntryPoint| r.real_function_of(e) is None,
            r.bindings() == (ResolverView {
                pending: Map::empty(),
                gaze_action: None,
                left_space: None,
                right_space: None,
            }),
    {
        OpenXRLayer {
            instance: None,
            get_instance_proc_addr: None,
            functions: FunctionSlots::new(),
            resolver: BindingResolver::new(),
        }
    }

    /// The instance created through this layer.
    pub fn instance(&self) -> (r: Option<u64>)
        ensures
            r == self.spec_instance(),
    {
        self.instance
    }

    /// The next layer's `xrGetInstanceProcAddr`, as a raw address.
    pub fn get_instance_proc_addr(&self) -> (r: Option<u64>)
        ensures
            r == self.spec_next_lookup(),
    {
        self.get_instance_proc_addr
    }

    /// The captured runtime implementation of `e`, if any.
    pub fn real_function(&self, e: EntryPoint) -> (r: Option<u64>)
        ensures
            r == self.real_function_of(e),
    {
        self.functions.get(e)
    }

    /// Takes the result of the downstream instance creation: on success the
    /// instance and the next layer's lookup function are recorded.  The
    /// status is handed back unchanged.
    pub fn create_api_layer_instance(
        &mut self,
        status: i32,
        instance: u64,
        next_get_instance_proc_addr: u64,
    ) -> (r: i32)
        ensures
            r == status,
            status == XR_SUCCESS ==> final(self).spec_instance() == Some(instance)
                && final(self).spec_next_lookup() == Some(next_get_instance_proc_addr),
            status != XR_SUCCESS ==> final(self).spec_instance() == old(self).spec_instance()
                && final(self).spec_next_lookup() == old(self).spec_next_lookup(),
            forall|e: EntryPoint| final(self).real_function_of(e) == old(self).real_function_of(e),
            final(self).bindings() == old(self).bindings(),
    {
        if status == XR_SUCCESS {
            self.instance = Some(instance);
            self.get_instance_proc_addr = Some(next_get_instance_proc_addr);
        }
        status
    }

    /// Takes the runtime's answer (`real_status`, `real_function`) to a lookup
    /// of `name`.  Where the lookup succeeded with an implementation of an
    /// intercepted entry point, that implementation is captured, and the
    /// application gets the layer's substitute, except for the path lookup,
    /// which is captured only.  Anything else passes through unchanged.
    pub fn resolve_proc_addr(&mut self, name: &str, real_status: i32, real_function: Option<u64>) -> (r: ProcAddrOutcome)
        ensures
            final(self).spec_instance() == old(self).spec_instance(),
            final(self).spec_next_lookup() == old(self).spec_next_lookup(),
            final(self).bindings() == old(self).bindings(),
            ({
                if real_status == XR_SUCCESS && real_function is Some && entry_point_of(name@) is Some {
                    let e = entry_point_of(name@)->0;
                    &&& final(self).real_function_of(e) == real_function
                    &&& forall|o: EntryPoint| o != e ==> final(self).real_function_of(o) == old(self).real_function_of(o)
                    &&& r == (if e == EntryPoint::PathToString {
                        ProcAddrOutcome::PassThrough
                    } else {
                        ProcAddrOutcome::Substitute(e)
                    })
                } else {
                    &&& r == ProcAddrOutcome::PassThrough
                    &&& forall|o: EntryPoint| final(self).real_function_of(o) == old(self).real_function_of(o)
                }
            }),
    {
        if real_status != XR_SUCCESS {
            return ProcAddrOutcome::PassThrough;
        }
        let f = match real_function {
            Some(f) => f,
            None => {
                return ProcAddrOutcome::PassThrough;
            },
        };
        match entry_point(name) {
            Some(e) => {
                self.functions.set(e, f);
                if e == EntryPoint::PathToString {
                    ProcAddrOutcome::PassThrough
                } else {
                    ProcAddrOutcome::Substitute(e)
                }
            },
            None => ProcAddrOutcome::PassThrough,
        }
    }

    /// Substitute of `xrEnumerateInstanceExtensionProperties`, after the
    /// runtime answered: appends the advertised extension (see
    /// `append_advertised_extension`).
    pub fn enumerate_instance_extension_properties(
        &self,
        real_status: i32,
        real_count: u32,
        capacity: u32,
        properties: &mut Vec<ExtensionProperties>,
    ) -> (r: (i32, u32))
        requires
            real_count < u32::MAX,
            old(properties)@.len() == capacity as nat,
        ensures
            enumeration_completed(real_status, real_count, capacity, old(properties)@, final(properties)@, r),
    {
        append_advertised_extension(real_status, real_count, capacity, properties)
    }

    /// Substitute of `xrGetSystemProperties`, before the call goes to the
    /// runtime: every eye-gaze interaction block of the chain reports support.
    pub fn get_system_properties(&self, chain: &mut Vec<SystemPropertyBlock>)
        ensures
            final(chain)@ == old(chain)@.map_values(|b: SystemPropertyBlock| with_eye_gaze_support(b)),
    {
        mark_eye_gaze_support(chain)
    }

    /// Substitute of `xrSuggestInteractionProfileBindings`, with the profile
    /// and binding paths turned into their names: handles the eye-gaze
    /// profile (see `BindingResolver::suggest_bindings`) and forwards any other.
    pub fn suggest_interaction_profile_bindings(&mut self, profile: &str, bindings: &Vec<SuggestedBinding>) -> (r: SuggestOutcome)
        ensures
            r == (if profile@ == crate::binding::eye_gaze_profile() {
                SuggestOutcome::Handled
            } else {
                SuggestOutcome::Forward
            }),
            final(self).bindings() == suggest(old(self).bindings(), profile@, bindings@),
            final(self).spec_instance() == old(self).spec_instance(),
            final(self).spec_next_lookup() == old(self).spec_next_lookup(),
            forall|e: EntryPoint| final(self).real_function_of(e) == old(self).real_function_of(e),
    {
        self.resolver.suggest_bindings(profile, bindings)
    }

    /// Substitute of `xrCreateActionSpace`, after the runtime answered with
    /// `real_status` and `space`: after a successful creation, a left or right
    /// space of the resolved gaze action becomes that eye's anchor, and any
    /// other space is remembered as pending for `(action, subaction_path)`;
    /// a failed creation changes nothing.
    /// The runtime's status is handed back unchanged.
    pub fn create_action_space(&mut self, real_status: i32, action: u64, subaction_path: u64, space: u64) -> (r: i32)
        ensures
            r == real_status,
            final(self).bindings() == (if real_status == XR_SUCCESS {
                record_space(old(self).bindings(), action, subaction_path, space)
            } else {
                old(self).bindings()
            }),
            final(self).spec_instance() == old(self).spec_instance(),
            final(self).spec_next_lookup() == old(self).spec_next_lookup(),
            forall|e: EntryPoint| final(self).real_function_of(e) == old(self).real_function_of(e),
    {
        if real_status == XR_SUCCESS {
            self.resolver.record_space(action, subaction_path, space);
        }
        real_status
    }

    /// Substitute of `xrGetActionStatePose`: for the gaze action, the state is
    /// active while the latest sample, captured at `captured_at`, is fresh at
    /// `now`; any other action is forwarded.
    pub fn get_action_state_pose(&self, action: u64, captured_at: u64, now: u64) -> (r: PoseStateOutcome)
        ensures
            r == (if self.bindings().gaze_action == Some(action) {
                PoseStateOutcome::Gaze { is_active: spec_is_fresh(captured_at, now) }
            } else {
                PoseStateOutcome::Forward
            }),
    {
        match self.resolver.gaze_action() {
            Some(a) if a == action => PoseStateOutcome::Gaze { is_active: is_sample_fresh(captured_at, now) },
            _ => PoseStateOutcome::Forward,
        }
    }

    /// Substitute of `xrLocateSpace`: a gaze anchor is located from the
    /// network sample, with position and orientation tracked and every gaze
    /// sample time of the chain zeroed; any other space is forwarded and the
    /// chain left as it is.  An anchor that is both left and right counts as
    /// left.
    pub fn locate_space(&self, space: u64, location_flags: u64, chain: &mut Vec<LocationBlock>) -> (r: LocateOutcome)
        ensures
            r == (if self.bindings().left_space == Some(space) {
                LocateOutcome::Gaze { eye: Eye::Left, location_flags: gaze_location_flags(location_flags) }
            } else if self.bindings().right_space == Some(space) {
                LocateOutcome::Gaze { eye: Eye::Right, location_flags: gaze_location_flags(location_flags) }
            } else {
                LocateOutcome::Forward
            }),
            r is Gaze ==> final(chain)@ == old(chain)@.map_values(|b: LocationBlock| with_zero_sample_time(b)),
            r is Forward ==> final(chain)@ == old(chain)@,
    {
        let is_left = match self.resolver.left_space() {
            Some(s) => s == space,
            None => false,
        };
        let is_right = match self.resolver.right_space() {
            Some(s) => s == space,
            None => false,
        };
        if !is_left && !is_right {
            return LocateOutcome::Forward;
        }
        let flags = location_flags | XR_SPACE_LOCATION_POSITION_TRACKED | XR_SPACE_LOCATION_ORIENTATION_TRACKED;
        zero_sample_times(chain);
        let eye = if is_left {
            Eye::Left
        } else {
            Eye::Right
        };
        LocateOutcome::Gaze { eye, location_flags: flags }
    }

    /// Reads the name that the runtime's `xrPathToString` wrote into `buffer`,
    /// reporting `written` bytes (see `c_string_from_buffer`).
    pub fn path_to_string(&self, buffer: &Vec<u8>, written: u32) -> (r: Option<String>)
        ensures
            r is Some <==> (first_nul(buffer@, written as int) matches Some(p) && valid_utf8(
                buffer@.take(p),
            )),
            r matches Some(t) ==> (first_nul(buffer@, written as int) matches Some(p) && t@
                == decode_utf8(buffer@.take(p))),
    {
        c_string_from_buffer(buffer, written)
    }
}

} // verus!
