//! The dispatch table: which entry points the layer intercepts, where the
//! runtime's own implementations are kept, and the bootstrap guard on
//! function lookups made without an instance.
use vstd::prelude::*;
use crate::codes::{XR_ERROR_HANDLE_INVALID, XR_NULL_HANDLE, XR_SUCCESS};
use crate::text::str_eq;

verus! {

/// The entry points whose runtime implementation the layer captures.
#[derive(PartialEq, Eq, Structural, Clone, Copy, Debug)]
pub enum EntryPoint {
    EnumerateInstanceExtensionProperties,
    GetSystemProperties,
    SuggestInteractionProfileBindings,
    CreateActionSpace,
    GetActionStatePose,
    LocateSpace,
    /// Captured for the layer's own use, never substituted.
    PathToString,
}

pub const ENUMERATE_INSTANCE_EXTENSION_PROPERTIES: &'static str = "xrEnumerateInstanceExtensionProperties";
pub const ENUMERATE_API_LAYER_PROPERTIES: &'static str = "xrEnumerateApiLayerProperties";
pub const CREATE_INSTANCE: &'static str = "xrCreateInstance";
pub const GET_SYSTEM_PROPERTIES: &'static str = "xrGetSystemProperties";
pub const SUGGEST_INTERACTION_PROFILE_BINDINGS: &'static str = "xrSuggestInteractionProfileBindings";
pub const CREATE_ACTION_SPACE: &'static str = "xrCreateActionSpace";
pub const GET_ACTION_STATE_POSE: &'static str = "xrGetActionStatePose";
pub const LOCATE_SPACE: &'static str = "xrLocateSpace";
pub const PATH_TO_STRING: &'static str = "xrPathToString";

/// The intercepted entry point with this name, if any.
pub open spec fn entry_point_of(name: Seq<char>) -> Option<EntryPoint> {
    if name == "xrEnumerateInstanceExtensionProperties"@ {
        Some(EntryPoint::EnumerateInstanceExtensionProperties)
    } else if name == "xrGetSystemProperties"@ {
        Some(EntryPoint::GetSystemProperties)
    } else if name == "xrSuggestInteractionProfileBindings"@ {
        Some(EntryPoint::SuggestInteractionProfileBindings)
    } else if name == "xrCreateActionSpace"@ {
        Some(EntryPoint::CreateActionSpace)
    } else if name == "xrGetActionStatePose"@ {
        Some(EntryPoint::GetActionStatePose)
    } else if name == "xrLocateSpace"@ {
        Some(EntryPoint::LocateSpace)
    } else if name == "xrPathToString"@ {
        Some(EntryPoint::PathToString)
    } else {
        None
    }
}

/// Whether the entry point with this name can be looked up without an instance.
pub open spec fn is_instance_independent(name: Seq<char>) -> bool {
    name == "xrEnumerateInstanceExtensionProperties"@ || name == "xrEnumerateApiLayerProperties"@
        || name == "xrCreateInstance"@
}

/// The status that the bootstrap guard gives a lookup of `name` on `instance`.
pub open spec fn lookup_guard(instance: u64, name: Seq<char>) -> i32 {
    if instance == XR_NULL_HANDLE && !is_instance_independent(name) {
        XR_ERROR_HANDLE_INVALID
    } else {
        XR_SUCCESS
    }
}

/// The intercepted entry point named `name`, if any.
pub fn entry_point(name: &str) -> (r: Option<EntryPoint>)
    ensures
        r == entry_point_of(name@),
{
    if str_eq(name, ENUMERATE_INSTANCE_EXTENSION_PROPERTIES) {
        Some(EntryPoint::EnumerateInstanceExtensionProperties)
    } else if str_eq(name, GET_SYSTEM_PROPERTIES) {
        Some(EntryPoint::GetSystemProperties)
    } else if str_eq(name, SUGGEST_INTERACTION_PROFILE_BINDINGS) {
        Some(EntryPoint::SuggestInteractionProfileBindings)
    } else if str_eq(name, CREATE_ACTION_SPACE) {
        Some(EntryPoint::CreateActionSpace)
    } else if str_eq(name, GET_ACTION_STATE_POSE) {
        Some(EntryPoint::GetActionStatePose)
    } else if str_eq(name, LOCATE_SPACE) {
        Some(EntryPoint::LocateSpace)
    } else if str_eq(name, PATH_TO_STRING) {
        Some(EntryPoint::PathToString)
    } else {
        None
    }
}

/// The bootstrap guard: a lookup made without an instance is refused with
/// `XR_ERROR_HANDLE_INVALID` unless it names one of the entry points that
/// exist before any instance does.
pub fn check_proc_addr_request(instance: u64, name: &str) -> (r: i32)
    ensures
        r == lookup_guard(instance, name@),
{
    if instance != XR_NULL_HANDLE {
        return XR_SUCCESS;
    }
    if str_eq(name, ENUMERATE_INSTANCE_EXTENSION_PROPERTIES) || str_eq(
        name,
        ENUMERATE_API_LAYER_PROPERTIES,
    ) || str_eq(name, CREATE_INSTANCE) {
        XR_SUCCESS
    } else {
        XR_ERROR_HANDLE_INVALID
    }
}

/// The number of extension names handed on to the next layer, whose list
/// leaves out this layer's own extension, taken to stand first.  `None`
/// where the application enabled no extension at all.
pub fn downstream_extension_count(enabled_count: u32) -> (r: Option<u32>)
    ensures
        r == (if enabled_count == 0 {
            None
        } else {
            Some((enabled_count - 1) as u32)
        }),
{
    if enabled_count == 0 {
        None
    } else {
        Some(enabled_count - 1)
    }
}

/// What a function lookup hands back to the application.
#[derive(PartialEq, Eq, Structural, Clone, Copy, Debug)]
pub enum ProcAddrOutcome {
    /// The runtime's answer, unchanged.
    PassThrough,
    /// The layer's own implementation of this entry point.
    Substitute(EntryPoint),
}

/// The runtime implementations that the layer captured, as raw addresses.
pub struct FunctionSlots {
    enumerate_instance_extension_properties: Option<u64>,
    get_system_properties: Option<u64>,
    suggest_interaction_profile_bindings: Option<u64>,
    create_action_space: Option<u64>,
    get_action_state_pose: Option<u64>,
    locate_space: Option<u64>,
    path_to_string: Option<u64>,
}

impl FunctionSlots {
    /// The captured implementation of `e`, if any.
    pub closed spec fn slot(&self, e: EntryPoint) -> Option<u64> {
        match e {
            EntryPoint::EnumerateInstanceExtensionProperties => self.enumerate_instance_extension_properties,
            EntryPoint::GetSystemProperties => self.get_system_properties,
            EntryPoint::SuggestInteractionProfileBindings => self.suggest_interaction_profile_bindings,
            EntryPoint::CreateActionSpace => self.create_action_space,
            EntryPoint::GetActionStatePose => self.get_action_state_pose,
            EntryPoint::LocateSpace => self.locate_space,
            EntryPoint::PathToString => self.path_to_string,
        }
    }

    /// A table with nothing captured.
    pub fn new() -> (r: FunctionSlots)
        ensures
            forall|e: EntryPoint| r.slot(e) is None,
    {
        FunctionSlots {
            enumerate_instance_extension_properties: None,
            get_system_properties: None,
            suggest_interaction_profile_bindings: None,
            create_action_space: None,
            get_action_state_pose: None,
            locate_space: None,
            path_to_string: None,
        }
    }

    /// The captured implementation of `e`, if any.
    pub fn get(&self, e: EntryPoint) -> (r: Option<u64>)
        ensures
            r == self.slot(e),
    {
        match e {
            EntryPoint::EnumerateInstanceExtensionProperties => self.enumerate_instance_extension_properties,
            EntryPoint::GetSystemProperties => self.get_system_properties,
            EntryPoint::SuggestInteractionProfileBindings => self.suggest_interaction_profile_bindings,
            EntryPoint::CreateActionSpace => self.create_action_space,
            EntryPoint::GetActionStatePose => self.get_action_state_pose,
            EntryPoint::LocateSpace => self.locate_space,
            EntryPoint::PathToString => self.path_to_string,
        }
    }

    /// Stores `f` as the implementation of `e`.
    pub fn set(&mut self, e: EntryPoint, f: u64)
        ensures
            final(self).slot(e) == Some(f),
            forall|o: EntryPoint| o != e ==> final(self).slot(o) == old(self).slot(o),
    {
        match e {
            EntryPoint::EnumerateInstanceExtensionProperties => self.enumerate_instance_extension_properties = Some(f),
            EntryPoint::GetSystemProperties => self.get_system_properties = Some(f),
            EntryPoint::SuggestInteractionProfileBindings => self.suggest_interaction_profile_bindings = Some(f),
            EntryPoint::CreateActionSpace => self.create_action_space = Some(f),
            EntryPoint::GetActionStatePose => self.get_action_state_pose = Some(f),
            EntryPoint::LocateSpace => self.locate_space = Some(f),
            EntryPoint::PathToString => self.path_to_string = Some(f),
        }
    }
}

} // verus!
