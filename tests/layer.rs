use gaze_layer::binding::{BindingResolver, SuggestOutcome, SuggestedBinding, EYE_GAZE_POSE_PATH, EYE_GAZE_PROFILE};
use gaze_layer::chain::{LocationBlock, SystemPropertyBlock};
use gaze_layer::codes::{
    XR_ERROR_HANDLE_INVALID, XR_ERROR_SIZE_INSUFFICIENT, XR_ERROR_VALIDATION_FAILURE, XR_SUCCESS,
    XR_TYPE_EXTENSION_PROPERTIES, XR_TYPE_EYE_GAZE_SAMPLE_TIME_EXT,
    XR_TYPE_SYSTEM_EYE_GAZE_INTERACTION_PROPERTIES_EXT,
};
use gaze_layer::dispatch::{check_proc_addr_request, downstream_extension_count, entry_point, EntryPoint, ProcAddrOutcome};
use gaze_layer::extensions::{ExtensionProperties, ADVERTISED_EXTENSION_NAME, ADVERTISED_EXTENSION_VERSION};
use gaze_layer::feed::{classify_message, is_sample_fresh, GazePayload};
use gaze_layer::layer::{Eye, LocateOutcome, OpenXRLayer, PoseStateOutcome};
use rosc::OscType::{Float, Int};

const MS: u64 = 1_000_000;

fn slots(n: usize) -> Vec<ExtensionProperties> {
    (0..n)
        .map(|i| ExtensionProperties {
            ty: XR_TYPE_EXTENSION_PROPERTIES,
            extension_name: format!("XR_runtime_{i}"),
            extension_version: 3,
        })
        .collect()
}

fn gaze_binding(action: u64) -> SuggestedBinding {
    SuggestedBinding { action, binding: EYE_GAZE_POSE_PATH.to_string() }
}

fn resolved_layer(action: u64, left: u64, right: u64) -> OpenXRLayer {
    let mut layer = OpenXRLayer::new();
    assert_eq!(layer.create_action_space(XR_SUCCESS, action, 1, left), XR_SUCCESS);
    assert_eq!(layer.create_action_space(XR_SUCCESS, action, 2, right), XR_SUCCESS);
    let outcome = layer.suggest_interaction_profile_bindings(EYE_GAZE_PROFILE, &vec![gaze_binding(action)]);
    assert_eq!(outcome, SuggestOutcome::Handled);
    layer
}

#[test]
fn size_query_counts_the_advertised_extension() {
    let layer = OpenXRLayer::new();
    let mut props = Vec::new();
    let r = layer.enumerate_instance_extension_properties(XR_SUCCESS, 5, 0, &mut props);
    assert_eq!(r, (XR_SUCCESS, 6));
    assert!(props.is_empty());
}

#[test]
fn small_capacity_is_size_insufficient() {
    let layer = OpenXRLayer::new();
    for capacity in 1..6u32 {
        let mut props = slots(capacity as usize);
        let r = layer.enumerate_instance_extension_properties(XR_SUCCESS, 5, capacity, &mut props);
        assert_eq!(r, (XR_ERROR_SIZE_INSUFFICIENT, 6));
        assert!(props.iter().all(|p| p.extension_name != ADVERTISED_EXTENSION_NAME));
    }
}

#[test]
fn sufficient_capacity_writes_the_advertised_extension() {
    let layer = OpenXRLayer::new();
    for capacity in 6..9u32 {
        let mut props = slots(capacity as usize);
        let r = layer.enumerate_instance_extension_properties(XR_SUCCESS, 5, capacity, &mut props);
        assert_eq!(r, (XR_SUCCESS, 6));
        assert_eq!(props[5].extension_name, "XR_EXT_eye_gaze_interaction");
        assert_eq!(props[5].extension_version, 1);
        assert_eq!(props[5].extension_version, ADVERTISED_EXTENSION_VERSION);
        assert_eq!(props[4].extension_name, "XR_runtime_4");
        assert_eq!(props[4].extension_version, 3);
    }
}

#[test]
fn wrongly_tagged_slot_is_a_validation_failure() {
    let layer = OpenXRLayer::new();
    let mut props = slots(3);
    props[2].ty = 0;
    let r = layer.enumerate_instance_extension_properties(XR_SUCCESS, 2, 3, &mut props);
    assert_eq!(r, (XR_ERROR_VALIDATION_FAILURE, 3));
    assert_eq!(props[2].extension_name, "XR_runtime_2");
}

#[test]
fn empty_runtime_list_gets_only_the_advertised_extension() {
    let layer = OpenXRLayer::new();
    let mut props = slots(1);
    let r = layer.enumerate_instance_extension_properties(XR_SUCCESS, 0, 1, &mut props);
    assert_eq!(r, (XR_SUCCESS, 1));
    assert_eq!(props[0].extension_name, ADVERTISED_EXTENSION_NAME);
}

#[test]
fn staleness_boundary() {
    let captured = 1_700_000_000_000 * MS;
    assert!(is_sample_fresh(captured, captured + 49 * MS));
    assert!(!is_sample_fresh(captured, captured + 51 * MS));
    assert!(!is_sample_fresh(captured, captured + 50 * MS));
    assert!(is_sample_fresh(captured, captured));
}

#[test]
fn pose_state_reports_freshness_for_the_gaze_action() {
    let layer = resolved_layer(40, 100, 200);
    let captured = 5_000 * MS;
    assert_eq!(layer.get_action_state_pose(40, captured, captured + 49 * MS), PoseStateOutcome::Gaze { is_active: true });
    assert_eq!(layer.get_action_state_pose(40, captured, captured + 51 * MS), PoseStateOutcome::Gaze { is_active: false });
    assert_eq!(layer.get_action_state_pose(41, captured, captured), PoseStateOutcome::Forward);
    assert_eq!(OpenXRLayer::new().get_action_state_pose(40, captured, captured), PoseStateOutcome::Forward);
}

#[test]
fn anchors_created_in_either_order_resolve_alike() {
    let mut a = OpenXRLayer::new();
    a.create_action_space(XR_SUCCESS, 7, 1, 70);
    a.create_action_space(XR_SUCCESS, 7, 2, 71);
    let mut b = OpenXRLayer::new();
    b.create_action_space(XR_SUCCESS, 7, 2, 71);
    b.create_action_space(XR_SUCCESS, 7, 1, 70);
    let bindings = vec![gaze_binding(7)];
    a.suggest_interaction_profile_bindings(EYE_GAZE_PROFILE, &bindings);
    b.suggest_interaction_profile_bindings(EYE_GAZE_PROFILE, &bindings);
    let mut chain = Vec::new();
    for layer in [&a, &b] {
        assert_eq!(layer.locate_space(70, 0, &mut chain), LocateOutcome::Gaze { eye: Eye::Left, location_flags: 12 });
        assert_eq!(layer.locate_space(71, 0, &mut chain), LocateOutcome::Gaze { eye: Eye::Right, location_flags: 12 });
        assert_eq!(layer.get_action_state_pose(7, 0, 0), PoseStateOutcome::Gaze { is_active: true });
    }
}

#[test]
fn failed_creation_records_nothing() {
    let mut resolver = BindingResolver::new();
    resolver.record_space(3, 1, 30);
    assert_eq!(resolver.pending_space(3, 1), Some(30));
    let mut layer = OpenXRLayer::new();
    assert_eq!(layer.create_action_space(-2, 3, 1, 30), -2);
    layer.suggest_interaction_profile_bindings(EYE_GAZE_PROFILE, &vec![gaze_binding(3)]);
    let mut chain = Vec::new();
    assert_eq!(layer.locate_space(30, 0, &mut chain), LocateOutcome::Forward);
}

#[test]
fn later_creation_shadows_earlier_one() {
    let mut resolver = BindingResolver::new();
    resolver.record_space(3, 1, 30);
    resolver.record_space(3, 1, 31);
    resolver.record_space(4, 1, 40);
    assert_eq!(resolver.pending_space(3, 1), Some(31));
    assert_eq!(resolver.pending_space(4, 1), Some(40));
    assert_eq!(resolver.pending_space(3, 2), None);
}

#[test]
fn resolution_clears_pending_and_keeps_missing_anchor() {
    let mut resolver = BindingResolver::new();
    resolver.record_space(5, 1, 50);
    resolver.record_space(9, 1, 90);
    let r = resolver.suggest_bindings(EYE_GAZE_PROFILE, &vec![gaze_binding(5)]);
    assert_eq!(r, SuggestOutcome::Handled);
    assert_eq!(resolver.gaze_action(), Some(5));
    assert_eq!(resolver.left_space(), Some(50));
    assert_eq!(resolver.right_space(), None);
    assert_eq!(resolver.pending_space(9, 1), None);
    resolver.record_space(5, 2, 52);
    assert_eq!(resolver.left_space(), Some(50));
    assert_eq!(resolver.right_space(), Some(52));
    assert_eq!(resolver.pending_space(5, 2), None);
    resolver.record_space(6, 1, 60);
    assert_eq!(resolver.left_space(), Some(50));
    assert_eq!(resolver.pending_space(6, 1), Some(60));
}

#[test]
fn anchors_created_after_resolution_bind_alike() {
    let before = resolved_layer(7, 70, 71);
    let mut after = OpenXRLayer::new();
    let outcome = after.suggest_interaction_profile_bindings(EYE_GAZE_PROFILE, &vec![gaze_binding(7)]);
    assert_eq!(outcome, SuggestOutcome::Handled);
    let mut chain = Vec::new();
    assert_eq!(after.locate_space(70, 0, &mut chain), LocateOutcome::Forward);
    assert_eq!(after.create_action_space(XR_SUCCESS, 7, 1, 70), XR_SUCCESS);
    assert_eq!(after.create_action_space(XR_SUCCESS, 7, 2, 71), XR_SUCCESS);
    for layer in [&before, &after] {
        assert_eq!(layer.locate_space(70, 0, &mut chain), LocateOutcome::Gaze { eye: Eye::Left, location_flags: 12 });
        assert_eq!(layer.locate_space(71, 0, &mut chain), LocateOutcome::Gaze { eye: Eye::Right, location_flags: 12 });
        assert_eq!(layer.get_action_state_pose(7, 0, 0), PoseStateOutcome::Gaze { is_active: true });
    }
}

#[test]
fn other_profiles_and_paths_pass_through() {
    let mut resolver = BindingResolver::new();
    resolver.record_space(5, 1, 50);
    let r = resolver.suggest_bindings("/interaction_profiles/khr/simple_controller", &vec![gaze_binding(5)]);
    assert_eq!(r, SuggestOutcome::Forward);
    assert_eq!(resolver.gaze_action(), None);
    assert_eq!(resolver.pending_space(5, 1), Some(50));
    let other = SuggestedBinding { action: 5, binding: "/user/hand/left/input/grip/pose".to_string() };
    let r = resolver.suggest_bindings(EYE_GAZE_PROFILE, &vec![other]);
    assert_eq!(r, SuggestOutcome::Handled);
    assert_eq!(resolver.gaze_action(), None);
    assert_eq!(resolver.pending_space(5, 1), Some(50));
}

#[test]
fn gaze_feed_to_locate_scenario() {
    let kinds = vec![true, true, true, true];
    assert_eq!(classify_message("/tracking/eye/LeftRightPitchYaw", &kinds), Some(GazePayload::PitchYaw));
    let layer = resolved_layer(11, 110, 111);
    let mut chain = vec![
        LocationBlock { ty: XR_TYPE_EYE_GAZE_SAMPLE_TIME_EXT, time: 123 },
        LocationBlock { ty: 77, time: 9 },
    ];
    let r = layer.locate_space(110, 1, &mut chain);
    assert_eq!(r, LocateOutcome::Gaze { eye: Eye::Left, location_flags: 13 });
    assert_eq!(chain[0].time, 0);
    assert_eq!(chain[1].time, 9);
    let mut chain = vec![LocationBlock { ty: XR_TYPE_EYE_GAZE_SAMPLE_TIME_EXT, time: 123 }];
    assert_eq!(layer.locate_space(999, 1, &mut chain), LocateOutcome::Forward);
    assert_eq!(chain[0].time, 123);
}

#[test]
fn messages_that_are_not_gaze_samples_are_dropped() {
    assert_eq!(classify_message("/tracking/eye/LeftRightPitchYaw", &vec![true, true, true]), None);
    assert_eq!(classify_message("/tracking/eye/LeftRightPitchYaw", &vec![true, false, true, true]), None);
    assert_eq!(classify_message("/tracking/eye/LeftRightPitchYaw", &vec![true; 5]), None);
    assert_eq!(classify_message("/tracking/eye/LeftRightVec", &vec![true; 6]), Some(GazePayload::DirectionVectors));
    assert_eq!(classify_message("/tracking/eye/LeftRightVec", &vec![true, true, true, true, true, true, false]), Some(GazePayload::DirectionVectors));
    assert_eq!(classify_message("/tracking/eye/LeftRightVec", &vec![true; 5]), None);
    assert_eq!(classify_message("/avatar/parameters/x", &vec![true; 4]), None);
}

#[test]
fn lookup_without_instance_is_guarded() {
    assert_eq!(check_proc_addr_request(0, "xrCreateInstance"), XR_SUCCESS);
    assert_eq!(check_proc_addr_request(0, "xrEnumerateApiLayerProperties"), XR_SUCCESS);
    assert_eq!(check_proc_addr_request(0, "xrEnumerateInstanceExtensionProperties"), XR_SUCCESS);
    assert_eq!(check_proc_addr_request(0, "xrLocateSpace"), XR_ERROR_HANDLE_INVALID);
    assert_eq!(check_proc_addr_request(42, "xrLocateSpace"), XR_SUCCESS);
}

#[test]
fn lookups_capture_and_substitute() {
    let mut layer = OpenXRLayer::new();
    assert_eq!(layer.resolve_proc_addr("xrLocateSpace", XR_SUCCESS, Some(0x1000)), ProcAddrOutcome::Substitute(EntryPoint::LocateSpace));
    assert_eq!(layer.real_function(EntryPoint::LocateSpace), Some(0x1000));
    assert_eq!(layer.resolve_proc_addr("xrPathToString", XR_SUCCESS, Some(0x2000)), ProcAddrOutcome::PassThrough);
    assert_eq!(layer.real_function(EntryPoint::PathToString), Some(0x2000));
    assert_eq!(layer.resolve_proc_addr("xrCreateActionSpace", -1, Some(0x3000)), ProcAddrOutcome::PassThrough);
    assert_eq!(layer.real_function(EntryPoint::CreateActionSpace), None);
    assert_eq!(layer.resolve_proc_addr("xrBeginFrame", XR_SUCCESS, Some(0x4000)), ProcAddrOutcome::PassThrough);
    assert_eq!(entry_point("xrBeginFrame"), None);
    assert_eq!(entry_point("xrGetSystemProperties"), Some(EntryPoint::GetSystemProperties));
}

#[test]
fn instance_is_recorded_on_success_only() {
    let mut layer = OpenXRLayer::new();
    assert_eq!(layer.create_api_layer_instance(-6, 5, 0x10), -6);
    assert_eq!(layer.instance(), None);
    assert_eq!(layer.create_api_layer_instance(XR_SUCCESS, 5, 0x10), XR_SUCCESS);
    assert_eq!(layer.instance(), Some(5));
    assert_eq!(layer.get_instance_proc_addr(), Some(0x10));
    assert_eq!(downstream_extension_count(3), Some(2));
    assert_eq!(downstream_extension_count(0), None);
}

#[test]
fn system_properties_chain_reports_gaze_support() {
    let layer = OpenXRLayer::new();
    let mut chain = vec![
        SystemPropertyBlock { ty: 5, supports_eye_gaze_interaction: false },
        SystemPropertyBlock { ty: XR_TYPE_SYSTEM_EYE_GAZE_INTERACTION_PROPERTIES_EXT, supports_eye_gaze_interaction: false },
        SystemPropertyBlock { ty: 1000, supports_eye_gaze_interaction: false },
    ];
    layer.get_system_properties(&mut chain);
    assert!(!chain[0].supports_eye_gaze_interaction);
    assert!(chain[1].supports_eye_gaze_interaction);
    assert!(!chain[2].supports_eye_gaze_interaction);
}

#[test]
fn path_names_are_read_up_to_the_terminator() {
    let layer = OpenXRLayer::new();
    let mut buffer = vec![0u8; 128];
    let name = b"/user/hand/left";
    buffer[..name.len()].copy_from_slice(name);
    let r = layer.path_to_string(&buffer, name.len() as u32 + 1);
    assert_eq!(r.as_deref(), Some("/user/hand/left"));
    assert_eq!(layer.path_to_string(&buffer, name.len() as u32), None);
    let mut bad = vec![0u8; 8];
    bad[0] = 0xff;
    assert_eq!(layer.path_to_string(&bad, 8), None);
    assert_eq!(layer.path_to_string(&vec![0u8; 4], 4).as_deref(), Some(""));
}

fn datagram(addr: &str, args: Vec<rosc::OscType>) -> Vec<u8> {
    rosc::encoder::encode(&rosc::OscPacket::Message(rosc::OscMessage { addr: addr.to_string(), args })).unwrap()
}

#[test]
fn pitch_yaw_datagram_is_a_gaze_sample() {
    let bytes = datagram("/tracking/eye/LeftRightPitchYaw", vec![Float(0.1), Float(0.2), Float(-0.1), Float(-0.2)]);
    assert_eq!(gaze_layer::feed::classify_datagram(&bytes), Some(GazePayload::PitchYaw));
}

#[test]
fn direction_vector_datagram_is_a_gaze_sample() {
    let args = vec![Float(0.0), Float(0.0), Float(1.0), Float(0.1), Float(0.0), Float(1.0)];
    let bytes = datagram("/tracking/eye/LeftRightVec", args);
    assert_eq!(gaze_layer::feed::classify_datagram(&bytes), Some(GazePayload::DirectionVectors));
}

#[test]
fn other_datagrams_are_dropped() {
    let wrong_kind = datagram("/tracking/eye/LeftRightPitchYaw", vec![Float(0.1), Int(2), Float(-0.1), Float(-0.2)]);
    assert_eq!(gaze_layer::feed::classify_datagram(&wrong_kind), None);
    let other = datagram("/avatar/parameters/x", vec![Float(0.1); 4]);
    assert_eq!(gaze_layer::feed::classify_datagram(&other), None);
    assert_eq!(gaze_layer::feed::classify_datagram(&[1, 2, 3]), None);
    assert_eq!(gaze_layer::feed::classify_datagram(&[]), None);
}
