use rust_webvr::mock::MockVRControlMsg;
use rust_webvr::mock::MockVRDisplay;
use rust_webvr::mock::MockVRService;
use rust_webvr::mock::MockVRState;
use rust_webvr::mock::MOCK_VSYNC_MILLIS;
use rust_webvr::model::VRDisplayEvent;
use rust_webvr::model::VREvent;
use rust_webvr::model::VREyeParameters;
use rust_webvr::model::VRFieldOfView;
use rust_webvr::model::VRFramebufferAttributes;
use rust_webvr::model::VRLayer;
use rust_webvr::model::VRStageParameters;
use rust_webvr::model::VRViewport;

fn singles<const N: usize>(values: [f32; N]) -> [u32; N] {
    let mut bits = [0u32; N];
    for i in 0..N {
        bits[i] = values[i].to_bits();
    }
    bits
}

#[test]
fn mock_state_reports_the_simulated_headset() {
    let state = MockVRState::with_timestamp(42, 1234.5f64.to_bits());
    let data = state.display_data();
    assert_eq!(data.display_name, "Mock VRDisplay");
    assert_eq!(data.display_id, 42);
    assert!(data.connected);
    assert!(data.capabilities.can_present);
    assert!(data.capabilities.has_orientation);
    assert!(data.capabilities.has_external_display);
    assert!(data.capabilities.has_position);
    assert!(!data.capabilities.presented_by_browser);
    assert_eq!(data.capabilities.max_layers, 0);

    let stage = data.stage_parameters.expect("the simulated headset has a stage");
    assert_eq!(
        stage.sitting_to_standing_transform,
        singles([
            -0.9317312, 0.0, 0.36314875, 0.0, 0.0, 0.99999994, 0.0, 0.0, -0.36314875, 0.0, -0.9317312, 0.0,
            0.23767996, 1.6813644, 0.45370483, 1.0
        ])
    );
    assert_eq!(stage.size_x, 2.0f32.to_bits());
    assert_eq!(stage.size_z, 2.0f32.to_bits());

    let left = &data.left_eye_parameters;
    assert_eq!(left.offset, singles([0.035949998, 0.0, 0.015]));
    assert_eq!(left.render_width, 1512);
    assert_eq!(left.render_height, 1680);
    assert_eq!(left.field_of_view.up_degrees, 55.82093048095703f64.to_bits());
    assert_eq!(left.field_of_view.right_degrees, 51.26948547363281f64.to_bits());
    assert_eq!(left.field_of_view.down_degrees, 55.707801818847656f64.to_bits());
    assert_eq!(left.field_of_view.left_degrees, 54.42263412475586f64.to_bits());

    let right = &data.right_eye_parameters;
    assert_eq!(right.offset, singles([-0.035949998, 0.0, 0.015]));
    assert_eq!(right.render_width, 1512);
    assert_eq!(right.render_height, 1680);
    assert_eq!(right.field_of_view.up_degrees, 55.898048400878906f64.to_bits());
    assert_eq!(right.field_of_view.right_degrees, 54.37410354614258f64.to_bits());
    assert_eq!(right.field_of_view.down_degrees, 55.614715576171875f64.to_bits());
    assert_eq!(right.field_of_view.left_degrees, 51.304901123046875f64.to_bits());

    assert!(state.events().is_empty());
}

#[test]
fn mock_state_reports_the_first_frame() {
    let state = MockVRState::with_timestamp(0, 1234.5f64.to_bits());
    let frame = state.frame_data();
    assert_eq!(f64::from_bits(frame.timestamp), 1234.5);
    assert_eq!(frame.pose.position, Some(singles([0.5, -0.7, -0.3])));
    assert_eq!(frame.pose.orientation, Some(singles([0.9385081, -0.08066622, -0.3347714, 0.024972256])));
    assert_eq!(frame.pose.linear_velocity, None);
    assert_eq!(frame.pose.linear_acceleration, None);
    assert_eq!(frame.pose.angular_velocity, None);
    assert_eq!(frame.pose.angular_acceleration, None);
    assert_eq!(
        frame.left_projection_matrix,
        singles([
            0.75620246, 0.0, 0.0, 0.0, 0.0, 0.68050665, 0.0, 0.0, -0.05713458, -0.0021225351, -1.0000999, -1.0,
            0.0, 0.0, -0.10000999, 0.0
        ])
    );
    assert_eq!(
        frame.left_view_matrix,
        singles([1.0, 0.0, 0.0, 0.0, 0.0, 1.0, 0.0, 0.0, 0.0, 0.0, 1.0, 0.0, -0.035949998, 0.0, 0.015, 1.0])
    );
    assert_eq!(
        frame.right_projection_matrix,
        singles([
            0.75646526, 0.0, 0.0, 0.0, 0.0, 0.68069947, 0.0, 0.0, 0.055611316, -0.005315368, -1.0000999, -1.0,
            0.0, 0.0, -0.10000999, 0.0
        ])
    );
    assert_eq!(
        frame.right_view_matrix,
        singles([1.0, 0.0, 0.0, 0.0, 0.0, 1.0, 0.0, 0.0, 0.0, 0.0, 1.0, 0.0, 0.035949998, 0.0, 0.015, 1.0])
    );
}

#[test]
fn new_state_keeps_its_identifier_and_stamps_the_frame_with_the_time() {
    let state = MockVRState::new(9);
    assert_eq!(state.display_data().display_id, 9);
    let stamp = f64::from_bits(state.frame_data().timestamp);
    // Milliseconds since 1970: later than the year 2001 and finite.
    assert!(stamp.is_finite());
    assert!(stamp > 1.0e12);
    let reference = MockVRState::with_timestamp(9, state.frame_data().timestamp);
    assert_eq!(state.frame_data(), reference.frame_data());
    assert_eq!(state.display_data(), reference.display_data());
}

#[test]
fn set_viewer_pose_changes_the_pose_and_raises_no_event() {
    let mut state = MockVRState::with_timestamp(1, 0);
    let before = *state.frame_data();
    let position = singles([1.0, 0.0, 0.0]);
    let orientation = singles([0.0, 0.0, 0.0, 1.0]);
    state.handle_msg(MockVRControlMsg::SetViewerPose(position, orientation));
    let after = state.frame_data();
    assert_eq!(after.pose.position, Some(position));
    assert_eq!(after.pose.orientation, Some(orientation));
    assert_eq!(after.left_projection_matrix, before.left_projection_matrix);
    assert_eq!(after.right_view_matrix, before.right_view_matrix);
    assert_eq!(after.timestamp, before.timestamp);
    assert!(state.events().is_empty());
}

fn sample_eye(width: u32) -> VREyeParameters {
    VREyeParameters {
        offset: singles([0.25, 0.5, -1.0]),
        render_width: width,
        render_height: 480,
        field_of_view: VRFieldOfView {
            up_degrees: 40.0f64.to_bits(),
            right_degrees: 41.0f64.to_bits(),
            down_degrees: 42.0f64.to_bits(),
            left_degrees: 43.0f64.to_bits(),
        },
    }
}

#[test]
fn set_eye_parameters_raises_a_change_with_the_new_data() {
    let mut state = MockVRState::with_timestamp(1, 0);
    state.handle_msg(MockVRControlMsg::SetEyeParameters(sample_eye(640), sample_eye(641)));
    assert_eq!(state.display_data().left_eye_parameters, sample_eye(640));
    assert_eq!(state.display_data().right_eye_parameters, sample_eye(641));
    assert_eq!(state.events().len(), 1);
    match &state.events()[0] {
        VREvent::Display(VRDisplayEvent::Change(data)) => {
            assert_eq!(data, state.display_data());
            assert_eq!(data.left_eye_parameters.render_width, 640);
        }
        other => panic!("unexpected event {:?}", other),
    }
}

#[test]
fn set_projection_matrices_changes_both_projections_only() {
    let mut state = MockVRState::with_timestamp(1, 0);
    let before = *state.frame_data();
    let left = singles([2.0; 16]);
    let right = singles([3.0; 16]);
    state.handle_msg(MockVRControlMsg::SetProjectionMatrices(left, right));
    assert_eq!(state.frame_data().left_projection_matrix, left);
    assert_eq!(state.frame_data().right_projection_matrix, right);
    assert_eq!(state.frame_data().left_view_matrix, before.left_view_matrix);
    assert_eq!(state.frame_data().pose, before.pose);
    assert!(state.events().is_empty());
}

#[test]
fn set_stage_parameters_raises_a_change_with_the_new_stage() {
    let mut state = MockVRState::with_timestamp(1, 0);
    let stage = VRStageParameters {
        sitting_to_standing_transform: singles([0.5; 16]),
        size_x: 3.0f32.to_bits(),
        size_z: 4.0f32.to_bits(),
    };
    state.handle_msg(MockVRControlMsg::SetStageParameters(stage));
    assert_eq!(state.display_data().stage_parameters, Some(stage));
    assert_eq!(state.events().len(), 1);
    match &state.events()[0] {
        VREvent::Display(VRDisplayEvent::Change(data)) => assert_eq!(data.stage_parameters, Some(stage)),
        other => panic!("unexpected event {:?}", other),
    }
}

#[test]
fn focus_and_blur_raise_their_events_in_order() {
    let mut state = MockVRState::with_timestamp(7, 0);
    let data_before = state.display_data().clone();
    state.handle_msg(MockVRControlMsg::Blur);
    state.handle_msg(MockVRControlMsg::Focus);
    assert_eq!(state.display_data(), &data_before);
    assert_eq!(
        state.events(),
        &vec![
            VREvent::Display(VRDisplayEvent::Blur(data_before.clone())),
            VREvent::Display(VRDisplayEvent::Focus(data_before.clone())),
        ]
    );
}

#[test]
fn events_are_delivered_once() {
    let mut display = MockVRDisplay::with_id(3, 0);
    display.state_handle().handle_msg(MockVRControlMsg::Focus);
    display.state_handle().handle_msg(MockVRControlMsg::Blur);
    let first = display.poll_events();
    assert_eq!(first.len(), 2);
    assert!(matches!(first[0], VREvent::Display(VRDisplayEvent::Focus(_))));
    assert!(matches!(first[1], VREvent::Display(VRDisplayEvent::Blur(_))));
    let second = display.poll_events();
    assert!(second.is_empty());
}

#[test]
fn display_identifiers_are_distinct() {
    let mut ids = Vec::new();
    for _ in 0..64 {
        let display = MockVRDisplay::new();
        assert_eq!(display.data().display_id, display.id());
        ids.push(display.id());
    }
    for i in 0..ids.len() {
        for j in 0..i {
            assert_ne!(ids[i], ids[j]);
        }
    }
}

#[test]
fn start_present_twice_is_start_present_once() {
    let multiview = VRFramebufferAttributes { multiview: true, depth: false, multisampling: false };
    let depth = VRFramebufferAttributes { multiview: false, depth: true, multisampling: true };

    let mut once = MockVRDisplay::with_id(1, 0);
    once.start_present(Some(multiview));
    let mut twice = MockVRDisplay::with_id(1, 0);
    twice.start_present(Some(multiview));
    twice.start_present(Some(depth));
    assert_eq!(once.get_framebuffers(), twice.get_framebuffers());
    assert_eq!(twice.get_framebuffers()[0].attributes, multiview);
    assert_eq!(once.data(), twice.data());
    assert_eq!(once.immediate_frame_data(0, 0), twice.immediate_frame_data(0, 0));

    let mut same = MockVRDisplay::with_id(1, 0);
    same.start_present(None);
    same.start_present(None);
    assert_eq!(same.get_framebuffers().len(), 2);
    assert_eq!(same.get_framebuffers()[0].attributes, VRFramebufferAttributes::default());
}

#[test]
fn stop_present_without_start_changes_nothing() {
    let mut display = MockVRDisplay::with_id(1, 0);
    let untouched = MockVRDisplay::with_id(1, 0);
    display.stop_present();
    assert_eq!(display.get_framebuffers(), untouched.get_framebuffers());
    assert!(display.get_framebuffers().is_empty());
    assert_eq!(display.data(), untouched.data());
    assert_eq!(display.immediate_frame_data(0, 0), untouched.immediate_frame_data(0, 0));
    assert!(display.poll_events().is_empty());
    // A session can still be opened afterwards, with its own attributes.
    let depth = VRFramebufferAttributes { multiview: false, depth: true, multisampling: false };
    display.start_present(Some(depth));
    assert_eq!(display.get_framebuffers()[1].attributes, depth);
}

#[test]
fn framebuffers_are_offered_only_while_presenting() {
    let mut display = MockVRDisplay::with_id(1, 0);
    assert!(display.get_framebuffers().is_empty());
    display.start_present(None);
    assert_eq!(display.get_framebuffers().len(), 2);
    display.stop_present();
    assert!(display.get_framebuffers().is_empty());
    display.stop_present();
    assert!(display.get_framebuffers().is_empty());
}

#[test]
fn attributes_of_a_session_survive_until_the_next_one() {
    let depth = VRFramebufferAttributes { multiview: false, depth: true, multisampling: false };
    let mut display = MockVRDisplay::with_id(1, 0);
    display.start_present(Some(depth));
    display.stop_present();
    display.start_present(None);
    assert_eq!(display.get_framebuffers()[0].attributes, depth);
}

fn overlap(a: &VRViewport, b: &VRViewport) -> bool {
    a.x < b.x + b.width && b.x < a.x + a.width && a.y < b.y + b.height && b.y < a.y + a.height
}

#[test]
fn simulated_backend_end_to_end() {
    let mut service = MockVRService::new();
    assert!(service.is_available());
    assert!(service.initialize().is_ok());
    let displays = service.fetch_displays().expect("the simulated service has a display");
    assert_eq!(displays.len(), 1);
    let id = displays[0];
    assert!(service.display(id).expect("the display is there").data().capabilities.can_present);
    assert!(service.display(id.wrapping_add(1)).is_none());
    assert!(service.fetch_gamepads().expect("no error").is_empty());

    let display = service.display_mut();
    display.start_present(None);
    let framebuffers = display.get_framebuffers();
    assert_eq!(framebuffers.len(), 2);
    assert_eq!(framebuffers[0].eye_index, 0);
    assert_eq!(framebuffers[1].eye_index, 1);
    assert_eq!(framebuffers[0].viewport, VRViewport::new(0, 0, 756, 1680));
    assert_eq!(framebuffers[1].viewport, VRViewport::new(756, 0, 756, 1680));
    assert!(!overlap(&framebuffers[0].viewport, &framebuffers[1].viewport));
    let data = display.data();
    assert_eq!(framebuffers[0].viewport.width as u32, data.left_eye_parameters.render_width / 2);
    assert_eq!(framebuffers[0].viewport.height as u32, data.left_eye_parameters.render_height);

    let position = singles([1.0, 0.0, 0.0]);
    let orientation = singles([0.0, 0.0, 0.0, 1.0]);
    display.state_handle().handle_msg(MockVRControlMsg::SetViewerPose(position, orientation));
    let frame = display.immediate_frame_data(0.1f64.to_bits(), 150.0f64.to_bits());
    assert_eq!(frame.pose.position, Some(position));
    assert_eq!(frame.pose.orientation, Some(orientation));
    assert_eq!(display.synced_frame_data(0.1f64.to_bits(), 150.0f64.to_bits()), frame);
    assert!(service.poll_events().is_empty());
}

#[test]
fn calls_without_effect_leave_the_display_alone() {
    let mut display = MockVRDisplay::with_id(5, 77);
    display.start_present(None);
    let frame = display.immediate_frame_data(0, 0);
    let data = display.data();
    display.reset_pose();
    assert_eq!(display.sync_poses(), MOCK_VSYNC_MILLIS);
    assert_eq!(MOCK_VSYNC_MILLIS, 1);
    display.bind_framebuffer(0);
    display.bind_framebuffer(7);
    display.render_layer(&VRLayer::default());
    display.submit_frame();
    assert_eq!(display.id(), 5);
    assert_eq!(display.immediate_frame_data(0, 0), frame);
    assert_eq!(display.data(), data);
    assert_eq!(display.get_framebuffers().len(), 2);
    assert!(display.fetch_gamepads().expect("no error").is_empty());
}

#[test]
fn service_hands_out_the_events_of_its_display() {
    let mut service = MockVRService::with_display(MockVRDisplay::with_id(11, 0));
    assert_eq!(service.display_id(), 11);
    assert_eq!(service.display_data().display_id, 11);
    service.display_mut().state_handle().handle_msg(MockVRControlMsg::Blur);
    let events = service.poll_events();
    assert_eq!(events.len(), 1);
    assert!(matches!(events[0], VREvent::Display(VRDisplayEvent::Blur(_))));
    assert!(service.poll_events().is_empty());
}
