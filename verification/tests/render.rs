use rust_webvr::mock::MockVRDisplay;
use rust_webvr::mock::MockVRState;
use rust_webvr::model::VRDisplayData;
use rust_webvr::model::VRDisplayEvent;
use rust_webvr::model::VREvent;
use rust_webvr::model::VRFramebuffer;
use rust_webvr::model::VRFramebufferAttributes;
use rust_webvr::model::VRGamepadEvent;
use rust_webvr::model::VRGamepadHand;
use rust_webvr::model::VRViewport;
use rust_webvr::render::first_hit;
use rust_webvr::render::gaze_target;
use rust_webvr::render::initial_standing_transform;
use rust_webvr::render::plan_frame;
use rust_webvr::render::refreshed_standing_transform;
use rust_webvr::render::resolve_views;
use rust_webvr::render::ConfigError;
use rust_webvr::render::EventCadence;
use rust_webvr::render::EyeViews;
use rust_webvr::render::GateAction;
use rust_webvr::render::PauseGate;
use rust_webvr::render::Program;
use rust_webvr::render::RenderConfig;
use rust_webvr::render::RenderStep;
use rust_webvr::render::DEFAULT_EYE_HEIGHT;
use rust_webvr::render::EVENT_POLL_INTERVAL;
use rust_webvr::render::PAUSE_SLEEP_MILLIS;
use rust_webvr::wire::matrix_to_uniform;
use rust_webvr::wire::vec_to_matrix;
use rust_webvr::wire::vec_to_translation;

fn config(test_pose: bool, direct_draw: bool, multiview: bool) -> RenderConfig {
    RenderConfig {
        near: 0.1f64.to_bits(),
        far: 150.0f64.to_bits(),
        width: 5.0f32.to_bits(),
        height: 3.0f32.to_bits(),
        depth: 5.5f32.to_bits(),
        test_pose,
        direct_draw,
        multiview,
    }
}

#[test]
fn multiview_needs_direct_draw() {
    assert_eq!(config(false, true, false).validate(), Ok(()));
    assert_eq!(config(false, true, true).validate(), Ok(()));
    assert_eq!(config(false, false, false).validate(), Ok(()));
    assert_eq!(config(true, false, true).validate(), Err(ConfigError::MultiviewWithoutDirectDraw));
}

#[test]
fn every_error_has_its_text() {
    assert_eq!(
        ConfigError::MultiviewWithoutDirectDraw.message(),
        "Configuration not supported: Multiview must use direct_draw."
    );
    assert_eq!(ConfigError::NoDisplay.message(), "No VRDisplays found");
    assert_eq!(ConfigError::NoFramebuffers.message(), "The display offers no framebuffer");
    assert_eq!(ConfigError::MultiviewUnsupported.message(), "Multiview not supported in this Device");
}

fn framebuffer(eye_index: u32, x: i32, multiview: bool) -> VRFramebuffer {
    VRFramebuffer {
        eye_index,
        attributes: VRFramebufferAttributes { multiview, depth: false, multisampling: false },
        viewport: VRViewport::new(x, 0, 756, 1680),
    }
}

#[test]
fn framebuffers_are_checked_against_the_configuration() {
    let none: Vec<VRFramebuffer> = Vec::new();
    let plain = vec![framebuffer(0, 0, false), framebuffer(1, 756, false)];
    let multi = vec![framebuffer(0, 0, true), framebuffer(1, 756, false)];
    assert_eq!(config(false, true, false).check_framebuffers(&none), Err(ConfigError::NoFramebuffers));
    assert_eq!(config(false, true, true).check_framebuffers(&none), Err(ConfigError::NoFramebuffers));
    assert_eq!(config(false, true, false).check_framebuffers(&plain), Ok(()));
    assert_eq!(config(false, true, true).check_framebuffers(&plain), Err(ConfigError::MultiviewUnsupported));
    assert_eq!(config(false, true, true).check_framebuffers(&multi), Ok(()));
}

#[test]
fn direct_draw_uses_the_viewports_of_the_device() {
    let mut display = MockVRDisplay::with_id(1, 0);
    display.start_present(None);
    let framebuffers = display.get_framebuffers();
    let (left, right) = config(false, true, false).eye_viewports(&framebuffers, 1512, 1680).expect("two surfaces");
    assert_eq!(left, VRViewport::new(0, 0, 756, 1680));
    assert_eq!(right, VRViewport::new(756, 0, 756, 1680));

    let single = vec![framebuffer(0, 33, false)];
    let (left, right) = config(false, true, false).eye_viewports(&single, 1, 1).expect("one surface");
    assert_eq!(left, right);
    assert_eq!(left.x, 33);
}

#[test]
fn a_texture_is_split_into_two_render_targets() {
    let framebuffers = vec![framebuffer(0, 10, false), framebuffer(1, 20, false)];
    let (left, right) = config(false, false, false).eye_viewports(&framebuffers, 1512, 1680).expect("split");
    assert_eq!(left, VRViewport::new(0, 0, 1512, 1680));
    assert_eq!(right, VRViewport::new(1512, 0, 1512, 1680));
    // Sizes beyond the range of the rectangle's numbers wrap as a cast does.
    let (left, right) = config(false, false, false).eye_viewports(&framebuffers, u32::MAX, 1 << 31).expect("split");
    assert_eq!(left, VRViewport::new(0, 0, -1, i32::MIN));
    assert_eq!(right, VRViewport::new(-1, 0, -1, i32::MIN));
}

#[test]
fn viewports_need_a_surface() {
    let none: Vec<VRFramebuffer> = Vec::new();
    assert_eq!(config(false, true, false).eye_viewports(&none, 1, 1), Err(ConfigError::NoFramebuffers));
    assert_eq!(config(false, false, false).eye_viewports(&none, 1, 1), Err(ConfigError::NoFramebuffers));
}

#[test]
fn standing_transform_comes_from_the_stage_or_from_the_default_height() {
    assert_eq!(f32::from_bits(DEFAULT_EYE_HEIGHT), 1.75);
    let state = MockVRState::with_timestamp(1, 0);
    let stage = state.display_data().stage_parameters;
    let from_stage = initial_standing_transform(&stage);
    assert_eq!(matrix_to_uniform(&from_stage), stage.expect("a stage").sitting_to_standing_transform);
    assert_eq!(refreshed_standing_transform(&stage), Some(from_stage));

    let lifted = initial_standing_transform(&None);
    assert_eq!(lifted, vec_to_translation(&[0.0f32, 1.75, 0.0].map(f32::to_bits)));
    assert_eq!(refreshed_standing_transform(&None), None);
}

#[test]
fn views_are_the_reported_matrices_unless_the_pose_is_asked_for() {
    let state = MockVRState::with_timestamp(1, 0);
    let frame = *state.frame_data();
    let data = state.display_data();
    assert_eq!(
        resolve_views(false, &frame, data),
        EyeViews::Reported {
            left: vec_to_matrix(&frame.left_view_matrix),
            right: vec_to_matrix(&frame.right_view_matrix),
        }
    );
    match resolve_views(true, &frame, data) {
        EyeViews::FromPose { rotation, position, left_eye_to_head, right_eye_to_head } => {
            assert_eq!(f32::from_bits(rotation.s), 0.024972256);
            assert_eq!(rotation.v.map(f32::from_bits), [0.9385081, -0.08066622, -0.3347714]);
            assert_eq!(position, Some(vec_to_translation(&[0.5f32, -0.7, -0.3].map(f32::to_bits))));
            assert_eq!(left_eye_to_head, vec_to_translation(&data.left_eye_parameters.offset));
            assert_eq!(right_eye_to_head, vec_to_translation(&data.right_eye_parameters.offset));
        }
        other => panic!("unexpected {:?}", other),
    }
}

#[test]
fn a_pose_without_parts_gives_no_rotation_and_no_position() {
    let mut frame = *MockVRState::with_timestamp(1, 0).frame_data();
    frame.pose.orientation = None;
    frame.pose.position = None;
    match resolve_views(true, &frame, &VRDisplayData::default()) {
        EyeViews::FromPose { rotation, position, left_eye_to_head, .. } => {
            assert_eq!(f32::from_bits(rotation.s), 1.0);
            assert_eq!(rotation.v.map(f32::from_bits), [0.0, 0.0, 0.0]);
            assert_eq!(position, None);
            assert_eq!(left_eye_to_head, vec_to_translation(&[0, 0, 0]));
        }
        other => panic!("unexpected {:?}", other),
    }
}

#[test]
fn the_first_plane_that_is_met_wins() {
    let near = [1u32, 2, 3];
    let far = [4u32, 5, 6];
    let fallback = [7u32, 8, 9];
    assert_eq!(first_hit(&vec![None, Some(far), Some(near)]), Some((1, far)));
    assert_eq!(gaze_target(&vec![None, Some(far), Some(near)], fallback), far);
    assert_eq!(first_hit(&vec![Some(near)]), Some((0, near)));
    assert_eq!(first_hit(&vec![None, None]), None);
    assert_eq!(gaze_target(&vec![None, None], fallback), fallback);
    assert_eq!(first_hit(&Vec::new()), None);
    assert_eq!(gaze_target(&Vec::new(), fallback), fallback);
}

fn left() -> VRViewport {
    VRViewport::new(0, 0, 756, 1680)
}

fn right() -> VRViewport {
    VRViewport::new(756, 0, 756, 1680)
}

#[test]
fn a_frame_drawn_into_the_device() {
    let steps = plan_frame(&config(false, true, false), left(), right(), &vec![false, true]);
    assert_eq!(
        steps,
        vec![
            RenderStep::BindEye(0),
            RenderStep::SetEyeUniforms { program: Program::Standard, eye: 0 },
            RenderStep::SetEyeUniforms { program: Program::ExternalTexture, eye: 0 },
            RenderStep::SetViewport(left()),
            RenderStep::Clear,
            RenderStep::Draw { mesh: 0, program: Program::Standard },
            RenderStep::Draw { mesh: 1, program: Program::ExternalTexture },
            RenderStep::BindEye(1),
            RenderStep::SetEyeUniforms { program: Program::Standard, eye: 1 },
            RenderStep::SetEyeUniforms { program: Program::ExternalTexture, eye: 1 },
            RenderStep::SetViewport(right()),
            RenderStep::Clear,
            RenderStep::Draw { mesh: 0, program: Program::Standard },
            RenderStep::Draw { mesh: 1, program: Program::ExternalTexture },
            RenderStep::SubmitFrame,
            RenderStep::Mirror,
        ]
    );
}

#[test]
fn a_frame_drawn_into_a_texture() {
    let steps = plan_frame(&config(false, false, false), left(), right(), &vec![true]);
    assert_eq!(
        steps,
        vec![
            RenderStep::BeginTexturePass,
            RenderStep::SetEyeUniforms { program: Program::Standard, eye: 0 },
            RenderStep::SetEyeUniforms { program: Program::ExternalTexture, eye: 0 },
            RenderStep::SetViewport(left()),
            RenderStep::Draw { mesh: 0, program: Program::ExternalTexture },
            RenderStep::SetEyeUniforms { program: Program::Standard, eye: 1 },
            RenderStep::SetEyeUniforms { program: Program::ExternalTexture, eye: 1 },
            RenderStep::SetViewport(right()),
            RenderStep::Draw { mesh: 0, program: Program::ExternalTexture },
            RenderStep::Flush,
            RenderStep::RenderLayer,
            RenderStep::SubmitFrame,
            RenderStep::Mirror,
        ]
    );
}

#[test]
fn one_pass_serves_both_eyes_with_multiview() {
    let steps = plan_frame(&config(false, true, true), left(), right(), &Vec::new());
    assert_eq!(
        steps,
        vec![
            RenderStep::BindEye(0),
            RenderStep::SetStereoUniforms { program: Program::Standard },
            RenderStep::SetStereoUniforms { program: Program::ExternalTexture },
            RenderStep::SetViewport(left()),
            RenderStep::Clear,
            RenderStep::SubmitFrame,
            RenderStep::Mirror,
        ]
    );
}

#[test]
fn events_are_due_every_hundredth_iteration() {
    assert_eq!(EVENT_POLL_INTERVAL, 100);
    let mut cadence = EventCadence::new();
    for iteration in 1..=1000u32 {
        assert_eq!(cadence.tick(), iteration % 100 == 0, "iteration {}", iteration);
    }
}

fn empty_data() -> VRDisplayData {
    VRDisplayData::default()
}

#[test]
fn the_last_pause_or_resume_decides() {
    assert_eq!(PAUSE_SLEEP_MILLIS, 5);
    let pause = VREvent::Display(VRDisplayEvent::Pause(1));
    let resume = VREvent::Display(VRDisplayEvent::Resume(1));
    let focus = VREvent::Display(VRDisplayEvent::Focus(empty_data()));
    let gamepad = VREvent::Gamepad(VRGamepadEvent::Connect(2, 1, VRGamepadHand::Left));

    let mut gate = PauseGate::new();
    assert_eq!(gate.observe(&Vec::new()), GateAction::Proceed);
    assert_eq!(gate.observe(&vec![focus.clone(), gamepad.clone()]), GateAction::Proceed);
    assert_eq!(gate.observe(&vec![pause.clone(), focus.clone()]), GateAction::Sleep(5));
    // Still paused while nothing ends the pause.
    assert_eq!(gate.observe(&Vec::new()), GateAction::Sleep(5));
    assert_eq!(gate.observe(&vec![gamepad.clone()]), GateAction::Sleep(5));
    assert_eq!(gate.observe(&vec![resume.clone()]), GateAction::Proceed);
    assert_eq!(gate.observe(&vec![pause.clone(), resume.clone()]), GateAction::Proceed);
    assert_eq!(gate.observe(&vec![resume.clone(), pause.clone()]), GateAction::Sleep(5));
    assert_eq!(gate.observe(&vec![resume, pause.clone(), VREvent::Display(VRDisplayEvent::Disconnect(1))]), GateAction::Sleep(5));
}
