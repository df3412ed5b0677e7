//! The simulated backend: a display with hand-authored data that needs no
//! hardware, steered from outside by control messages.

use vstd::prelude::*;
use vstd::string::StringExecFns;
use crate::model::Double;
use crate::model::Single;
use crate::model::VRDisplayCapabilities;
use crate::model::VRDisplayData;
use crate::model::VRDisplayDataView;
use crate::model::VRDisplayEvent;
use crate::model::VREvent;
use crate::model::VREyeParameters;
use crate::model::VRFieldOfView;
use crate::model::VRFrameData;
use crate::model::VRFramebuffer;
use crate::model::VRFramebufferAttributes;
use crate::model::VRLayer;
use crate::model::VRPose;
use crate::model::VRStageParameters;
use crate::model::VRViewport;
use crate::utils::timestamp;

verus! {

/// A message that changes what the simulated display reports.
#[derive(Copy, Clone, Debug, PartialEq, Eq)]
pub enum MockVRControlMsg {
    /// Put the viewer at a position, with an orientation given as x, y, z, w.
    SetViewerPose([Single; 3], [Single; 4]),
    /// Replace the parameters of the left and the right eye.
    SetEyeParameters(VREyeParameters, VREyeParameters),
    /// Replace the projection of the left and the right eye.
    SetProjectionMatrices([Single; 16], [Single; 16]),
    /// Give the display a play area.
    SetStageParameters(VRStageParameters),
    /// Report that presentation has resumed.
    Focus,
    /// Report that presentation was paused.
    Blur,
}

/// Everything the simulated display reports, and the events it has not delivered yet.
pub struct MockVRState {
    display_data: VRDisplayData,
    frame_data: VRFrameData,
    events: Vec<VREvent>,
}

/// The state of the simulated display as a value.
pub struct MockVRStateView {
    pub display_data: VRDisplayData,
    pub frame_data: VRFrameData,
    /// Oldest first.
    pub events: Seq<VREvent>,
}

impl MockVRStateView {
    /// The display data with both eyes replaced.
    pub open spec fn with_eyes(self, left: VREyeParameters, right: VREyeParameters) -> VRDisplayData {
        VRDisplayData { left_eye_parameters: left, right_eye_parameters: right, ..self.display_data }
    }

    /// The display data with the play area replaced.
    pub open spec fn with_stage(self, stage: VRStageParameters) -> VRDisplayData {
        VRDisplayData { stage_parameters: Some(stage), ..self.display_data }
    }

    /// The state with one more event waiting, which carries the current display data.
    pub open spec fn notify(self, event: VRDisplayEvent) -> MockVRStateView {
        MockVRStateView { events: self.events.push(VREvent::Display(event)), ..self }
    }

    /// The state after one control message.
    ///
    /// A new pose or new projections change the frame data and raise no event.
    /// New eye parameters or a new play area change the display data and raise
    /// a change event that carries the data as changed. Focus and blur change
    /// nothing and raise their event with the data as it is.
    pub open spec fn after(self, msg: MockVRControlMsg) -> MockVRStateView {
        match msg {
            MockVRControlMsg::SetViewerPose(position, orientation) => MockVRStateView {
                frame_data: VRFrameData {
                    pose: VRPose {
                        position: Some(position),
                        orientation: Some(orientation),
                        ..self.frame_data.pose
                    },
                    ..self.frame_data
                },
                ..self
            },
            MockVRControlMsg::SetEyeParameters(left, right) => MockVRStateView {
                display_data: self.with_eyes(left, right),
                ..self
            }.notify(VRDisplayEvent::Change(self.with_eyes(left, right))),
            MockVRControlMsg::SetProjectionMatrices(left, right) => MockVRStateView {
                frame_data: VRFrameData {
                    left_projection_matrix: left,
                    right_projection_matrix: right,
                    ..self.frame_data
                },
                ..self
            },
            MockVRControlMsg::SetStageParameters(stage) => MockVRStateView {
                display_data: self.with_stage(stage),
                ..self
            }.notify(VRDisplayEvent::Change(self.with_stage(stage))),
            MockVRControlMsg::Focus => self.notify(VRDisplayEvent::Focus(self.display_data)),
            MockVRControlMsg::Blur => self.notify(VRDisplayEvent::Blur(self.display_data)),
        }
    }
}

/// Eye parameters of the simulated headset: the left eye.
///
/// The eye sits at (0.035949998, 0, 0.015). Its field of view is
/// 55.82093048095703 degrees up, 51.26948547363281 right,
/// 55.707801818847656 down and 54.42263412475586 left.
pub open spec fn mock_left_eye() -> VREyeParameters {
    VREyeParameters {
        offset: [0x3D13404E, 0x00000000, 0x3C75C28F],
        render_width: 1512,
        render_height: 1680,
        field_of_view: VRFieldOfView {
            up_degrees: 0x404BE91440000000,
            right_degrees: 0x4049A27E80000000,
            down_degrees: 0x404BDA9940000000,
            left_degrees: 0x404B3618E0000000,
        },
    }
}

/// Eye parameters of the simulated headset: the right eye.
///
/// The eye sits at (-0.035949998, 0, 0.015). Its field of view is
/// 55.898048400878906 degrees up, 54.37410354614258 right,
/// 55.614715576171875 down and 51.304901123046875 left.
pub open spec fn mock_right_eye() -> VREyeParameters {
    VREyeParameters {
        offset: [0xBD13404E, 0x00000000, 0x3C75C28F],
        render_width: 1512,
        render_height: 1680,
        field_of_view: VRFieldOfView {
            up_degrees: 0x404BF2F340000000,
            right_degrees: 0x404B2FE2A0000000,
            down_degrees: 0x404BCEAF00000000,
            left_degrees: 0x4049A70700000000,
        },
    }
}

/// Play area of the simulated headset: two metres by two metres.
///
/// The columns of the transform from sitting to standing space are
/// (-0.9317312, 0, 0.36314875, 0), (0, 0.99999994, 0, 0),
/// (-0.36314875, 0, -0.9317312, 0) and (0.23767996, 1.6813644, 0.45370483, 1).
pub open spec fn mock_stage() -> VRStageParameters {
    VRStageParameters {
        sitting_to_standing_transform: [
            0xBF6E85F0, 0x00000000, 0x3EB9EEA2, 0x00000000,
            0x00000000, 0x3F7FFFFF, 0x00000000, 0x00000000,
            0xBEB9EEA2, 0x00000000, 0xBF6E85F0, 0x00000000,
            0x3E736260, 0x3FD736F3, 0x3EE84C00, 0x3F800000,
        ],
        size_x: 0x40000000,
        size_z: 0x40000000,
    }
}

/// What the simulated display says of itself when it is created.
pub open spec fn mock_display_data(display_id: u32) -> VRDisplayDataView {
    VRDisplayDataView {
        display_id,
        display_name: "Mock VRDisplay"@,
        connected: true,
        capabilities: VRDisplayCapabilities {
            has_position: true,
            has_orientation: true,
            has_external_display: true,
            can_present: true,
            presented_by_browser: false,
            max_layers: 0,
        },
        stage_parameters: Some(mock_stage()),
        left_eye_parameters: mock_left_eye(),
        right_eye_parameters: mock_right_eye(),
    }
}

/// The frame that the simulated display reports when it is created.
///
/// The viewer is at (0.5, -0.7, -0.3) with the orientation
/// (0.9385081, -0.08066622, -0.3347714, 0.024972256). The views are the
/// identity moved by (-0.035949998, 0, 0.015) for the left eye and by
/// (0.035949998, 0, 0.015) for the right eye. The projections are those
/// of the headset: columns (0.75620246, 0, 0, 0), (0, 0.68050665, 0, 0),
/// (-0.05713458, -0.0021225351, -1.0000999, -1), (0, 0, -0.10000999, 0) for
/// the left eye and (0.75646526, 0, 0, 0), (0, 0.68069947, 0, 0),
/// (0.055611316, -0.005315368, -1.0000999, -1), (0, 0, -0.10000999, 0) for
/// the right eye.
pub open spec fn mock_frame_data(timestamp: Double) -> VRFrameData {
    VRFrameData {
        timestamp,
        left_projection_matrix: [
            0x3F41967C, 0x00000000, 0x00000000, 0x00000000,
            0x00000000, 0x3F2E35AF, 0x00000000, 0x00000000,
            0xBD6A05F3, 0xBB0B1A3B, 0xBF800346, 0xBF800000,
            0x00000000, 0x00000000, 0xBDCCD20A, 0x00000000,
        ],
        left_view_matrix: [
            0x3F800000, 0x00000000, 0x00000000, 0x00000000,
            0x00000000, 0x3F800000, 0x00000000, 0x00000000,
            0x00000000, 0x00000000, 0x3F800000, 0x00000000,
            0xBD13404E, 0x00000000, 0x3C75C28F, 0x3F800000,
        ],
        right_projection_matrix: [
            0x3F41A7B5, 0x00000000, 0x00000000, 0x00000000,
            0x00000000, 0x3F2E4252, 0x00000000, 0x00000000,
            0x3D63C8B1, 0xBBAE2C8A, 0xBF800346, 0xBF800000,
            0x00000000, 0x00000000, 0xBDCCD20A, 0x00000000,
        ],
        right_view_matrix: [
            0x3F800000, 0x00000000, 0x00000000, 0x00000000,
            0x00000000, 0x3F800000, 0x00000000, 0x00000000,
            0x00000000, 0x00000000, 0x3F800000, 0x00000000,
            0x3D13404E, 0x00000000, 0x3C75C28F, 0x3F800000,
        ],
        pose: VRPose {
            position: Some([0x3F000000, 0xBF333333, 0xBE99999A]),
            orientation: Some([0x3F704211, 0xBDA53455, 0xBEAB6728, 0x3CCC929E]),
            ..VRPose::unknown()
        },
    }
}

impl View for MockVRState {
    type V = MockVRStateView;

    closed spec fn view(&self) -> MockVRStateView {
        MockVRStateView {
            display_data: self.display_data,
            frame_data: self.frame_data,
            events: self.events@,
        }
    }
}

impl MockVRState {
    /// The state of a display created at a given time: the data of the
    /// simulated headset under the given identifier, its first frame stamped
    /// with that time, and no event waiting.
    pub fn with_timestamp(display_id: u32, timestamp: Double) -> (state: MockVRState)
        ensures
            state@.display_data@ == mock_display_data(display_id),
            state@.frame_data == mock_frame_data(timestamp),
            state@.events == Seq::<VREvent>::empty(),
    {
        let mut display_data = VRDisplayData::default();

        display_data.display_name = String::from_str("Mock VRDisplay");
        display_data.display_id = display_id;
        display_data.connected = true;

        display_data.capabilities.can_present = true;
        display_data.capabilities.has_orientation = true;
        display_data.capabilities.has_external_display = true;
        display_data.capabilities.has_position = true;

        display_data.stage_parameters = Some(
            VRStageParameters {
                sitting_to_standing_transform: [
                    0xBF6E85F0, 0x00000000, 0x3EB9EEA2, 0x00000000,
                    0x00000000, 0x3F7FFFFF, 0x00000000, 0x00000000,
                    0xBEB9EEA2, 0x00000000, 0xBF6E85F0, 0x00000000,
                    0x3E736260, 0x3FD736F3, 0x3EE84C00, 0x3F800000,
                ],
                size_x: 0x40000000,
                size_z: 0x40000000,
            },
        );

        display_data.left_eye_parameters.offset = [0x3D13404E, 0x00000000, 0x3C75C28F];
        display_data.left_eye_parameters.render_width = 1512;
        display_data.left_eye_parameters.render_height = 1680;
        display_data.left_eye_parameters.field_of_view.up_degrees = 0x404BE91440000000;
        display_data.left_eye_parameters.field_of_view.right_degrees = 0x4049A27E80000000;
        display_data.left_eye_parameters.field_of_view.down_degrees = 0x404BDA9940000000;
        display_data.left_eye_parameters.field_of_view.left_degrees = 0x404B3618E0000000;

        display_data.right_eye_parameters.offset = [0xBD13404E, 0x00000000, 0x3C75C28F];
        display_data.right_eye_parameters.render_width = 1512;
        display_data.right_eye_parameters.render_height = 1680;
        display_data.right_eye_parameters.field_of_view.up_degrees = 0x404BF2F340000000;
        display_data.right_eye_parameters.field_of_view.right_degrees = 0x404B2FE2A0000000;
        display_data.right_eye_parameters.field_of_view.down_degrees = 0x404BCEAF00000000;
        display_data.right_eye_parameters.field_of_view.left_degrees = 0x4049A70700000000;

        let mut frame_data = VRFrameData::default();
        frame_data.pose.position = Some([0x3F000000, 0xBF333333, 0xBE99999A]);
        frame_data.pose.orientation = Some([0x3F704211, 0xBDA53455, 0xBEAB6728, 0x3CCC929E]);

        frame_data.left_projection_matrix = [
            0x3F41967C, 0x00000000, 0x00000000, 0x00000000,
            0x00000000, 0x3F2E35AF, 0x00000000, 0x00000000,
            0xBD6A05F3, 0xBB0B1A3B, 0xBF800346, 0xBF800000,
            0x00000000, 0x00000000, 0xBDCCD20A, 0x00000000,
        ];

        frame_data.left_view_matrix = [
            0x3F800000, 0x00000000, 0x00000000, 0x00000000,
            0x00000000, 0x3F800000, 0x00000000, 0x00000000,
            0x00000000, 0x00000000, 0x3F800000, 0x00000000,
            0xBD13404E, 0x00000000, 0x3C75C28F, 0x3F800000,
        ];

        frame_data.right_projection_matrix = [
            0x3F41A7B5, 0x00000000, 0x00000000, 0x00000000,
            0x00000000, 0x3F2E4252, 0x00000000, 0x00000000,
            0x3D63C8B1, 0xBBAE2C8A, 0xBF800346, 0xBF800000,
            0x00000000, 0x00000000, 0xBDCCD20A, 0x00000000,
        ];

        frame_data.right_view_matrix = [
            0x3F800000, 0x00000000, 0x00000000, 0x00000000,
            0x00000000, 0x3F800000, 0x00000000, 0x00000000,
            0x00000000, 0x00000000, 0x3F800000, 0x00000000,
            0x3D13404E, 0x00000000, 0x3C75C28F, 0x3F800000,
        ];

        frame_data.timestamp = timestamp;

        MockVRState { display_data, frame_data, events: Vec::new() }
    }

    /// The state of a display created now. The first frame is stamped with the
    /// current time; all else is as `with_timestamp` gives it.
    pub fn new(display_id: u32) -> (state: MockVRState)
        ensures
            state@.display_data@ == mock_display_data(display_id),
            state@.frame_data == mock_frame_data(state@.frame_data.timestamp),
            state@.events == Seq::<VREvent>::empty(),
    {
        let now = timestamp();
        MockVRState::with_timestamp(display_id, now)
    }

    /// The data that the display reports.
    pub fn display_data(&self) -> (data: &VRDisplayData)
        ensures
            *data == self@.display_data,
    {
        &self.display_data
    }

    /// The frame that the display reports.
    pub fn frame_data(&self) -> (frame: &VRFrameData)
        ensures
            *frame == self@.frame_data,
    {
        &self.frame_data
    }

    /// The events that wait to be delivered, oldest first.
    pub fn events(&self) -> (events: &Vec<VREvent>)
        ensures
            events@ == self@.events,
    {
        &self.events
    }

    /// Applies one control message.
    pub fn handle_msg(&mut self, msg: MockVRControlMsg)
        ensures
            final(self)@ == old(self)@.after(msg),
    {
        match msg {
            MockVRControlMsg::SetViewerPose(position, orientation) => {
                self.frame_data.pose.position = Some(position);
                self.frame_data.pose.orientation = Some(orientation);
            },
            MockVRControlMsg::SetEyeParameters(left, right) => {
                self.display_data.left_eye_parameters = left;
                self.display_data.right_eye_parameters = right;
                self.events.push(VREvent::Display(VRDisplayEvent::Change(self.display_data.clone())));
            },
            MockVRControlMsg::SetProjectionMatrices(left, right) => {
                self.frame_data.left_projection_matrix = left;
                self.frame_data.right_projection_matrix = right;
            },
            MockVRControlMsg::SetStageParameters(stage) => {
                self.display_data.stage_parameters = Some(stage);
                self.events.push(VREvent::Display(VRDisplayEvent::Change(self.display_data.clone())));
            },
            MockVRControlMsg::Focus => {
                self.events.push(VREvent::Display(VRDisplayEvent::Focus(self.display_data.clone())));
            },
            MockVRControlMsg::Blur => {
                self.events.push(VREvent::Display(VRDisplayEvent::Blur(self.display_data.clone())));
            },
        }
    }
}

/// What a display is does not change while it lives: no control message
/// changes its identifier, its name, whether it is connected or what it can
/// do. Nor does one change the time of the frame, and every event that
/// waited before the message waits after it, in the same place.
pub proof fn law_control_keeps_identity(state: MockVRStateView, msg: MockVRControlMsg)
    ensures
        state.after(msg).display_data.display_id == state.display_data.display_id,
        state.after(msg).display_data.display_name == state.display_data.display_name,
        state.after(msg).display_data.connected == state.display_data.connected,
        state.after(msg).display_data.capabilities == state.display_data.capabilities,
        state.after(msg).frame_data.timestamp == state.frame_data.timestamp,
        state.events.is_prefix_of(state.after(msg).events),
        state.after(msg).events.len() <= state.events.len() + 1,
{
}

/// Width in pixels of the surface that the simulated display offers to each eye.
pub const MOCK_EYE_WIDTH: i32 = 756;

/// Height in pixels of the surface that the simulated display offers to each eye.
pub const MOCK_EYE_HEIGHT: i32 = 1680;

/// Milliseconds that a caller waits after `sync_poses`, in place of a vertical sync.
pub const MOCK_VSYNC_MILLIS: u64 = 1;

/// The simulated display.
pub struct MockVRDisplay {
    display_id: u32,
    attributes: VRFramebufferAttributes,
    presenting: bool,
    state: MockVRState,
}

/// The simulated display as a value.
pub struct MockVRDisplayView {
    pub display_id: u32,
    /// How the surfaces of the current session, or of the next one, are set up.
    pub attributes: VRFramebufferAttributes,
    /// Whether a presentation session is open.
    pub presenting: bool,
    pub state: MockVRStateView,
}

impl MockVRDisplayView {
    /// The display after a request to start presenting.
    ///
    /// Outside a session this opens one, with the attributes given, or with
    /// those the display already had where none are given. Inside a session it
    /// changes nothing: the attributes of a session are fixed when it opens.
    pub open spec fn started(self, attributes: Option<VRFramebufferAttributes>) -> MockVRDisplayView {
        if self.presenting {
            self
        } else {
            MockVRDisplayView {
                presenting: true,
                attributes: match attributes {
                    Some(a) => a,
                    None => self.attributes,
                },
                ..self
            }
        }
    }

    /// The display after a request to stop presenting: no session is open.
    pub open spec fn stopped(self) -> MockVRDisplayView {
        MockVRDisplayView { presenting: false, ..self }
    }

    /// The surface for one eye: the left eye's picture takes the left half.
    pub open spec fn framebuffer(self, eye_index: u32) -> VRFramebuffer {
        VRFramebuffer {
            eye_index,
            attributes: self.attributes,
            viewport: VRViewport {
                x: if eye_index == 0 { 0 } else { MOCK_EYE_WIDTH },
                y: 0,
                width: MOCK_EYE_WIDTH,
                height: MOCK_EYE_HEIGHT,
            },
        }
    }

    /// The surfaces on offer: one for each eye, the left first, while a session is open; none otherwise.
    pub open spec fn framebuffers(self) -> Seq<VRFramebuffer> {
        if self.presenting {
            seq![self.framebuffer(0), self.framebuffer(1)]
        } else {
            Seq::empty()
        }
    }
}

impl View for MockVRDisplay {
    type V = MockVRDisplayView;

    closed spec fn view(&self) -> MockVRDisplayView {
        MockVRDisplayView {
            display_id: self.display_id,
            attributes: self.attributes,
            presenting: self.presenting,
            state: self.state@,
        }
    }
}

impl MockVRDisplay {
    /// A display under the given identifier, created at the given time:
    /// not presenting, with plain attributes.
    pub fn with_id(display_id: u32, timestamp: Double) -> (display: MockVRDisplay)
        ensures
            display@.display_id == display_id,
            display@.attributes == VRFramebufferAttributes::plain(),
            !display@.presenting,
            display@.state.display_data@ == mock_display_data(display_id),
            display@.state.frame_data == mock_frame_data(timestamp),
            display@.state.events == Seq::<VREvent>::empty(),
    {
        MockVRDisplay {
            display_id,
            attributes: VRFramebufferAttributes::default(),
            presenting: false,
            state: MockVRState::with_timestamp(display_id, timestamp),
        }
    }

    /// A display created now, under the next free identifier. Its data carry
    /// the identifier that the display itself reports.
    pub fn new() -> (display: MockVRDisplay)
        ensures
            display@.attributes == VRFramebufferAttributes::plain(),
            !display@.presenting,
            display@.state.display_data@ == mock_display_data(display@.display_id),
            display@.state.frame_data == mock_frame_data(display@.state.frame_data.timestamp),
            display@.state.events == Seq::<VREvent>::empty(),
    {
        let display_id = rust_webvr_api::utils::new_id();
        MockVRDisplay {
            display_id,
            attributes: VRFramebufferAttributes::default(),
            presenting: false,
            state: MockVRState::new(display_id),
        }
    }

    /// The state behind the display, for control messages.
    pub fn state_handle(&mut self) -> (state: &mut MockVRState)
        ensures
            state@ == old(self)@.state,
            final(self)@ == (MockVRDisplayView { state: final(state)@, ..old(self)@ }),
    {
        &mut self.state
    }

    /// Hands out the events that wait, oldest first, and forgets them.
    pub fn poll_events(&mut self) -> (events: Vec<VREvent>)
        ensures
            events@ == old(self)@.state.events,
            final(self)@ == (MockVRDisplayView {
                state: MockVRStateView { events: Seq::empty(), ..old(self)@.state },
                ..old(self)@
            }),
    {
        let mut events = Vec::new();
        std::mem::swap(&mut self.state.events, &mut events);
        events
    }

    /// The identifier of the display.
    pub fn id(&self) -> (id: u32)
        ensures
            id == self@.display_id,
    {
        self.display_id
    }

    /// A copy of the display's data.
    pub fn data(&self) -> (data: VRDisplayData)
        ensures
            data == self@.state.display_data,
    {
        self.state.display_data.clone()
    }

    /// The latest frame. The clip distances do not matter to this display.
    pub fn immediate_frame_data(&self, near_z: Double, far_z: Double) -> (frame: VRFrameData)
        ensures
            frame == self@.state.frame_data,
    {
        self.state.frame_data
    }

    /// The frame to render next. This display has no sampling step of its own,
    /// so this is the latest frame.
    pub fn synced_frame_data(&self, near_z: Double, far_z: Double) -> (frame: VRFrameData)
        ensures
            frame == self@.state.frame_data,
    {
        self.immediate_frame_data(near_z, far_z)
    }

    /// Does nothing: the simulated pose is set by control messages only.
    pub fn reset_pose(&mut self)
        ensures
            final(self)@ == old(self)@,
    {
    }

    /// Leaves the display as it is and says how many milliseconds the caller
    /// is to wait, which stands for the wait for a vertical sync.
    pub fn sync_poses(&mut self) -> (wait_millis: u64)
        ensures
            final(self)@ == old(self)@,
            wait_millis == MOCK_VSYNC_MILLIS,
    {
        MOCK_VSYNC_MILLIS
    }

    /// Does nothing, inside a session and outside one: there is no surface to bind.
    pub fn bind_framebuffer(&mut self, index: u32)
        ensures
            final(self)@ == old(self)@,
    {
    }

    /// The surfaces to render to.
    pub fn get_framebuffers(&self) -> (framebuffers: Vec<VRFramebuffer>)
        ensures
            framebuffers@ == self@.framebuffers(),
    {
        let mut framebuffers = Vec::new();
        if self.presenting {
            framebuffers.push(
                VRFramebuffer {
                    eye_index: 0,
                    attributes: self.attributes,
                    viewport: VRViewport::new(0, 0, 1512 / 2, 1680),
                },
            );
            framebuffers.push(
                VRFramebuffer {
                    eye_index: 1,
                    attributes: self.attributes,
                    viewport: VRViewport::new(1512 / 2, 0, 1512 / 2, 1680),
                },
            );
        }
        framebuffers
    }

    /// Does nothing: the simulated display shows no picture.
    pub fn render_layer(&mut self, layer: &VRLayer)
        ensures
            final(self)@ == old(self)@,
    {
    }

    /// The identifiers of the gamepads of this display: it has none.
    pub fn fetch_gamepads(&mut self) -> (gamepads: Result<Vec<u32>, String>)
        ensures
            final(self)@ == old(self)@,
            gamepads matches Ok(ids) && ids@ == Seq::<u32>::empty(),
    {
        Ok(Vec::new())
    }

    /// Does nothing: the simulated display shows no picture.
    pub fn submit_frame(&mut self)
        ensures
            final(self)@ == old(self)@,
    {
    }

    /// Opens a presentation session, unless one is open.
    pub fn start_present(&mut self, attributes: Option<VRFramebufferAttributes>)
        ensures
            final(self)@ == old(self)@.started(attributes),
    {
        if !self.presenting {
            if let Some(attributes) = attributes {
                self.attributes = attributes;
            }
            self.presenting = true;
        }
    }

    /// Closes the presentation session, if one is open.
    pub fn stop_present(&mut self)
        ensures
            final(self)@ == old(self)@.stopped(),
    {
        self.presenting = false;
    }
}

/// Starting a presentation twice in a row leaves the display as starting it once does.
pub proof fn law_start_present_idempotent(
    display: MockVRDisplayView,
    first: Option<VRFramebufferAttributes>,
    second: Option<VRFramebufferAttributes>,
)
    ensures
        display.started(first).started(second) == display.started(first),
{
}

/// Stopping a presentation that was never started changes nothing, and
/// stopping twice is as stopping once.
pub proof fn law_stop_present_idempotent(display: MockVRDisplayView)
    ensures
        !display.presenting ==> display.stopped() == display,
        display.stopped().stopped() == display.stopped(),
{
}

/// While a session is open the display offers two surfaces, the left eye's
/// first, each as wide and as high as one eye's share, and no pixel belongs
/// to both. Outside a session it offers none.
pub proof fn law_framebuffers_partition(display: MockVRDisplayView)
    ensures
        display.presenting ==> {
            let offered = display.framebuffers();
            &&& offered.len() == 2
            &&& offered[0].eye_index == 0
            &&& offered[1].eye_index == 1
            &&& offered[0].viewport.width == MOCK_EYE_WIDTH
            &&& offered[1].viewport.width == MOCK_EYE_WIDTH
            &&& offered[0].viewport.height == MOCK_EYE_HEIGHT
            &&& offered[1].viewport.height == MOCK_EYE_HEIGHT
            &&& offered[0].viewport.disjoint(offered[1].viewport)
        },
        !display.presenting ==> display.framebuffers().len() == 0,
{
}

/// The simulated service: it knows one simulated display.
pub struct MockVRService {
    display: MockVRDisplay,
}

impl View for MockVRService {
    type V = MockVRDisplayView;

    /// The service is its one display.
    closed spec fn view(&self) -> MockVRDisplayView {
        self.display@
    }
}

impl MockVRService {
    /// A service with a display created now, under the next free identifier.
    pub fn new() -> (service: MockVRService)
        ensures
            service@.attributes == VRFramebufferAttributes::plain(),
            !service@.presenting,
            service@.state.display_data@ == mock_display_data(service@.display_id),
            service@.state.frame_data == mock_frame_data(service@.state.frame_data.timestamp),
            service@.state.events == Seq::<VREvent>::empty(),
    {
        MockVRService { display: MockVRDisplay::new() }
    }

    /// A service around a given display.
    pub fn with_display(display: MockVRDisplay) -> (service: MockVRService)
        ensures
            service@ == display@,
    {
        MockVRService { display }
    }

    /// Nothing is left to set up: always succeeds and changes nothing.
    pub fn initialize(&mut self) -> (done: Result<(), String>)
        ensures
            done == Ok::<(), String>(()),
            final(self)@ == old(self)@,
    {
        Ok(())
    }

    /// The identifiers of the displays of this service: that of its one display.
    pub fn fetch_displays(&mut self) -> (displays: Result<Vec<u32>, String>)
        ensures
            final(self)@ == old(self)@,
            displays is Ok,
            displays->Ok_0@ == seq![old(self)@.display_id],
    {
        let mut displays = Vec::new();
        displays.push(self.display.id());
        Ok(displays)
    }

    /// The identifiers of the gamepads of this service: it has none.
    pub fn fetch_gamepads(&mut self) -> (gamepads: Result<Vec<u32>, String>)
        ensures
            final(self)@ == old(self)@,
            gamepads is Ok,
            gamepads->Ok_0@ == Seq::<u32>::empty(),
    {
        self.display.fetch_gamepads()
    }

    /// The simulated service is always there.
    pub fn is_available(&self) -> (available: bool)
        ensures
            available,
    {
        true
    }

    /// Hands out the events of the display that wait, oldest first, and forgets them.
    pub fn poll_events(&mut self) -> (events: Vec<VREvent>)
        ensures
            events@ == old(self)@.state.events,
            final(self)@ == (MockVRDisplayView {
                state: MockVRStateView { events: Seq::empty(), ..old(self)@.state },
                ..old(self)@
            }),
    {
        self.display.poll_events()
    }

    /// The display under an identifier, if it is this service's.
    pub fn display(&self, display_id: u32) -> (display: Option<&MockVRDisplay>)
        ensures
            display_id == self@.display_id ==> display is Some && display->Some_0@ == self@,
            display_id != self@.display_id ==> display is None,
    {
        if self.display.id() == display_id {
            Some(&self.display)
        } else {
            None
        }
    }

    /// The identifier of the service's display.
    pub fn display_id(&self) -> (id: u32)
        ensures
            id == self@.display_id,
    {
        self.display.id()
    }

    /// A copy of the data of the service's display.
    pub fn display_data(&self) -> (data: VRDisplayData)
        ensures
            data == self@.state.display_data,
    {
        self.display.data()
    }

    /// The service's display, to steer it and to present on it.
    pub fn display_mut(&mut self) -> (display: &mut MockVRDisplay)
        ensures
            display@ == old(self)@,
            final(self)@ == final(display)@,
    {
        &mut self.display
    }
}

} // verus!
