//! The frame snapshot model: what a display is, what it can do, and what one
//! frame of tracking data holds.
//!
//! All of these are values. A reader gets a copy and nobody shares mutable
//! state through them.

use vstd::prelude::*;

verus! {

/// Bit pattern of an IEEE-754 single-precision number.
pub type Single = u32;

/// Bit pattern of an IEEE-754 double-precision number.
pub type Double = u64;

/// Positive zero in single precision.
pub const ZERO: Single = 0;

/// One in single precision.
pub const ONE: Single = 0x3F80_0000;

/// One half in single precision.
pub const HALF: Single = 0x3F00_0000;

/// The 4×4 identity, column-major.
pub open spec fn identity_matrix() -> [Single; 16] {
    [ONE, ZERO, ZERO, ZERO, ZERO, ONE, ZERO, ZERO, ZERO, ZERO, ONE, ZERO, ZERO, ZERO, ZERO, ONE]
}

/// The 4×4 identity, column-major.
pub fn identity() -> (m: [Single; 16])
    ensures
        m == identity_matrix(),
{
    [ONE, ZERO, ZERO, ZERO, ZERO, ONE, ZERO, ZERO, ZERO, ZERO, ONE, ZERO, ZERO, ZERO, ZERO, ONE]
}

/// What a display can do. Fixed when the display is discovered.
#[derive(Copy, Clone, Debug, PartialEq, Eq, Structural)]
pub struct VRDisplayCapabilities {
    /// The display tracks its position.
    pub has_position: bool,
    /// The display tracks its orientation.
    pub has_orientation: bool,
    /// The display is separate from the primary screen.
    pub has_external_display: bool,
    /// The display can present content to a headset.
    pub can_present: bool,
    /// The display expects its host to present the content.
    pub presented_by_browser: bool,
    /// How many layers a presentation request may carry.
    pub max_layers: u64,
}

impl VRDisplayCapabilities {
    /// A display that can do nothing.
    pub open spec fn none() -> VRDisplayCapabilities {
        VRDisplayCapabilities {
            has_position: false,
            has_orientation: false,
            has_external_display: false,
            can_present: false,
            presented_by_browser: false,
            max_layers: 0,
        }
    }
}

impl Default for VRDisplayCapabilities {
    fn default() -> (r: VRDisplayCapabilities)
        ensures
            r == VRDisplayCapabilities::none(),
    {
        VRDisplayCapabilities {
            has_position: false,
            has_orientation: false,
            has_external_display: false,
            can_present: false,
            presented_by_browser: false,
            max_layers: 0,
        }
    }
}

/// A field of view as four angles in degrees from the centre of view.
#[derive(Copy, Clone, Debug, PartialEq, Eq, Structural)]
pub struct VRFieldOfView {
    pub up_degrees: Double,
    pub right_degrees: Double,
    pub down_degrees: Double,
    pub left_degrees: Double,
}

impl VRFieldOfView {
    /// All four angles zero.
    pub open spec fn zero() -> VRFieldOfView {
        VRFieldOfView { up_degrees: 0, right_degrees: 0, down_degrees: 0, left_degrees: 0 }
    }
}

impl Default for VRFieldOfView {
    fn default() -> (r: VRFieldOfView)
        ensures
            r == VRFieldOfView::zero(),
    {
        VRFieldOfView { up_degrees: 0, right_degrees: 0, down_degrees: 0, left_degrees: 0 }
    }
}

/// Everything needed to render the scene for one eye.
#[derive(Copy, Clone, Debug, PartialEq, Eq)]
pub struct VREyeParameters {
    /// Offset of the eye from the point between the eyes, in metres.
    pub offset: [Single; 3],
    /// Recommended width of the eye's render target, in pixels.
    pub render_width: u32,
    /// Recommended height of the eye's render target, in pixels.
    pub render_height: u32,
    /// The eye's field of view.
    pub field_of_view: VRFieldOfView,
}

impl VREyeParameters {
    /// No offset, an empty render target and a zero field of view.
    pub open spec fn zero() -> VREyeParameters {
        VREyeParameters {
            offset: [ZERO, ZERO, ZERO],
            render_width: 0,
            render_height: 0,
            field_of_view: VRFieldOfView::zero(),
        }
    }
}

impl Default for VREyeParameters {
    fn default() -> (r: VREyeParameters)
        ensures
            r == VREyeParameters::zero(),
    {
        VREyeParameters {
            offset: [ZERO, ZERO, ZERO],
            render_width: 0,
            render_height: 0,
            field_of_view: VRFieldOfView::default(),
        }
    }
}

/// The play area of a display that supports room-scale use.
#[derive(Copy, Clone, Debug, PartialEq, Eq)]
pub struct VRStageParameters {
    /// Column-major transform from sitting space to standing space.
    pub sitting_to_standing_transform: [Single; 16],
    /// Width of the play area in metres.
    pub size_x: Single,
    /// Depth of the play area in metres.
    pub size_z: Single,
}

/// A snapshot of one display.
#[derive(Debug, PartialEq, Eq)]
pub struct VRDisplayData {
    /// Identifier of the display, stable while the process lives.
    pub display_id: u32,
    /// Name for people to read.
    pub display_name: String,
    /// Whether the display is connected.
    pub connected: bool,
    pub capabilities: VRDisplayCapabilities,
    /// Present only where the display knows its play area.
    pub stage_parameters: Option<VRStageParameters>,
    pub left_eye_parameters: VREyeParameters,
    pub right_eye_parameters: VREyeParameters,
}

/// What a display snapshot says, with the name as the sequence of its characters.
pub struct VRDisplayDataView {
    pub display_id: u32,
    pub display_name: Seq<char>,
    pub connected: bool,
    pub capabilities: VRDisplayCapabilities,
    pub stage_parameters: Option<VRStageParameters>,
    pub left_eye_parameters: VREyeParameters,
    pub right_eye_parameters: VREyeParameters,
}

impl View for VRDisplayData {
    type V = VRDisplayDataView;

    open spec fn view(&self) -> VRDisplayDataView {
        VRDisplayDataView {
            display_id: self.display_id,
            display_name: self.display_name@,
            connected: self.connected,
            capabilities: self.capabilities,
            stage_parameters: self.stage_parameters,
            left_eye_parameters: self.left_eye_parameters,
            right_eye_parameters: self.right_eye_parameters,
        }
    }
}

impl VRDisplayData {
    /// A disconnected display without a name that can do nothing.
    pub open spec fn empty() -> VRDisplayDataView {
        VRDisplayDataView {
            display_id: 0,
            display_name: Seq::empty(),
            connected: false,
            capabilities: VRDisplayCapabilities::none(),
            stage_parameters: None,
            left_eye_parameters: VREyeParameters::zero(),
            right_eye_parameters: VREyeParameters::zero(),
        }
    }
}

impl Default for VRDisplayData {
    fn default() -> (r: VRDisplayData)
        ensures
            r@ == VRDisplayData::empty(),
    {
        VRDisplayData {
            display_id: 0,
            display_name: String::new(),
            connected: false,
            capabilities: VRDisplayCapabilities::default(),
            stage_parameters: None,
            left_eye_parameters: VREyeParameters::default(),
            right_eye_parameters: VREyeParameters::default(),
        }
    }
}

impl Clone for VRDisplayData {
    fn clone(&self) -> (r: VRDisplayData)
        ensures
            r == *self,
    {
        VRDisplayData {
            display_id: self.display_id,
            display_name: self.display_name.clone(),
            connected: self.connected,
            capabilities: self.capabilities,
            stage_parameters: self.stage_parameters,
            left_eye_parameters: self.left_eye_parameters,
            right_eye_parameters: self.right_eye_parameters,
        }
    }
}

/// The state of a sensor at one instant. A part the sensor cannot report is `None`.
#[derive(Copy, Clone, Debug, PartialEq, Eq)]
pub struct VRPose {
    /// Position as a vector.
    pub position: Option<[Single; 3]>,
    /// Linear velocity in metres per second.
    pub linear_velocity: Option<[Single; 3]>,
    /// Linear acceleration in metres per second squared.
    pub linear_acceleration: Option<[Single; 3]>,
    /// Orientation as a quaternion in the order x, y, z, w.
    pub orientation: Option<[Single; 4]>,
    /// Angular velocity in radians per second.
    pub angular_velocity: Option<[Single; 3]>,
    /// Angular acceleration in radians per second squared.
    pub angular_acceleration: Option<[Single; 3]>,
}

impl VRPose {
    /// The pose of a sensor that reports nothing.
    pub open spec fn unknown() -> VRPose {
        VRPose {
            position: None,
            linear_velocity: None,
            linear_acceleration: None,
            orientation: None,
            angular_velocity: None,
            angular_acceleration: None,
        }
    }
}

impl Default for VRPose {
    fn default() -> (r: VRPose)
        ensures
            r == VRPose::unknown(),
    {
        VRPose {
            position: None,
            linear_velocity: None,
            linear_acceleration: None,
            orientation: None,
            angular_velocity: None,
            angular_acceleration: None,
        }
    }
}

/// Everything needed to render one frame of a scene.
#[derive(Copy, Clone, Debug, PartialEq, Eq)]
pub struct VRFrameData {
    /// Time of the tracking sample in milliseconds. Never decreases from one frame to the next.
    pub timestamp: Double,
    /// Column-major projection for the left eye.
    pub left_projection_matrix: [Single; 16],
    /// Column-major view transform for the left eye.
    pub left_view_matrix: [Single; 16],
    /// Column-major projection for the right eye.
    pub right_projection_matrix: [Single; 16],
    /// Column-major view transform for the right eye.
    pub right_view_matrix: [Single; 16],
    /// Predicted pose of the display when the frame is shown.
    pub pose: VRPose,
}

impl VRFrameData {
    /// Time zero, four identity matrices and an unknown pose.
    pub open spec fn blank() -> VRFrameData {
        VRFrameData {
            timestamp: 0,
            left_projection_matrix: identity_matrix(),
            left_view_matrix: identity_matrix(),
            right_projection_matrix: identity_matrix(),
            right_view_matrix: identity_matrix(),
            pose: VRPose::unknown(),
        }
    }
}

impl Default for VRFrameData {
    fn default() -> (r: VRFrameData)
        ensures
            r == VRFrameData::blank(),
    {
        VRFrameData {
            timestamp: 0,
            left_projection_matrix: identity(),
            left_view_matrix: identity(),
            right_projection_matrix: identity(),
            right_view_matrix: identity(),
            pose: VRPose::default(),
        }
    }
}

/// A rectangle in device pixels.
#[derive(Copy, Clone, Debug, PartialEq, Eq, Structural)]
pub struct VRViewport {
    pub x: i32,
    pub y: i32,
    pub width: i32,
    pub height: i32,
}

impl VRViewport {
    pub fn new(x: i32, y: i32, width: i32, height: i32) -> (r: VRViewport)
        ensures
            r == (VRViewport { x, y, width, height }),
    {
        VRViewport { x, y, width, height }
    }

    /// The pixels of the rectangle: column `px`, row `py`.
    pub open spec fn covers(self, px: int, py: int) -> bool {
        &&& self.x <= px < self.x + self.width
        &&& self.y <= py < self.y + self.height
    }

    /// No pixel lies in both rectangles.
    pub open spec fn disjoint(self, other: VRViewport) -> bool {
        forall|px: int, py: int| !(#[trigger] self.covers(px, py) && other.covers(px, py))
    }
}

/// How the surfaces of a presentation session are set up.
#[derive(Copy, Clone, Debug, PartialEq, Eq, Structural)]
pub struct VRFramebufferAttributes {
    pub multiview: bool,
    pub depth: bool,
    pub multisampling: bool,
}

impl VRFramebufferAttributes {
    /// Single view, no depth buffer, no multisampling.
    pub open spec fn plain() -> VRFramebufferAttributes {
        VRFramebufferAttributes { multiview: false, depth: false, multisampling: false }
    }
}

impl Default for VRFramebufferAttributes {
    fn default() -> (r: VRFramebufferAttributes)
        ensures
            r == VRFramebufferAttributes::plain(),
    {
        VRFramebufferAttributes { multiview: false, depth: false, multisampling: false }
    }
}

/// A surface that a display offers for one eye while it presents.
#[derive(Copy, Clone, Debug, PartialEq, Eq, Structural)]
pub struct VRFramebuffer {
    /// Zero for the left eye, one for the right.
    pub eye_index: u32,
    pub attributes: VRFramebufferAttributes,
    /// Where on the surface the eye's picture goes.
    pub viewport: VRViewport,
}

/// A texture handed to a display for presentation.
#[derive(Copy, Clone, Debug, PartialEq, Eq)]
pub struct VRLayer {
    /// The texture that holds the rendered frame.
    pub texture_id: u32,
    /// Part of the texture for the left eye as x, y, width, height in texture space.
    pub left_bounds: [Single; 4],
    /// Part of the texture for the right eye as x, y, width, height in texture space.
    pub right_bounds: [Single; 4],
    /// Size of the texture, where known.
    pub texture_size: Option<(u32, u32)>,
}

impl VRLayer {
    /// Texture zero, split down the middle: the left half for the left eye.
    pub open spec fn split() -> VRLayer {
        VRLayer {
            texture_id: 0,
            left_bounds: [ZERO, ZERO, HALF, ONE],
            right_bounds: [HALF, ZERO, HALF, ONE],
            texture_size: None,
        }
    }
}

impl Default for VRLayer {
    fn default() -> (r: VRLayer)
        ensures
            r == VRLayer::split(),
    {
        VRLayer {
            texture_id: 0,
            left_bounds: [ZERO, ZERO, HALF, ONE],
            right_bounds: [HALF, ZERO, HALF, ONE],
            texture_size: None,
        }
    }
}

/// Something that happened to a display. The payload is the display's
/// snapshot where it is still there to give one, else its identifier.
#[derive(Debug, PartialEq, Eq)]
pub enum VRDisplayEvent {
    /// A display was connected.
    Connect(VRDisplayData),
    /// The display with this identifier was disconnected.
    Disconnect(u32),
    /// Presentation went on after a blur.
    Focus(VRDisplayData),
    /// Presentation was paused by the host or the hardware.
    Blur(VRDisplayData),
    /// The render loop of this display must pause.
    Pause(u32),
    /// The render loop of this display may go on.
    Resume(u32),
    /// Some of the display's data changed; the payload is the new data.
    Change(VRDisplayData),
}

/// Which hand holds a gamepad.
#[derive(Copy, Clone, Debug, PartialEq, Eq, Structural)]
pub enum VRGamepadHand {
    Unknown,
    Left,
    Right,
}

/// Something that happened to a gamepad.
#[derive(Copy, Clone, Debug, PartialEq, Eq)]
pub enum VRGamepadEvent {
    /// A gamepad was connected: its identifier, its display and the hand that holds it.
    Connect(u32, u32, VRGamepadHand),
    /// The gamepad with this identifier was disconnected.
    Disconnect(u32),
}

/// An event of a backend. Each is delivered once.
#[derive(Debug, PartialEq, Eq)]
pub enum VREvent {
    Display(VRDisplayEvent),
    Gamepad(VRGamepadEvent),
}

impl Clone for VRDisplayEvent {
    fn clone(&self) -> (r: VRDisplayEvent)
        ensures
            r == *self,
    {
        match self {
            VRDisplayEvent::Connect(data) => VRDisplayEvent::Connect(data.clone()),
            VRDisplayEvent::Disconnect(id) => VRDisplayEvent::Disconnect(*id),
            VRDisplayEvent::Focus(data) => VRDisplayEvent::Focus(data.clone()),
            VRDisplayEvent::Blur(data) => VRDisplayEvent::Blur(data.clone()),
            VRDisplayEvent::Pause(id) => VRDisplayEvent::Pause(*id),
            VRDisplayEvent::Resume(id) => VRDisplayEvent::Resume(*id),
            VRDisplayEvent::Change(data) => VRDisplayEvent::Change(data.clone()),
        }
    }
}

impl Clone for VREvent {
    fn clone(&self) -> (r: VREvent)
        ensures
            r == *self,
    {
        match self {
            VREvent::Display(event) => VREvent::Display(event.clone()),
            VREvent::Gamepad(event) => VREvent::Gamepad(*event),
        }
    }
}

} // verus!
