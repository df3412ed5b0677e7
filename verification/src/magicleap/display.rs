//! The display of the native backend.

use vstd::prelude::*;
use vstd::string::StringExecFns;
use crate::magicleap::c_api::MLHandle;
use crate::magicleap::c_api::MLResult;
use crate::magicleap::heartbeat::MagicLeapVRMainThreadHeartbeat;
use crate::magicleap::heartbeat::MagicLeapVRMessage;
use crate::magicleap::heartbeat::HeartbeatView;
use crate::model::Double;
use crate::model::Single;
use crate::model::VRDisplayCapabilities;
use crate::model::VRDisplayData;
use crate::model::VRDisplayDataView;
use crate::model::VREyeParameters;
use crate::model::VRFieldOfView;
use crate::model::VRFrameData;
use crate::model::VRFramebuffer;
use crate::model::VRFramebufferAttributes;
use crate::model::VRViewport;

verus! {

/// Width of one eye's render target, in pixels.
pub const RENDER_WIDTH: u32 = 1280;

/// Height of one eye's render target, in pixels.
pub const RENDER_HEIGHT: u32 = 720;

/// The near clip distance used where the caller gives none: 0.35 in double precision.
pub const DEFAULT_NEAR: Double = 0x3FD6_6666_6666_6666;

/// The far clip distance used where the caller gives none: 100 in double precision.
pub const DEFAULT_FAR: Double = 0x4059_0000_0000_0000;

/// Half the vertical field of view of 30 degrees: 15 in double precision.
pub const HALF_VERTICAL_FOV: Double = 0x402E_0000_0000_0000;

/// Half the horizontal field of view of 20 degrees: 10 in double precision.
pub const HALF_HORIZONTAL_FOV: Double = 0x4024_0000_0000_0000;

/// Width in pixels of the surface that the native display offers to each eye.
pub const EYE_WIDTH: i32 = 1280;

/// Height in pixels of the surface that the native display offers to each eye.
pub const EYE_HEIGHT: i32 = 720;

/// The display of the native device. The identifier in its data is its own
/// identifier, from its creation on.
pub struct MagicLeapVRDisplay {
    id: u32,
    display_data: VRDisplayData,
    gl_context: MLHandle,
    graphics_client: MLHandle,
    attributes: VRFramebufferAttributes,
    presenting: bool,
    frame_data: VRFrameData,
}

/// The native display as a value.
pub struct MagicLeapVRDisplayView {
    pub id: u32,
    pub display_data: VRDisplayData,
    pub gl_context: MLHandle,
    pub graphics_client: MLHandle,
    /// How the surfaces of the current session, or of the next one, are set up.
    pub attributes: VRFramebufferAttributes,
    /// Whether a presentation session is open.
    pub presenting: bool,
    /// The latest frame that the heartbeat delivered.
    pub frame_data: VRFrameData,
}

impl MagicLeapVRDisplayView {
    /// The display after a request to start presenting.
    ///
    /// Outside a session this opens one, with the attributes given, or with
    /// those the display already had where none are given. Inside a session it
    /// changes nothing: the attributes of a session are fixed when it opens.
    pub open spec fn started(self, attributes: Option<VRFramebufferAttributes>) -> MagicLeapVRDisplayView {
        if self.presenting {
            self
        } else {
            MagicLeapVRDisplayView {
                presenting: true,
                attributes: match attributes {
                    Some(a) => a,
                    None => self.attributes,
                },
                ..self
            }
        }
    }

    /// The display after a request to stop presenting: no session is open.
    pub open spec fn stopped(self) -> MagicLeapVRDisplayView {
        MagicLeapVRDisplayView { presenting: false, ..self }
    }

    /// The surface for one eye: the left eye's picture lies to the left of the right eye's.
    pub open spec fn framebuffer(self, eye_index: u32) -> VRFramebuffer {
        VRFramebuffer {
            eye_index,
            attributes: self.attributes,
            viewport: VRViewport {
                x: if eye_index == 0 { 0 } else { EYE_WIDTH },
                y: 0,
                width: EYE_WIDTH,
                height: EYE_HEIGHT,
            },
        }
    }

    /// The surfaces on offer: one for each eye, the left first, while a session is open; none otherwise.
    pub open spec fn framebuffers(self) -> Seq<VRFramebuffer> {
        if self.presenting {
            seq![self.framebuffer(0), self.framebuffer(1)]
        } else {
            Seq::empty()
        }
    }
}

/// What the native device can do.
pub open spec fn native_capabilities() -> VRDisplayCapabilities {
    VRDisplayCapabilities {
        has_position: true,
        has_orientation: true,
        has_external_display: false,
        can_present: true,
        presented_by_browser: true,
        max_layers: 1,
    }
}

/// The field of view of either eye of the native device: the same angle up
/// and down, and the same angle right and left.
pub open spec fn native_field_of_view() -> VRFieldOfView {
    VRFieldOfView {
        up_degrees: HALF_VERTICAL_FOV,
        right_degrees: HALF_HORIZONTAL_FOV,
        down_degrees: HALF_VERTICAL_FOV,
        left_degrees: HALF_HORIZONTAL_FOV,
    }
}

/// The parameters of an eye of the native device that sits at `offset`.
pub open spec fn native_eye(offset: [Single; 3]) -> VREyeParameters {
    VREyeParameters {
        offset,
        render_width: RENDER_WIDTH,
        render_height: RENDER_HEIGHT,
        field_of_view: native_field_of_view(),
    }
}

/// What the native display says of itself under a given identifier, with its eyes at the given offsets.
pub open spec fn native_display_data(
    display_id: u32,
    left_offset: [Single; 3],
    right_offset: [Single; 3],
) -> VRDisplayDataView {
    VRDisplayDataView {
        display_id,
        display_name: "MagicLeap Display"@,
        connected: true,
        capabilities: native_capabilities(),
        stage_parameters: None,
        left_eye_parameters: native_eye(left_offset),
        right_eye_parameters: native_eye(right_offset),
    }
}

impl View for MagicLeapVRDisplay {
    type V = MagicLeapVRDisplayView;

    closed spec fn view(&self) -> MagicLeapVRDisplayView {
        MagicLeapVRDisplayView {
            id: self.id,
            display_data: self.display_data,
            gl_context: self.gl_context,
            graphics_client: self.graphics_client,
            attributes: self.attributes,
            presenting: self.presenting,
            frame_data: self.frame_data,
        }
    }
}

impl MagicLeapVRDisplay {
    #[verifier::type_invariant]
    spec fn one_identifier(self) -> bool {
        self.display_data.display_id == self.id
    }

    /// The display and its heartbeat.
    ///
    /// The caller has asked the eye tracker where the eyes are and has tried
    /// to create a graphics client for the heartbeat: `left_offset` and
    /// `right_offset` are the eyes' offsets from the point between them,
    /// `created` is the SDK's answer to the creation and `heartbeat_client`
    /// the handle it gave. Where the creation failed, its code is the error.
    ///
    /// The display gets the next free identifier, and its data carry the
    /// same one. It is not presenting, its attributes are plain, the latest
    /// frame it knows is the blank one, and its own graphics client is the
    /// null handle.
    pub fn new(
        gl_context: MLHandle,
        left_offset: [Single; 3],
        right_offset: [Single; 3],
        created: MLResult,
        heartbeat_client: MLHandle,
    ) -> (pair: Result<(MagicLeapVRDisplay, MagicLeapVRMainThreadHeartbeat), MLResult>)
        ensures
            created.is_ok() ==> pair is Ok && {
                let (display, heartbeat) = pair->Ok_0;
                &&& display@.display_data.display_id == display@.id
                &&& display@.display_data@ == native_display_data(display@.id, left_offset, right_offset)
                &&& display@.gl_context == gl_context
                &&& display@.graphics_client == MLHandle(0)
                &&& display@.attributes == VRFramebufferAttributes::plain()
                &&& !display@.presenting
                &&& display@.frame_data == VRFrameData::blank()
                &&& heartbeat@ == (HeartbeatView { graphics_client: Some(heartbeat_client), timestamp: 0 })
            },
            !created.is_ok() ==> pair is Err && pair->Err_0 == created,
    {
        let id = rust_webvr_api::utils::new_id();
        let display_data = match MagicLeapVRDisplay::display_data(id, left_offset, right_offset) {
            Ok(data) => data,
            Err(code) => {
                return Err(code);
            },
        };
        let display = MagicLeapVRDisplay {
            id,
            display_data,
            gl_context,
            graphics_client: MLHandle(0),
            attributes: VRFramebufferAttributes::default(),
            presenting: false,
            frame_data: VRFrameData::default(),
        };
        match MagicLeapVRMainThreadHeartbeat::new(created, heartbeat_client) {
            Ok(heartbeat) => Ok((display, heartbeat)),
            Err(code) => Err(code),
        }
    }

    /// The data of the display under a given identifier, whose eyes sit at the given offsets.
    pub fn display_data(display_id: u32, left_offset: [Single; 3], right_offset: [Single; 3]) -> (data: Result<
        VRDisplayData,
        MLResult,
    >)
        ensures
            data is Ok,
            data->Ok_0@ == native_display_data(display_id, left_offset, right_offset),
    {
        let (left, right) = match MagicLeapVRDisplay::eye_parameters(left_offset, right_offset) {
            Ok(eyes) => eyes,
            Err(code) => {
                return Err(code);
            },
        };
        let capabilities = match MagicLeapVRDisplay::capabilities() {
            Ok(capabilities) => capabilities,
            Err(code) => {
                return Err(code);
            },
        };
        Ok(
            VRDisplayData {
                capabilities,
                connected: true,
                display_id,
                display_name: String::from_str("MagicLeap Display"),
                left_eye_parameters: left,
                right_eye_parameters: right,
                stage_parameters: None,
            },
        )
    }

    /// What the device can do.
    pub fn capabilities() -> (capabilities: Result<VRDisplayCapabilities, MLResult>)
        ensures
            capabilities == Ok::<VRDisplayCapabilities, MLResult>(native_capabilities()),
    {
        Ok(
            VRDisplayCapabilities {
                has_position: true,
                has_orientation: true,
                has_external_display: false,
                can_present: true,
                presented_by_browser: true,
                max_layers: 1,
            },
        )
    }

    /// The parameters of the left and the right eye, given where the eyes are.
    pub fn eye_parameters(left_offset: [Single; 3], right_offset: [Single; 3]) -> (eyes: Result<
        (VREyeParameters, VREyeParameters),
        MLResult,
    >)
        ensures
            eyes == Ok::<(VREyeParameters, VREyeParameters), MLResult>(
                (native_eye(left_offset), native_eye(right_offset)),
            ),
    {
        let (left_fov, right_fov) = match MagicLeapVRDisplay::field_of_view() {
            Ok(fovs) => fovs,
            Err(code) => {
                return Err(code);
            },
        };

        let left = VREyeParameters {
            offset: left_offset,
            render_width: RENDER_WIDTH,
            render_height: RENDER_HEIGHT,
            field_of_view: left_fov,
        };

        let right = VREyeParameters {
            offset: right_offset,
            render_width: RENDER_WIDTH,
            render_height: RENDER_HEIGHT,
            field_of_view: right_fov,
        };

        Ok((left, right))
    }

    /// The fields of view of the left and the right eye. They are the same.
    pub fn field_of_view() -> (fovs: Result<(VRFieldOfView, VRFieldOfView), MLResult>)
        ensures
            fovs == Ok::<(VRFieldOfView, VRFieldOfView), MLResult>(
                (native_field_of_view(), native_field_of_view()),
            ),
    {
        let left_fov = VRFieldOfView {
            up_degrees: HALF_VERTICAL_FOV,
            right_degrees: HALF_HORIZONTAL_FOV,
            down_degrees: HALF_VERTICAL_FOV,
            left_degrees: HALF_HORIZONTAL_FOV,
        };
        let right_fov = left_fov;
        Ok((left_fov, right_fov))
    }

    /// Books the outcome of creating the display's own graphics client. The
    /// handle is kept as the SDK left it, whatever the answer; a failure is
    /// handed on.
    pub fn init_graphics_client(&mut self, created: MLResult, graphics_client: MLHandle) -> (done: Result<
        (),
        MLResult,
    >)
        ensures
            final(self)@ == (MagicLeapVRDisplayView { graphics_client, ..old(self)@ }),
            created.is_ok() ==> done == Ok::<(), MLResult>(()),
            !created.is_ok() ==> done == Err::<(), MLResult>(created),
    {
        proof {
            use_type_invariant(&*self);
        }
        self.graphics_client = graphics_client;
        created.ok()
    }

    /// Books the outcome of destroying the display's own graphics client. The
    /// handle is kept as the SDK left it, whatever the answer; a failure is
    /// handed on.
    pub fn destroy_graphics_client(&mut self, destroyed: MLResult, graphics_client: MLHandle) -> (done: Result<
        (),
        MLResult,
    >)
        ensures
            final(self)@ == (MagicLeapVRDisplayView { graphics_client, ..old(self)@ }),
            destroyed.is_ok() ==> done == Ok::<(), MLResult>(()),
            !destroyed.is_ok() ==> done == Err::<(), MLResult>(destroyed),
    {
        proof {
            use_type_invariant(&*self);
        }
        self.graphics_client = graphics_client;
        destroyed.ok()
    }

    /// The identifier of the display. It is the one that its data carry.
    pub fn id(&self) -> (id: u32)
        ensures
            id == self@.id,
            id == self@.display_data.display_id,
    {
        proof {
            use_type_invariant(self);
        }
        self.id
    }

    /// A copy of the display's data. They carry the display's identifier.
    pub fn data(&self) -> (data: VRDisplayData)
        ensures
            data == self@.display_data,
            data.display_id == self@.id,
    {
        proof {
            use_type_invariant(self);
        }
        self.display_data.clone()
    }

    /// The handle of the graphics context that the display was created for.
    pub fn gl_context(&self) -> (handle: MLHandle)
        ensures
            handle == self@.gl_context,
    {
        self.gl_context
    }

    /// The handle of the display's own graphics client.
    pub fn graphics_client(&self) -> (handle: MLHandle)
        ensures
            handle == self@.graphics_client,
    {
        self.graphics_client
    }

    /// Does nothing: the device keeps its own origin.
    pub fn reset_pose(&mut self)
        ensures
            final(self)@ == old(self)@,
    {
    }

    /// Does nothing: the poses are sampled by the heartbeat.
    pub fn sync_poses(&mut self)
        ensures
            final(self)@ == old(self)@,
    {
    }

    /// The request that asks the heartbeat for the next frame. The caller
    /// sends it together with the cell that is to receive the frame.
    pub fn future_frame_data(&mut self, near: Double, far: Double) -> (request: MagicLeapVRMessage)
        ensures
            final(self)@ == old(self)@,
            request == (MagicLeapVRMessage::StartFrame { near, far }),
    {
        MagicLeapVRMessage::StartFrame { near, far }
    }

    /// Does nothing, inside a session and outside one: the device's surfaces
    /// are bound by the heartbeat.
    pub fn bind_framebuffer(&mut self, eye_index: u32)
        ensures
            final(self)@ == old(self)@,
    {
    }

    /// Takes note of a frame that the heartbeat delivered: it is the latest one from now on.
    pub fn record_frame_data(&mut self, frame: VRFrameData)
        ensures
            final(self)@ == (MagicLeapVRDisplayView { frame_data: frame, ..old(self)@ }),
    {
        proof {
            use_type_invariant(&*self);
        }
        self.frame_data = frame;
    }

    /// The latest frame that the heartbeat delivered, or the blank frame
    /// before the first. No new sample is taken, and the clip distances do
    /// not matter.
    pub fn immediate_frame_data(&self, near: Double, far: Double) -> (frame: VRFrameData)
        ensures
            frame == self@.frame_data,
    {
        self.frame_data
    }

    /// The frame to render next. The display has no sampling step of its
    /// own, so this is the latest frame.
    pub fn synced_frame_data(&self, near: Double, far: Double) -> (frame: VRFrameData)
        ensures
            frame == self@.frame_data,
    {
        self.immediate_frame_data(near, far)
    }

    /// The surfaces to render to.
    pub fn get_framebuffers(&self) -> (framebuffers: Vec<VRFramebuffer>)
        ensures
            framebuffers@ == self@.framebuffers(),
    {
        let mut framebuffers = Vec::new();
        if self.presenting {
            framebuffers.push(
                VRFramebuffer {
                    eye_index: 0,
                    attributes: self.attributes,
                    viewport: VRViewport::new(0, 0, EYE_WIDTH, EYE_HEIGHT),
                },
            );
            framebuffers.push(
                VRFramebuffer {
                    eye_index: 1,
                    attributes: self.attributes,
                    viewport: VRViewport::new(EYE_WIDTH, 0, EYE_WIDTH, EYE_HEIGHT),
                },
            );
        }
        framebuffers
    }

    /// Opens a presentation session, unless one is open.
    pub fn start_present(&mut self, attributes: Option<VRFramebufferAttributes>)
        ensures
            final(self)@ == old(self)@.started(attributes),
    {
        proof {
            use_type_invariant(&*self);
        }
        if !self.presenting {
            if let Some(attributes) = attributes {
                self.attributes = attributes;
            }
            self.presenting = true;
        }
    }

    /// Closes the presentation session, if one is open.
    pub fn stop_present(&mut self)
        ensures
            final(self)@ == old(self)@.stopped(),
    {
        proof {
            use_type_invariant(&*self);
        }
        self.presenting = false;
    }
}

/// Starting a presentation twice in a row leaves the display as starting it once does.
pub proof fn law_start_present_idempotent(
    display: MagicLeapVRDisplayView,
    first: Option<VRFramebufferAttributes>,
    second: Option<VRFramebufferAttributes>,
)
    ensures
        display.started(first).started(second) == display.started(first),
{
}

/// Stopping a presentation that was never started changes nothing, and
/// stopping twice is as stopping once.
pub proof fn law_stop_present_idempotent(display: MagicLeapVRDisplayView)
    ensures
        !display.presenting ==> display.stopped() == display,
        display.stopped().stopped() == display.stopped(),
{
}

/// While a session is open the display offers two surfaces, the left eye's
/// first, each as wide and as high as one eye's render target, and no pixel
/// belongs to both. Outside a session it offers none. Neither starting nor
/// stopping changes what the display is or the frame it knows.
pub proof fn law_session_keeps_display(display: MagicLeapVRDisplayView, attributes: Option<VRFramebufferAttributes>)
    ensures
        display.presenting ==> {
            let offered = display.framebuffers();
            &&& offered.len() == 2
            &&& offered[0].eye_index == 0
            &&& offered[1].eye_index == 1
            &&& offered[0].viewport.width == RENDER_WIDTH
            &&& offered[1].viewport.width == RENDER_WIDTH
            &&& offered[0].viewport.height == RENDER_HEIGHT
            &&& offered[1].viewport.height == RENDER_HEIGHT
            &&& offered[0].viewport.disjoint(offered[1].viewport)
        },
        !display.presenting ==> display.framebuffers().len() == 0,
        display.started(attributes).id == display.id,
        display.started(attributes).display_data == display.display_data,
        display.started(attributes).frame_data == display.frame_data,
        display.stopped().id == display.id,
        display.stopped().display_data == display.display_data,
        display.stopped().frame_data == display.frame_data,
{
}

} // verus!
