//! The decisions of the stereo render loop: which configurations are valid,
//! where each eye's picture goes, from what the view of each eye is made,
//! which gaze target wins, in what order a frame is drawn and submitted, and
//! when the loop looks for events and when it pauses.
//!
//! The loop itself, with its calls to the graphics device and its arithmetic
//! on matrices, belongs to the caller. It asks this module what to do next.

use vstd::prelude::*;
use vstd::string::StringExecFns;
use crate::model::Double;
use crate::model::Single;
use crate::model::VRDisplayData;
use crate::model::VRDisplayEvent;
use crate::model::VREvent;
use crate::model::VRFrameData;
use crate::model::VRFramebuffer;
use crate::model::VRStageParameters;
use crate::model::VRViewport;
use crate::model::ONE;
use crate::model::ZERO;
use crate::wire::matrix_of;
use crate::wire::quaternion_of;
use crate::wire::translation_of;
use crate::wire::vec_to_matrix;
use crate::wire::vec_to_quaternion;
use crate::wire::vec_to_translation;
use crate::wire::Matrix4;
use crate::wire::Quaternion;

verus! {

/// The height of the eyes above the floor that is assumed where a display
/// does not know its play area: 1.75 in single precision.
pub const DEFAULT_EYE_HEIGHT: Single = 0x3FE0_0000;

/// What the render loop is told before it starts.
#[derive(Copy, Clone, Debug, PartialEq, Eq, Structural)]
pub struct RenderConfig {
    /// Distance of the near clip plane.
    pub near: Double,
    /// Distance of the far clip plane.
    pub far: Double,
    /// Width of the virtual room.
    pub width: Single,
    /// Height of the virtual room.
    pub height: Single,
    /// Depth of the virtual room.
    pub depth: Single,
    /// Make the views from the pose, not from the matrices that the device reports.
    pub test_pose: bool,
    /// Draw into the device's own surfaces, not into a texture that is handed over.
    pub direct_draw: bool,
    /// Draw both eyes in one pass.
    pub multiview: bool,
}

/// Why a render loop cannot start.
#[derive(Copy, Clone, Debug, PartialEq, Eq, Structural)]
pub enum ConfigError {
    /// Both eyes in one pass was asked for without drawing into the device's surfaces.
    MultiviewWithoutDirectDraw,
    /// No display was found.
    NoDisplay,
    /// The display offers no surface although a session was started.
    NoFramebuffers,
    /// Both eyes in one pass was asked for and the device's surfaces do not allow it.
    MultiviewUnsupported,
}

impl ConfigError {
    /// The text of the error.
    pub open spec fn text(self) -> Seq<char> {
        match self {
            ConfigError::MultiviewWithoutDirectDraw => "Configuration not supported: Multiview must use direct_draw."@,
            ConfigError::NoDisplay => "No VRDisplays found"@,
            ConfigError::NoFramebuffers => "The display offers no framebuffer"@,
            ConfigError::MultiviewUnsupported => "Multiview not supported in this Device"@,
        }
    }

    /// The text of the error, for people to read.
    pub fn message(&self) -> (text: String)
        ensures
            text@ == self.text(),
    {
        match self {
            ConfigError::MultiviewWithoutDirectDraw => String::from_str(
                "Configuration not supported: Multiview must use direct_draw.",
            ),
            ConfigError::NoDisplay => String::from_str("No VRDisplays found"),
            ConfigError::NoFramebuffers => String::from_str("The display offers no framebuffer"),
            ConfigError::MultiviewUnsupported => String::from_str("Multiview not supported in this Device"),
        }
    }
}

impl RenderConfig {
    /// Whether the configuration can be rendered at all: one pass for both
    /// eyes needs the device's own surfaces.
    pub open spec fn valid(self) -> bool {
        self.multiview ==> self.direct_draw
    }

    /// Accepts the configuration or says what is wrong with it.
    pub fn validate(&self) -> (checked: Result<(), ConfigError>)
        ensures
            self.valid() ==> checked == Ok::<(), ConfigError>(()),
            !self.valid() ==> checked == Err::<(), ConfigError>(ConfigError::MultiviewWithoutDirectDraw),
    {
        if self.multiview && !self.direct_draw {
            Err(ConfigError::MultiviewWithoutDirectDraw)
        } else {
            Ok(())
        }
    }

    /// What `check_framebuffers` answers.
    pub open spec fn framebuffers_checked(self, framebuffers: Seq<VRFramebuffer>) -> Result<(), ConfigError> {
        if framebuffers.len() == 0 {
            Err(ConfigError::NoFramebuffers)
        } else if self.multiview && !framebuffers[0].attributes.multiview {
            Err(ConfigError::MultiviewUnsupported)
        } else {
            Ok(())
        }
    }

    /// Accepts the surfaces that a display offers after a session was
    /// started: there must be one at least, and where both eyes go in one
    /// pass the first must be set up for that.
    pub fn check_framebuffers(&self, framebuffers: &Vec<VRFramebuffer>) -> (checked: Result<(), ConfigError>)
        ensures
            checked == self.framebuffers_checked(framebuffers@),
    {
        if framebuffers.len() == 0 {
            Err(ConfigError::NoFramebuffers)
        } else if self.multiview && !framebuffers[0].attributes.multiview {
            Err(ConfigError::MultiviewUnsupported)
        } else {
            Ok(())
        }
    }

    /// Where the pictures of the left and the right eye go.
    ///
    /// Drawing into the device's surfaces, each eye gets the rectangle of its
    /// surface: the left eye that of the first surface, the right eye that of
    /// the last. Drawing into a texture, the texture is two render targets
    /// wide and the right eye's picture lies to the right of the left eye's.
    pub open spec fn viewports(self, framebuffers: Seq<VRFramebuffer>, render_width: u32, render_height: u32) -> (
        VRViewport,
        VRViewport,
    ) {
        if self.direct_draw {
            (framebuffers.first().viewport, framebuffers.last().viewport)
        } else {
            (
                VRViewport { x: 0, y: 0, width: render_width as i32, height: render_height as i32 },
                VRViewport {
                    x: render_width as i32,
                    y: 0,
                    width: render_width as i32,
                    height: render_height as i32,
                },
            )
        }
    }

    /// The rectangles of the left and the right eye, or an error where the
    /// display offers no surface.
    pub fn eye_viewports(&self, framebuffers: &Vec<VRFramebuffer>, render_width: u32, render_height: u32) -> (found: Result<
        (VRViewport, VRViewport),
        ConfigError,
    >)
        ensures
            framebuffers@.len() == 0 ==> found == Err::<(VRViewport, VRViewport), ConfigError>(
                ConfigError::NoFramebuffers,
            ),
            framebuffers@.len() > 0 ==> found == Ok::<(VRViewport, VRViewport), ConfigError>(
                self.viewports(framebuffers@, render_width, render_height),
            ),
    {
        if framebuffers.len() == 0 {
            return Err(ConfigError::NoFramebuffers);
        }
        if self.direct_draw {
            let first = &framebuffers[0];
            let last = &framebuffers[framebuffers.len() - 1];
            Ok((first.viewport, last.viewport))
        } else {
            let width = #[verifier::truncate] (render_width as i32);
            let height = #[verifier::truncate] (render_height as i32);
            Ok((VRViewport::new(0, 0, width, height), VRViewport::new(width, 0, width, height)))
        }
    }
}

/// The transform from sitting space to standing space that a display reports,
/// or, where it reports none, the lift by the default eye height. The caller
/// inverts it.
pub open spec fn standing_transform(stage: Option<VRStageParameters>) -> Matrix4 {
    match stage {
        Some(stage) => matrix_of(stage.sitting_to_standing_transform),
        None => translation_of([ZERO, DEFAULT_EYE_HEIGHT, ZERO]),
    }
}

/// The transform from sitting space to standing space to start the loop with.
pub fn initial_standing_transform(stage: &Option<VRStageParameters>) -> (m: Matrix4)
    ensures
        m == standing_transform(*stage),
{
    match stage {
        Some(stage) => vec_to_matrix(&stage.sitting_to_standing_transform),
        None => vec_to_translation(&[ZERO, DEFAULT_EYE_HEIGHT, ZERO]),
    }
}

/// The transform from sitting space to standing space as a display reports it
/// in this iteration. `None` where it reports none: the loop then keeps the
/// transform it has.
pub fn refreshed_standing_transform(stage: &Option<VRStageParameters>) -> (m: Option<Matrix4>)
    ensures
        stage is Some ==> m == Some(standing_transform(*stage)),
        stage is None ==> m is None,
{
    match stage {
        Some(stage) => Some(vec_to_matrix(&stage.sitting_to_standing_transform)),
        None => None,
    }
}

/// What the views of the two eyes are made from.
#[derive(Copy, Clone, Debug, PartialEq, Eq)]
pub enum EyeViews {
    /// The view matrices as the device reported them.
    Reported { left: Matrix4, right: Matrix4 },
    /// The parts of a pose. The view of the head is the rotation times the
    /// inverse of the translation to the position, or the rotation alone
    /// where the position is unknown; the view of an eye is the inverse of
    /// the head's view times the shift that takes the eye to the head.
    FromPose {
        rotation: Quaternion,
        position: Option<Matrix4>,
        left_eye_to_head: Matrix4,
        right_eye_to_head: Matrix4,
    },
}

/// The orientation to assume where a pose has none: no rotation.
pub open spec fn no_rotation() -> [Single; 4] {
    [ZERO, ZERO, ZERO, ONE]
}

/// What `resolve_views` answers.
pub open spec fn views_of(test_pose: bool, frame: VRFrameData, display: VRDisplayData) -> EyeViews {
    if test_pose {
        EyeViews::FromPose {
            rotation: quaternion_of(
                match frame.pose.orientation {
                    Some(orientation) => orientation,
                    None => no_rotation(),
                },
            ),
            position: match frame.pose.position {
                Some(position) => Some(translation_of(position)),
                None => None,
            },
            left_eye_to_head: translation_of(display.left_eye_parameters.offset),
            right_eye_to_head: translation_of(display.right_eye_parameters.offset),
        }
    } else {
        EyeViews::Reported { left: matrix_of(frame.left_view_matrix), right: matrix_of(frame.right_view_matrix) }
    }
}

/// Chooses what the views of the two eyes are made from: the pose of the
/// frame and the eyes' offsets where `test_pose` is set, else the matrices
/// that the device reported.
pub fn resolve_views(test_pose: bool, frame: &VRFrameData, display: &VRDisplayData) -> (views: EyeViews)
    ensures
        views == views_of(test_pose, *frame, *display),
{
    if test_pose {
        let orientation = match frame.pose.orientation {
            Some(orientation) => orientation,
            None => [ZERO, ZERO, ZERO, ONE],
        };
        let position = match frame.pose.position {
            Some(position) => Some(vec_to_translation(&position)),
            None => None,
        };
        EyeViews::FromPose {
            rotation: vec_to_quaternion(&orientation),
            position,
            left_eye_to_head: vec_to_translation(&display.left_eye_parameters.offset),
            right_eye_to_head: vec_to_translation(&display.right_eye_parameters.offset),
        }
    } else {
        EyeViews::Reported {
            left: vec_to_matrix(&frame.left_view_matrix),
            right: vec_to_matrix(&frame.right_view_matrix),
        }
    }
}

/// Picks the gaze target among the points where a ray meets the planes of the
/// scene. `hits` holds one entry for each plane, in the order in which the
/// planes were registered: the point where the ray meets the plane, or `None`
/// where it misses. The first plane that is met wins, whether or not a later
/// one is met nearer to the ray's origin. The answer is that plane's index
/// and the point, or `None` where the ray misses every plane.
pub fn first_hit(hits: &Vec<Option<[Single; 3]>>) -> (found: Option<(usize, [Single; 3])>)
    ensures
        match found {
            Some((index, point)) => {
                &&& index < hits@.len()
                &&& hits@[index as int] == Some(point)
                &&& forall|j: int| 0 <= j < index ==> hits@[j] is None
            },
            None => forall|j: int| 0 <= j < hits@.len() ==> hits@[j] is None,
        },
{
    let mut index: usize = 0;
    while index < hits.len()
        invariant
            index <= hits@.len(),
            forall|j: int| 0 <= j < index ==> hits@[j] is None,
        decreases hits@.len() - index,
    {
        match hits[index] {
            Some(point) => {
                return Some((index, point));
            },
            None => {},
        }
        index = index + 1;
    }
    None
}

/// The point that the gaze pointer is drawn at: where the ray meets the first
/// plane that it meets, or `fallback` where it misses them all.
pub fn gaze_target(hits: &Vec<Option<[Single; 3]>>, fallback: [Single; 3]) -> (target: [Single; 3])
    ensures
        (forall|j: int| 0 <= j < hits@.len() ==> hits@[j] is None) ==> target == fallback,
        forall|i: int|
            0 <= i < hits@.len() && hits@[i] is Some && (forall|j: int| 0 <= j < i ==> hits@[j] is None)
                ==> target == hits@[i]->Some_0,
{
    match first_hit(hits) {
        Some((index, point)) => {
            assert forall|i: int|
                0 <= i < hits@.len() && hits@[i] is Some && (forall|j: int| 0 <= j < i ==> hits@[j] is None)
                implies point == hits@[i]->Some_0 by {
                if i < index {
                    assert(hits@[i] is None);
                } else if index < i {
                    assert(hits@[index as int] is None);
                }
            }
            point
        },
        None => fallback,
    }
}

/// One of the two programs that draw the scene.
#[derive(Copy, Clone, Debug, PartialEq, Eq, Structural)]
pub enum Program {
    /// Draws meshes with an ordinary texture.
    Standard,
    /// Draws meshes whose texture is a video or camera surface.
    ExternalTexture,
}

/// One step of drawing and submitting a frame.
#[derive(Copy, Clone, Debug, PartialEq, Eq, Structural)]
pub enum RenderStep {
    /// Bind the texture that stands in for the device and clear it.
    BeginTexturePass,
    /// Bind the device's surface for an eye.
    BindEye(u32),
    /// Give a program the projection and the view of one eye.
    SetEyeUniforms { program: Program, eye: u32 },
    /// Give a program the projections and the views of both eyes.
    SetStereoUniforms { program: Program },
    /// Restrict drawing to a rectangle.
    SetViewport(VRViewport),
    /// Clear the bound surface.
    Clear,
    /// Draw one mesh of the scene with a program.
    Draw { mesh: usize, program: Program },
    /// Wait until the texture holds what was drawn.
    Flush,
    /// Hand the texture to the display as a layer.
    RenderLayer,
    /// Hand the frame to the device.
    SubmitFrame,
    /// Show the frame on the desktop window as well.
    Mirror,
}

/// The program that draws a mesh.
pub open spec fn program_for(external_texture: bool) -> Program {
    if external_texture {
        Program::ExternalTexture
    } else {
        Program::Standard
    }
}

/// The steps that draw every mesh of the scene, in scene order. `external`
/// says of each mesh whether its texture is a video or camera surface.
pub open spec fn draws(external: Seq<bool>) -> Seq<RenderStep> {
    Seq::new(
        external.len(),
        |k: int| RenderStep::Draw { mesh: k as usize, program: program_for(external[k]) },
    )
}

/// The steps that give both programs their projection and view.
pub open spec fn uniforms(multiview: bool, eye: u32) -> Seq<RenderStep> {
    if multiview {
        seq![
            RenderStep::SetStereoUniforms { program: Program::Standard },
            RenderStep::SetStereoUniforms { program: Program::ExternalTexture },
        ]
    } else {
        seq![
            RenderStep::SetEyeUniforms { program: Program::Standard, eye },
            RenderStep::SetEyeUniforms { program: Program::ExternalTexture, eye },
        ]
    }
}

/// The steps for one eye: bind its surface where the device's surfaces are
/// drawn into, give both programs their projection and view, restrict drawing
/// to the eye's rectangle, clear where a surface was bound, and draw the scene.
pub open spec fn eye_pass(config: RenderConfig, eye: u32, viewport: VRViewport, external: Seq<bool>) -> Seq<
    RenderStep,
> {
    (if config.direct_draw {
        seq![RenderStep::BindEye(eye)]
    } else {
        Seq::empty()
    }) + uniforms(config.multiview, eye) + seq![RenderStep::SetViewport(viewport)] + (if config.direct_draw {
        seq![RenderStep::Clear]
    } else {
        Seq::empty()
    }) + draws(external)
}

/// The steps of one frame.
///
/// Drawing into a texture starts with binding and clearing it. Then comes the
/// pass for the left eye and, unless one pass serves both eyes, the pass for
/// the right eye. Drawing into a texture goes on with a flush and the texture
/// is handed over as a layer. The frame is submitted and mirrored.
pub open spec fn frame_plan(config: RenderConfig, left: VRViewport, right: VRViewport, external: Seq<bool>) -> Seq<
    RenderStep,
> {
    (if config.direct_draw {
        Seq::empty()
    } else {
        seq![RenderStep::BeginTexturePass]
    }) + eye_pass(config, 0, left, external) + (if config.multiview {
        Seq::empty()
    } else {
        eye_pass(config, 1, right, external)
    }) + (if config.direct_draw {
        Seq::empty()
    } else {
        seq![RenderStep::Flush, RenderStep::RenderLayer]
    }) + seq![RenderStep::SubmitFrame, RenderStep::Mirror]
}

/// Appends the steps for one eye.
fn push_eye_pass(
    steps: &mut Vec<RenderStep>,
    config: &RenderConfig,
    eye: u32,
    viewport: VRViewport,
    external: &Vec<bool>,
)
    ensures
        final(steps)@ == old(steps)@ + eye_pass(*config, eye, viewport, external@),
{
    if config.direct_draw {
        steps.push(RenderStep::BindEye(eye));
    }
    if config.multiview {
        steps.push(RenderStep::SetStereoUniforms { program: Program::Standard });
        steps.push(RenderStep::SetStereoUniforms { program: Program::ExternalTexture });
    } else {
        steps.push(RenderStep::SetEyeUniforms { program: Program::Standard, eye });
        steps.push(RenderStep::SetEyeUniforms { program: Program::ExternalTexture, eye });
    }
    steps.push(RenderStep::SetViewport(viewport));
    if config.direct_draw {
        steps.push(RenderStep::Clear);
    }
    let ghost before = steps@;
    assert(before =~= old(steps)@ + (if config.direct_draw {
        seq![RenderStep::BindEye(eye)]
    } else {
        Seq::empty()
    }) + uniforms(config.multiview, eye) + seq![RenderStep::SetViewport(viewport)] + (if config.direct_draw {
        seq![RenderStep::Clear]
    } else {
        Seq::empty()
    }));
    let mut mesh: usize = 0;
    while mesh < external.len()
        invariant
            mesh <= external@.len(),
            steps@ =~= before + draws(external@).take(mesh as int),
        decreases external@.len() - mesh,
    {
        let program = if external[mesh] {
            Program::ExternalTexture
        } else {
            Program::Standard
        };
        steps.push(RenderStep::Draw { mesh, program });
        mesh = mesh + 1;
    }
    assert(draws(external@).take(mesh as int) =~= draws(external@));
}

/// Lays out one frame: the steps to take, in order.
pub fn plan_frame(config: &RenderConfig, left: VRViewport, right: VRViewport, external: &Vec<bool>) -> (steps: Vec<
    RenderStep,
>)
    ensures
        steps@ == frame_plan(*config, left, right, external@),
{
    let mut steps = Vec::new();
    if !config.direct_draw {
        steps.push(RenderStep::BeginTexturePass);
    }
    push_eye_pass(&mut steps, config, 0, left, external);
    if !config.multiview {
        push_eye_pass(&mut steps, config, 1, right, external);
    }
    if !config.direct_draw {
        steps.push(RenderStep::Flush);
        steps.push(RenderStep::RenderLayer);
    }
    steps.push(RenderStep::SubmitFrame);
    steps.push(RenderStep::Mirror);
    assert(steps@ =~= frame_plan(*config, left, right, external@));
    steps
}

/// How many iterations of the render loop lie between two looks for events.
pub const EVENT_POLL_INTERVAL: u64 = 100;

/// Counts the iterations of the render loop and says when to look for events.
pub struct EventCadence {
    counter: u64,
}

impl View for EventCadence {
    type V = nat;

    /// How many iterations have passed since events were last due.
    closed spec fn view(&self) -> nat {
        self.counter as nat
    }
}

impl EventCadence {
    #[verifier::type_invariant]
    spec fn in_range(self) -> bool {
        self.counter < EVENT_POLL_INTERVAL
    }

    /// The count after so many iterations from a fresh start.
    pub open spec fn after_iterations(iterations: nat) -> nat {
        iterations % (EVENT_POLL_INTERVAL as nat)
    }

    /// A fresh start: events are due after a full interval.
    pub fn new() -> (cadence: EventCadence)
        ensures
            cadence@ == 0,
    {
        EventCadence { counter: 0 }
    }

    /// Counts one iteration. Events are due when the count comes back to zero.
    pub fn tick(&mut self) -> (due: bool)
        ensures
            final(self)@ == (old(self)@ + 1) % (EVENT_POLL_INTERVAL as nat),
            due == (final(self)@ == 0),
    {
        proof {
            use_type_invariant(&*self);
        }
        if self.counter + 1 == EVENT_POLL_INTERVAL {
            self.counter = 0;
            true
        } else {
            self.counter = self.counter + 1;
            false
        }
    }
}

/// Counting from a fresh start, the count after any number of iterations is
/// that number's remainder by the interval. So events are due at every
/// hundredth iteration and at no other.
pub proof fn law_events_due_each_interval(iterations: nat)
    ensures
        EventCadence::after_iterations(0) == 0,
        EventCadence::after_iterations(iterations + 1) == (EventCadence::after_iterations(iterations) + 1) % (
        EVENT_POLL_INTERVAL as nat),
        EventCadence::after_iterations(iterations) == 0 <==> iterations % 100 == 0,
{
}

/// How long the loop sleeps before it looks again for the event that ends a pause, in milliseconds.
pub const PAUSE_SLEEP_MILLIS: u64 = 5;

/// What the loop does after it has looked at a batch of events.
#[derive(Copy, Clone, Debug, PartialEq, Eq, Structural)]
pub enum GateAction {
    /// Go on rendering.
    Proceed,
    /// Sleep for so many milliseconds, then poll and look again.
    Sleep(u64),
}

/// Whether the loop is paused after a batch of events, given whether it was
/// before: the last pause or resume in the batch decides, and a batch
/// without either leaves things as they were.
pub open spec fn paused_after(paused: bool, events: Seq<VREvent>) -> bool
    decreases events.len(),
{
    if events.len() == 0 {
        paused
    } else {
        match events.last() {
            VREvent::Display(VRDisplayEvent::Pause(_)) => true,
            VREvent::Display(VRDisplayEvent::Resume(_)) => false,
            _ => paused_after(paused, events.drop_last()),
        }
    }
}

/// Holds the render loop while its display is paused.
pub struct PauseGate {
    paused: bool,
}

impl View for PauseGate {
    type V = bool;

    /// Whether the loop is paused.
    closed spec fn view(&self) -> bool {
        self.paused
    }
}

impl PauseGate {
    /// Not paused.
    pub fn new() -> (gate: PauseGate)
        ensures
            !gate@,
    {
        PauseGate { paused: false }
    }

    /// Looks at a batch of events, oldest first, and says whether to go on or to wait.
    pub fn observe(&mut self, events: &Vec<VREvent>) -> (action: GateAction)
        ensures
            final(self)@ == paused_after(old(self)@, events@),
            final(self)@ ==> action == GateAction::Sleep(PAUSE_SLEEP_MILLIS),
            !final(self)@ ==> action == GateAction::Proceed,
    {
        let mut seen: usize = 0;
        while seen < events.len()
            invariant
                seen <= events@.len(),
                self.paused == paused_after(old(self)@, events@.take(seen as int)),
            decreases events@.len() - seen,
        {
            proof {
                let upto = events@.take(seen + 1);
                assert(upto.drop_last() =~= events@.take(seen as int));
                assert(upto.last() == events@[seen as int]);
            }
            match &events[seen] {
                VREvent::Display(VRDisplayEvent::Pause(_)) => {
                    self.paused = true;
                },
                VREvent::Display(VRDisplayEvent::Resume(_)) => {
                    self.paused = false;
                },
                _ => {},
            }
            seen = seen + 1;
        }
        assert(events@.take(seen as int) =~= events@);
        if self.paused {
            GateAction::Sleep(PAUSE_SLEEP_MILLIS)
        } else {
            GateAction::Proceed
        }
    }
}

} // verus!
