//! The service of the native backend: it knows one display.

use vstd::prelude::*;
use crate::magicleap::c_api::MLHandle;
use crate::magicleap::c_api::MLResult;
use crate::magicleap::display::native_display_data;
use crate::magicleap::display::MagicLeapVRDisplay;
use crate::magicleap::display::MagicLeapVRDisplayView;
use crate::magicleap::heartbeat::HeartbeatView;
use crate::magicleap::heartbeat::MagicLeapVRMainThreadHeartbeat;
use crate::model::Single;
use crate::model::VRDisplayData;
use crate::model::VREvent;
use crate::model::VRFrameData;
use crate::model::VRFramebufferAttributes;

verus! {

/// The native service.
pub struct MagicLeapVRService {
    display: MagicLeapVRDisplay,
}

impl View for MagicLeapVRService {
    type V = MagicLeapVRDisplayView;

    /// The service is its one display.
    closed spec fn view(&self) -> MagicLeapVRDisplayView {
        self.display@
    }
}

impl MagicLeapVRService {
    /// The service and the heartbeat of its display. The arguments are those
    /// of `MagicLeapVRDisplay::new`, and so is the error.
    pub fn new(
        gl_context: MLHandle,
        left_offset: [Single; 3],
        right_offset: [Single; 3],
        created: MLResult,
        heartbeat_client: MLHandle,
    ) -> (pair: Result<(MagicLeapVRService, MagicLeapVRMainThreadHeartbeat), MLResult>)
        ensures
            created.is_ok() ==> pair is Ok && {
                let (service, heartbeat) = pair->Ok_0;
                &&& service@.display_data.display_id == service@.id
                &&& service@.display_data@ == native_display_data(service@.id, left_offset, right_offset)
                &&& service@.gl_context == gl_context
                &&& service@.graphics_client == MLHandle(0)
                &&& service@.attributes == VRFramebufferAttributes::plain()
                &&& !service@.presenting
                &&& service@.frame_data == VRFrameData::blank()
                &&& heartbeat@ == (HeartbeatView { graphics_client: Some(heartbeat_client), timestamp: 0 })
            },
            !created.is_ok() ==> pair is Err && pair->Err_0 == created,
    {
        match MagicLeapVRDisplay::new(gl_context, left_offset, right_offset, created, heartbeat_client) {
            Ok((display, heartbeat)) => Ok((MagicLeapVRService { display }, heartbeat)),
            Err(code) => Err(code),
        }
    }

    /// Nothing is left to set up: always succeeds and changes nothing.
    pub fn initialize(&mut self) -> (done: Result<(), String>)
        ensures
            done == Ok::<(), String>(()),
            final(self)@ == old(self)@,
    {
        Ok(())
    }

    /// The identifiers of the displays of this service: that of its one display.
    pub fn fetch_displays(&mut self) -> (displays: Result<Vec<u32>, String>)
        ensures
            final(self)@ == old(self)@,
            displays is Ok,
            displays->Ok_0@ == seq![old(self)@.id],
    {
        let mut displays = Vec::new();
        displays.push(self.display.id());
        Ok(displays)
    }

    /// The identifiers of the gamepads of this service: it reports none.
    pub fn fetch_gamepads(&mut self) -> (gamepads: Result<Vec<u32>, String>)
        ensures
            final(self)@ == old(self)@,
            gamepads is Ok,
            gamepads->Ok_0@ == Seq::<u32>::empty(),
    {
        Ok(Vec::new())
    }

    /// The service is there wherever it could be created.
    pub fn is_available(&self) -> (available: bool)
        ensures
            available,
    {
        true
    }

    /// The events since the last poll: this service raises none.
    pub fn poll_events(&self) -> (events: Vec<VREvent>)
        ensures
            events@ == Seq::<VREvent>::empty(),
    {
        Vec::new()
    }

    /// The identifier of the service's display. It is the one that the display's data carry.
    pub fn display_id(&self) -> (id: u32)
        ensures
            id == self@.id,
            id == self@.display_data.display_id,
    {
        self.display.id()
    }

    /// A copy of the data of the service's display. They carry the display's identifier.
    pub fn display_data(&self) -> (data: VRDisplayData)
        ensures
            data == self@.display_data,
            data.display_id == self@.id,
    {
        self.display.data()
    }

    /// The service's display, to present on it.
    pub fn display_mut(&mut self) -> (display: &mut MagicLeapVRDisplay)
        ensures
            display@ == old(self)@,
            final(self)@ == final(display)@,
    {
        &mut self.display
    }

    /// The display under an identifier, if it is this service's.
    pub fn display(&self, display_id: u32) -> (display: Option<&MagicLeapVRDisplay>)
        ensures
            display_id == self@.id ==> display is Some && display->Some_0@ == self@,
            display_id != self@.id ==> display is None,
    {
        if self.display.id() == display_id {
            Some(&self.display)
        } else {
            None
        }
    }
}

} // verus!
