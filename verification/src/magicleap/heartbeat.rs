//! The heartbeat of the native backend: the message pump that runs on the
//! execution context that owns the graphics device.
//!
//! The caller waits on the request channel, for at most `TIMEOUT_MILLIS` at a
//! time, and tells the heartbeat how each wait ended. The heartbeat answers
//! with what to do on the device and whether to go on waiting.
//!
//! The pump runs until the channel is closed or the device is lost, and not
//! a wait less: a frame that was ended leaves it running. A wait that timed
//! out leaves it running too; it only lets the context do its other work
//! before the next wait.

use vstd::prelude::*;
use crate::magicleap::c_api::MLHandle;
use crate::magicleap::c_api::MLResult;
use crate::model::Double;

verus! {

/// How long one wait on the request channel may last, in milliseconds: one frame at sixty per second.
pub const TIMEOUT_MILLIS: u64 = 16;

/// A request to the context that owns the graphics device.
#[derive(Copy, Clone, Debug, PartialEq, Eq, Structural)]
pub enum MagicLeapVRMessage {
    /// Begin a frame with the given clip distances and deliver its data.
    StartFrame { near: Double, far: Double },
    /// End the frame: show the texture of the given size.
    StopFrame { width: u32, height: u32, texture_id: u32 },
}

/// How one wait on the request channel ended, or what became of the device.
#[derive(Copy, Clone, Debug, PartialEq, Eq, Structural)]
pub enum HeartbeatEvent {
    /// A request arrived.
    Message(MagicLeapVRMessage),
    /// Nothing arrived within the time allowed.
    TimedOut,
    /// Every sender is gone: nothing will ever arrive.
    Disconnected,
    /// The device failed in a way that nothing can mend.
    DeviceLost,
}

/// What the caller is to do after a wait.
#[derive(Copy, Clone, Debug, PartialEq, Eq, Structural)]
pub enum HeartbeatAction {
    /// Sample the pose, stamp it with `timestamp`, and fulfil the request's result cell. Then wait again.
    BeginFrame { timestamp: u64, near: Double, far: Double },
    /// Show the texture on the device, once. Then wait again. Where the
    /// device fails beyond repair, report `DeviceLost` in place of the next wait.
    EndFrame { width: u32, height: u32, texture_id: u32 },
    /// Nothing arrived: let the context do its other work, then wait again.
    Yield,
    /// Destroy this graphics client and stop for good.
    Teardown(MLHandle),
    /// Do nothing: the heartbeat has stopped for good.
    Halted,
}

/// The heartbeat's state.
pub struct MagicLeapVRMainThreadHeartbeat {
    graphics_client: Option<MLHandle>,
    timestamp: u64,
}

/// The heartbeat's state as a value.
pub struct HeartbeatView {
    /// The graphics client, while it is alive.
    pub graphics_client: Option<MLHandle>,
    /// The stamp of the next frame: how many frames were begun.
    pub timestamp: u64,
}

impl HeartbeatView {
    /// The stamp after one more frame. It stays where it is once it has reached the largest value.
    pub open spec fn next_timestamp(self) -> u64 {
        if self.timestamp < u64::MAX {
            (self.timestamp + 1) as u64
        } else {
            self.timestamp
        }
    }

    /// What to do after an event.
    ///
    /// A heartbeat whose client is gone does nothing, whatever happens. A live
    /// one begins or ends the frame that a request asks for, yields after a
    /// wait without a request, and gives up its client when the channel is
    /// closed or the device is lost.
    pub open spec fn action(self, event: HeartbeatEvent) -> HeartbeatAction {
        match self.graphics_client {
            None => HeartbeatAction::Halted,
            Some(client) => match event {
                HeartbeatEvent::Message(MagicLeapVRMessage::StartFrame { near, far }) => HeartbeatAction::BeginFrame {
                    timestamp: self.timestamp,
                    near,
                    far,
                },
                HeartbeatEvent::Message(MagicLeapVRMessage::StopFrame { width, height, texture_id }) => HeartbeatAction::EndFrame {
                    width,
                    height,
                    texture_id,
                },
                HeartbeatEvent::TimedOut => HeartbeatAction::Yield,
                HeartbeatEvent::Disconnected => HeartbeatAction::Teardown(client),
                HeartbeatEvent::DeviceLost => HeartbeatAction::Teardown(client),
            },
        }
    }

    /// The state after an event: a frame begun moves the stamp on, a teardown
    /// takes the client away, and nothing else changes anything.
    pub open spec fn after(self, event: HeartbeatEvent) -> HeartbeatView {
        match self.action(event) {
            HeartbeatAction::BeginFrame { .. } => HeartbeatView { timestamp: self.next_timestamp(), ..self },
            HeartbeatAction::Teardown(_) => HeartbeatView { graphics_client: None, ..self },
            _ => self,
        }
    }
}

impl HeartbeatAction {
    /// Whether the pump goes on after this action. It goes on after every
    /// action but the two that end it: the teardown, and the answer of a
    /// heartbeat that has stopped.
    pub open spec fn keeps_beating(self) -> bool {
        !(self is Teardown) && !(self is Halted)
    }

    /// Whether the action hands the thread to the other work of the context
    /// before the next wait. This is no end of the pump.
    pub open spec fn hands_back(self) -> bool {
        self is Yield
    }

    /// Whether the pump goes on after this action.
    pub fn continues(&self) -> (again: bool)
        ensures
            again == self.keeps_beating(),
    {
        match self {
            HeartbeatAction::Teardown(_) => false,
            HeartbeatAction::Halted => false,
            _ => true,
        }
    }

    /// Whether the thread is free for the other work of the context before the next wait.
    pub fn yields(&self) -> (free: bool)
        ensures
            free == self.hands_back(),
    {
        match self {
            HeartbeatAction::Yield => true,
            _ => false,
        }
    }
}

impl HeartbeatView {
    /// What the pump does over a run of waits, given how each ended, in
    /// order: the action for the first, and, unless that ends the pump, what
    /// it does over the rest from the state it is then in. Nothing is done
    /// for what comes after the end.
    pub open spec fn actions_over(self, events: Seq<HeartbeatEvent>) -> Seq<HeartbeatAction>
        decreases events.len(),
    {
        if events.len() == 0 {
            Seq::empty()
        } else if self.action(events[0]).keeps_beating() {
            seq![self.action(events[0])] + self.after(events[0]).actions_over(events.skip(1))
        } else {
            seq![self.action(events[0])]
        }
    }

    /// The state in which the pump is after a run of waits.
    pub open spec fn after_all(self, events: Seq<HeartbeatEvent>) -> HeartbeatView
        decreases events.len(),
    {
        if events.len() == 0 {
            self
        } else if self.action(events[0]).keeps_beating() {
            self.after(events[0]).after_all(events.skip(1))
        } else {
            self.after(events[0])
        }
    }
}

impl View for MagicLeapVRMainThreadHeartbeat {
    type V = HeartbeatView;

    closed spec fn view(&self) -> HeartbeatView {
        HeartbeatView { graphics_client: self.graphics_client, timestamp: self.timestamp }
    }
}

impl MagicLeapVRMainThreadHeartbeat {
    /// The heartbeat for a graphics client that the caller has just tried to
    /// create. `created` is the SDK's answer and `graphics_client` the handle
    /// it gave. A failure is handed on; on success the heartbeat owns the
    /// client and its first frame will carry the stamp zero.
    pub fn new(created: MLResult, graphics_client: MLHandle) -> (heartbeat: Result<MagicLeapVRMainThreadHeartbeat, MLResult>)
        ensures
            created.is_ok() ==> heartbeat is Ok && heartbeat->Ok_0@ == (HeartbeatView {
                graphics_client: Some(graphics_client),
                timestamp: 0,
            }),
            !created.is_ok() ==> heartbeat == Err::<MagicLeapVRMainThreadHeartbeat, MLResult>(created),
    {
        match created.ok() {
            Ok(()) => Ok(MagicLeapVRMainThreadHeartbeat { graphics_client: Some(graphics_client), timestamp: 0 }),
            Err(code) => Err(code),
        }
    }

    /// Takes note of how a wait ended and says what to do.
    pub fn beat(&mut self, event: HeartbeatEvent) -> (action: HeartbeatAction)
        ensures
            action == old(self)@.action(event),
            final(self)@ == old(self)@.after(event),
    {
        match self.graphics_client {
            None => HeartbeatAction::Halted,
            Some(client) => match event {
                HeartbeatEvent::Message(msg) => {
                    let stamp = self.timestamp;
                    let done = self.handle_msg(msg);
                    match msg {
                        MagicLeapVRMessage::StartFrame { near, far } => HeartbeatAction::BeginFrame {
                            timestamp: stamp,
                            near,
                            far,
                        },
                        MagicLeapVRMessage::StopFrame { width, height, texture_id } => HeartbeatAction::EndFrame {
                            width,
                            height,
                            texture_id,
                        },
                    }
                },
                HeartbeatEvent::TimedOut => HeartbeatAction::Yield,
                HeartbeatEvent::Disconnected | HeartbeatEvent::DeviceLost => {
                    self.graphics_client = None;
                    HeartbeatAction::Teardown(client)
                },
            },
        }
    }

    /// Books one request and says whether the pump is over after it. On a
    /// heartbeat that holds its client it never is: the start of a frame
    /// moves the stamp on, the end of one changes nothing, and the pump goes
    /// on after both. Only a heartbeat that has stopped answers that it is over.
    pub fn handle_msg(&mut self, msg: MagicLeapVRMessage) -> (done: bool)
        ensures
            final(self)@ == old(self)@.after(HeartbeatEvent::Message(msg)),
            done == !old(self)@.action(HeartbeatEvent::Message(msg)).keeps_beating(),
            done == (old(self)@.graphics_client is None),
    {
        if self.graphics_client.is_none() {
            return true;
        }
        match msg {
            MagicLeapVRMessage::StartFrame { .. } => {
                if self.timestamp < u64::MAX {
                    self.timestamp = self.timestamp + 1;
                }
                false
            },
            MagicLeapVRMessage::StopFrame { .. } => false,
        }
    }

    /// Runs the pump over a run of waits, given how each ended, in order.
    /// Every outcome is taken note of once and none is passed over, up to
    /// the one that ends the pump; what comes after that is left alone. The
    /// answer is what to do, action by action.
    pub fn heartbeat(&mut self, events: &Vec<HeartbeatEvent>) -> (actions: Vec<HeartbeatAction>)
        ensures
            actions@ == old(self)@.actions_over(events@),
            final(self)@ == old(self)@.after_all(events@),
    {
        let mut actions: Vec<HeartbeatAction> = Vec::new();
        let mut seen: usize = 0;
        let mut over = false;
        assert(events@.skip(0) =~= events@);
        assert(actions@ + self@.actions_over(events@) =~= self@.actions_over(events@));
        while seen < events.len() && !over
            invariant
                seen <= events@.len(),
                !over ==> old(self)@.actions_over(events@) == actions@ + self@.actions_over(
                    events@.skip(seen as int),
                ),
                !over ==> old(self)@.after_all(events@) == self@.after_all(events@.skip(seen as int)),
                over ==> old(self)@.actions_over(events@) == actions@,
                over ==> old(self)@.after_all(events@) == self@,
            decreases events@.len() - seen,
        {
            let ghost rest = events@.skip(seen as int);
            let ghost before = self@;
            let ghost taken = actions@;
            assert(rest[0] == events@[seen as int]);
            assert(rest.skip(1) =~= events@.skip(seen + 1));
            let action = self.beat(events[seen]);
            actions.push(action);
            seen = seen + 1;
            if action.continues() {
                assert(before.actions_over(rest) =~= seq![action] + self@.actions_over(rest.skip(1)));
                assert(taken + (seq![action] + self@.actions_over(rest.skip(1))) =~= actions@
                    + self@.actions_over(rest.skip(1)));
            } else {
                assert(before.actions_over(rest) =~= seq![action]);
                assert(taken + seq![action] =~= actions@);
                over = true;
            }
        }
        proof {
            if !over {
                assert(events@.skip(seen as int) =~= Seq::<HeartbeatEvent>::empty());
                assert(actions@ + Seq::<HeartbeatAction>::empty() =~= actions@);
            }
        }
        actions
    }

    /// The heartbeat wants to be called once per frame.
    pub fn heart_racing(&self) -> (racing: bool)
        ensures
            racing,
    {
        true
    }

    /// Gives up the graphics client, for the caller to destroy: the handle
    /// the first time, nothing after that or after a teardown.
    pub fn release(&mut self) -> (client: Option<MLHandle>)
        ensures
            client == old(self)@.graphics_client,
            final(self)@ == (HeartbeatView { graphics_client: None, ..old(self)@ }),
    {
        let client = self.graphics_client;
        self.graphics_client = None;
        client
    }
}

/// A graphics client is torn down at most once: after a teardown, or after the
/// client was given up, no event brings another teardown and the client stays gone.
pub proof fn law_teardown_once(heartbeat: HeartbeatView, event: HeartbeatEvent, later: HeartbeatEvent)
    ensures
        heartbeat.action(event) is Teardown ==> heartbeat.after(event).graphics_client is None,
        heartbeat.graphics_client is None ==> heartbeat.action(later) == HeartbeatAction::Halted
            && heartbeat.after(later) == heartbeat,
        !(heartbeat.action(event) is Teardown && heartbeat.after(event).action(later) is Teardown),
{
}

/// A live heartbeat tears its client down exactly when the channel is closed
/// or the device is lost, and it is the client it was created with.
pub proof fn law_teardown_when_over(heartbeat: HeartbeatView, event: HeartbeatEvent)
    requires
        heartbeat.graphics_client is Some,
    ensures
        heartbeat.action(event) is Teardown <==> (event is Disconnected || event is DeviceLost),
        heartbeat.action(event) is Teardown ==> heartbeat.action(event) == HeartbeatAction::Teardown(
            heartbeat.graphics_client->Some_0,
        ),
{
}

/// The pump of a heartbeat that holds its client ends exactly when the
/// channel is closed or the device is lost. No request ends it, the end of a
/// frame no more than the start of one, and no wait that timed out does.
pub proof fn law_pump_ends_only_when_over(heartbeat: HeartbeatView, event: HeartbeatEvent)
    requires
        heartbeat.graphics_client is Some,
    ensures
        !heartbeat.action(event).keeps_beating() <==> (event is Disconnected || event is DeviceLost),
        event is Message ==> heartbeat.action(event).keeps_beating() && !heartbeat.action(event).hands_back(),
        heartbeat.action(event).hands_back() <==> event is TimedOut,
        heartbeat.action(event).hands_back() ==> heartbeat.action(event).keeps_beating(),
{
}

/// The stamps of the frames never decrease, and while the stamp has room each
/// frame begun gets a stamp one larger than the frame before it.
pub proof fn law_timestamps_monotone(heartbeat: HeartbeatView, event: HeartbeatEvent)
    ensures
        heartbeat.after(event).timestamp >= heartbeat.timestamp,
        heartbeat.action(event) is BeginFrame && heartbeat.timestamp < u64::MAX
            ==> heartbeat.after(event).timestamp == heartbeat.timestamp + 1,
        !(heartbeat.action(event) is BeginFrame) ==> heartbeat.after(event).timestamp == heartbeat.timestamp,
{
}

} // verus!
