use vstd::prelude::*;

use crate::errors::CaptureError;

verus! {

/// A cursor position on the integer pixel grid.
#[derive(Clone, Copy, PartialEq, Eq, Structural, Debug)]
pub struct CursorPos {
    pub x: i32,
    pub y: i32,
}

/// An asynchronous notification that a barrier was crossed and capture has
/// begun. The identifier must be echoed back on release; the cursor position
/// is optional.
#[derive(Clone, Copy, PartialEq, Eq, Structural, Debug)]
pub struct Activation {
    pub id: u32,
    pub cursor: Option<CursorPos>,
}

/// The lifecycle of one capture session, as this core tracks it. The
/// collaborator is the source of truth, but the core must follow along:
/// `Uninitialized -> Created -> BarriersSet -> Enabled -> Activated ->
/// Enabled (loop) -> Disabled / Closed`.
#[derive(Clone, Copy, PartialEq, Eq, Structural, Debug)]
pub enum SessionState {
    Uninitialized,
    Created,
    BarriersSet,
    Enabled,
    Activated,
    Disabled,
    Closed,
}

/// The session controller: owns the lifecycle of one capture session and
/// validates every transition before the corresponding request is made to
/// the session-management collaborator.
pub struct SessionController {
    /// Current lifecycle state.
    pub state: SessionState,
    /// Generation token of the most recently fetched zone set, if any.
    pub zone_generation: Option<u32>,
    /// The activation of the current capture cycle, if one is in progress.
    pub current_activation: Option<Activation>,
    /// Barrier ids the collaborator rejected on the last submission; those
    /// barriers never trigger an activation.
    pub failed_barriers: Vec<u32>,
    /// Whether the single-use event-channel endpoint has been handed out.
    pub event_channel_connected: bool,
}

impl SessionController {
    /// A controller is well formed when an activation is recorded exactly in
    /// the `Activated` state.
    pub open spec fn wf(self) -> bool {
        self.current_activation is Some <==> self.state == SessionState::Activated
    }

    /// A fresh controller: nothing negotiated yet.
    pub fn new() -> (r: SessionController)
        ensures
            r.state == SessionState::Uninitialized,
            r.zone_generation is None,
            r.current_activation is None,
            r.failed_barriers@ =~= Seq::<u32>::empty(),
            !r.event_channel_connected,
            r.wf(),
    {
        SessionController {
            state: SessionState::Uninitialized,
            zone_generation: None,
            current_activation: None,
            failed_barriers: Vec::new(),
            event_channel_connected: false,
        }
    }

    /// Records that the collaborator granted a session. Granted capabilities
    /// may be any subset of the requested ones, so nothing about device
    /// classes is assumed here.
    pub fn session_created(&mut self)
        requires
            old(self).state == SessionState::Uninitialized,
            old(self).wf(),
        ensures
            final(self).state == SessionState::Created,
            final(self).zone_generation == old(self).zone_generation,
            final(self).current_activation == old(self).current_activation,
            final(self).failed_barriers == old(self).failed_barriers,
            final(self).event_channel_connected == old(self).event_channel_connected,
            final(self).wf(),
    {
        self.state = SessionState::Created;
    }

    /// Records the generation token of a freshly fetched zone set. Zones may
    /// be re-fetched after a stale submission, so this is allowed both before
    /// and after barriers were set.
    pub fn zones_fetched(&mut self, generation: u32)
        requires
            old(self).state == SessionState::Created || old(self).state
                == SessionState::BarriersSet,
            old(self).wf(),
        ensures
            final(self).state == old(self).state,
            final(self).zone_generation == Some(generation),
            final(self).current_activation == old(self).current_activation,
            final(self).failed_barriers == old(self).failed_barriers,
            final(self).event_channel_connected == old(self).event_channel_connected,
            final(self).wf(),
    {
        self.zone_generation = Some(generation);
    }

    /// Validates a barrier submission against the fetched zone generation.
    /// A mismatching (or missing) generation fails with `StaleZoneSet` and
    /// changes nothing: the caller must re-fetch zones and replan. On a
    /// match the session moves to `BarriersSet`.
    pub fn submit_barriers(&mut self, generation: u32) -> (r: Result<(), CaptureError>)
        requires
            old(self).state == SessionState::Created || old(self).state
                == SessionState::BarriersSet,
            old(self).wf(),
        ensures
            r is Ok <==> old(self).zone_generation == Some(generation),
            r is Err ==> r == Result::<(), CaptureError>::Err(CaptureError::StaleZoneSet)
                && *final(self) == *old(self),
            r is Ok ==> *final(self) == (SessionController {
                state: SessionState::BarriersSet,
                ..*old(self)
            }),
            final(self).wf(),
    {
        let fresh = match self.zone_generation {
            Some(g) => g == generation,
            None => false,
        };
        if fresh {
            self.state = SessionState::BarriersSet;
            Ok(())
        } else {
            Err(CaptureError::StaleZoneSet)
        }
    }

    /// Records which submitted barrier ids the collaborator rejected. These
    /// are logged and not retried blindly: the corresponding edges simply
    /// grant no activation.
    pub fn barriers_rejected(&mut self, failed: Vec<u32>)
        requires
            old(self).state == SessionState::BarriersSet,
            old(self).wf(),
        ensures
            final(self).state == old(self).state,
            final(self).zone_generation == old(self).zone_generation,
            final(self).current_activation == old(self).current_activation,
            final(self).failed_barriers == failed,
            final(self).event_channel_connected == old(self).event_channel_connected,
            final(self).wf(),
    {
        self.failed_barriers = failed;
    }

    /// Marks the single-use event-channel endpoint as handed out. A second
    /// request would be undefined at the collaborator, so the precondition
    /// forbids it.
    pub fn connect_event_channel(&mut self)
        requires
            !old(self).event_channel_connected,
            old(self).state != SessionState::Uninitialized,
            old(self).state != SessionState::Closed,
            old(self).wf(),
        ensures
            *final(self) == (SessionController { event_channel_connected: true, ..*old(self) }),
            final(self).wf(),
    {
        self.event_channel_connected = true;
    }

    /// Enables activation delivery: from `BarriersSet` after a submission,
    /// or from `Disabled` when re-enabling.
    pub fn enable(&mut self)
        requires
            old(self).state == SessionState::BarriersSet || old(self).state
                == SessionState::Disabled,
            old(self).wf(),
        ensures
            *final(self) == (SessionController { state: SessionState::Enabled, ..*old(self) }),
            final(self).wf(),
    {
        self.state = SessionState::Enabled;
    }

    /// Disables activation delivery. Disabling while activated is a known
    /// hazard of the collaborator (it can silently stop all future signal
    /// delivery), so the precondition rules it out by design.
    pub fn disable(&mut self)
        requires
            old(self).state == SessionState::Enabled,
            old(self).wf(),
        ensures
            *final(self) == (SessionController { state: SessionState::Disabled, ..*old(self) }),
            final(self).wf(),
    {
        self.state = SessionState::Disabled;
    }

    /// Records an activation signal: the session enters `Activated` and the
    /// activation is held so its id can be checked on release. Consumed
    /// exactly once per capture cycle; a signal that arrives while one is
    /// still held (after a device-topology restart abandoned the cycle)
    /// supersedes the abandoned activation.
    pub fn activated(&mut self, a: Activation)
        requires
            old(self).state == SessionState::Enabled || old(self).state
                == SessionState::Activated,
            old(self).wf(),
        ensures
            *final(self) == (SessionController {
                state: SessionState::Activated,
                current_activation: Some(a),
                ..*old(self)
            }),
            final(self).wf(),
    {
        self.state = SessionState::Activated;
        self.current_activation = Some(a);
    }

    /// Validates a release request. The id must equal the most recently
    /// observed activation's id: any other id fails with `InvalidActivation`
    /// and leaves the controller unchanged — in particular the session is
    /// not closed. On a match the activation is consumed and the session
    /// returns to `Enabled`.
    pub fn release(&mut self, activation_id: u32) -> (r: Result<(), CaptureError>)
        requires
            old(self).wf(),
        ensures
            r is Ok <==> (old(self).current_activation matches Some(a) && a.id == activation_id),
            r is Err ==> r == Result::<(), CaptureError>::Err(CaptureError::InvalidActivation)
                && *final(self) == *old(self),
            r is Ok ==> *final(self) == (SessionController {
                state: SessionState::Enabled,
                current_activation: None,
                ..*old(self)
            }),
            final(self).wf(),
    {
        let current_matches = match self.current_activation {
            Some(a) => a.id == activation_id,
            None => false,
        };
        if current_matches {
            self.state = SessionState::Enabled;
            self.current_activation = None;
            Ok(())
        } else {
            Err(CaptureError::InvalidActivation)
        }
    }

    /// Tears the session down. Closing is idempotent and allowed from every
    /// state; any in-progress activation is dropped with it.
    pub fn close(&mut self)
        ensures
            *final(self) == (SessionController {
                state: SessionState::Closed,
                current_activation: None,
                ..*old(self)
            }),
            final(self).wf(),
    {
        self.state = SessionState::Closed;
        self.current_activation = None;
    }
}

/// The input capability classes one capture session asks the
/// session-management collaborator for.
#[derive(Clone, Copy, PartialEq, Eq, Structural, Debug)]
pub enum SessionCapability {
    Keyboard,
    Pointer,
    Touchscreen,
}

/// The capability classes requested at session creation. The collaborator
/// may grant any subset.
pub open spec fn spec_requested_capabilities() -> Seq<SessionCapability> {
    seq![SessionCapability::Keyboard, SessionCapability::Pointer, SessionCapability::Touchscreen]
}

/// Builds the requested capability set, explicit configuration data.
pub fn requested_capabilities() -> (r: Vec<SessionCapability>)
    ensures
        r@ == spec_requested_capabilities(),
{
    let mut r: Vec<SessionCapability> = Vec::new();
    r.push(SessionCapability::Keyboard);
    r.push(SessionCapability::Pointer);
    r.push(SessionCapability::Touchscreen);
    proof {
        assert(r@ =~= spec_requested_capabilities());
    }
    r
}

} // verus!
