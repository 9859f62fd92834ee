use vstd::prelude::*;

use crate::Position;
use crate::errors::CaptureError;
use crate::session::{Activation, CursorPos};

verus! {

/// The designated stop key: key code 1, Escape on the usual keymap.
pub const DEFAULT_STOP_KEY: u32 = 1;

/// A decoded unit from the event channel, reduced to what the coordination
/// core needs: device topology, terminal input, and everything else.
#[derive(Clone, Copy, PartialEq, Eq, Structural, Debug)]
pub enum ProtocolEvent {
    SeatAdded { seat: u64 },
    SeatRemoved { seat: u64 },
    DeviceAdded { device: u64 },
    DeviceRemoved { device: u64 },
    KeyboardKey { key: u32, pressed: bool },
    Other,
}

/// The classification the dispatch loop acts on.
#[derive(Clone, Copy, PartialEq, Eq, Structural, Debug)]
pub enum EventClass {
    SeatAppeared { seat: u64 },
    SeatVanished { seat: u64 },
    TopologyAdded { device: u64 },
    TopologyRemoved { device: u64 },
    Terminal,
    Other,
}

/// How one event is classified: device additions and removals are topology
/// changes, a press of the designated stop key is terminal input, and
/// everything else (releases of the stop key included) is ignored.
pub open spec fn spec_classify(e: ProtocolEvent, stop_key: u32) -> EventClass {
    match e {
        ProtocolEvent::SeatAdded { seat } => EventClass::SeatAppeared { seat },
        ProtocolEvent::SeatRemoved { seat } => EventClass::SeatVanished { seat },
        ProtocolEvent::DeviceAdded { device } => EventClass::TopologyAdded { device },
        ProtocolEvent::DeviceRemoved { device } => EventClass::TopologyRemoved { device },
        ProtocolEvent::KeyboardKey { key, pressed } => if pressed && key == stop_key {
            EventClass::Terminal
        } else {
            EventClass::Other
        },
        ProtocolEvent::Other => EventClass::Other,
    }
}

/// Classifies one protocol event against the designated stop key.
pub fn classify(e: &ProtocolEvent, stop_key: u32) -> (c: EventClass)
    ensures
        c == spec_classify(*e, stop_key),
{
    match *e {
        ProtocolEvent::SeatAdded { seat } => EventClass::SeatAppeared { seat },
        ProtocolEvent::SeatRemoved { seat } => EventClass::SeatVanished { seat },
        ProtocolEvent::DeviceAdded { device } => EventClass::TopologyAdded { device },
        ProtocolEvent::DeviceRemoved { device } => EventClass::TopologyRemoved { device },
        ProtocolEvent::KeyboardKey { key, pressed } => if pressed && key == stop_key {
            EventClass::Terminal
        } else {
            EventClass::Other
        },
        ProtocolEvent::Other => EventClass::Other,
    }
}

/// The input capability classes this application binds on every seat and
/// newly seen device.
#[derive(Clone, Copy, PartialEq, Eq, Structural, Debug)]
pub enum Capability {
    Pointer,
    PointerAbsolute,
    Keyboard,
    Touch,
    Scroll,
    Button,
}

/// The capability set bound on every seat and device: all six classes.
pub open spec fn spec_supported_capabilities() -> Seq<Capability> {
    seq![
        Capability::Pointer,
        Capability::PointerAbsolute,
        Capability::Keyboard,
        Capability::Touch,
        Capability::Scroll,
        Capability::Button,
    ]
}

/// Builds the supported capability set, explicit configuration data rather
/// than a constant buried at the binding site.
pub fn supported_capabilities() -> (r: Vec<Capability>)
    ensures
        r@ == spec_supported_capabilities(),
{
    let mut r: Vec<Capability> = Vec::new();
    r.push(Capability::Pointer);
    r.push(Capability::PointerAbsolute);
    r.push(Capability::Keyboard);
    r.push(Capability::Touch);
    r.push(Capability::Scroll);
    r.push(Capability::Button);
    proof {
        assert(r@ =~= spec_supported_capabilities());
    }
    r
}

/// No device id occurs twice in the table.
pub open spec fn no_dup(s: Seq<u64>) -> bool {
    forall|i: int, j: int| 0 <= i < j < s.len() ==> s[i] != s[j]
}

/// The table after binding a device: unchanged if the device is already
/// bound, else the device is appended.
pub open spec fn spec_bind_device(devices: Seq<u64>, device: u64) -> Seq<u64> {
    if devices.contains(device) {
        devices
    } else {
        devices.push(device)
    }
}

/// Keeps every table entry other than the removed device.
pub open spec fn keep_other_than(device: u64) -> spec_fn(u64) -> bool {
    |d: u64| d != device
}

/// The table after a device is removed.
pub open spec fn spec_remove_device(devices: Seq<u64>, device: u64) -> Seq<u64> {
    devices.filter(keep_other_than(device))
}

/// A filtered table stays free of duplicates.
proof fn lemma_no_dup_filter(s: Seq<u64>, pred: spec_fn(u64) -> bool)
    requires
        no_dup(s),
    ensures
        no_dup(s.filter(pred)),
    decreases s.len(),
{
    reveal(Seq::filter);
    if s.len() > 0 {
        let rest = s.drop_last();
        assert(no_dup(rest));
        lemma_no_dup_filter(rest, pred);
        if pred(s.last()) {
            let f = rest.filter(pred);
            if f.contains(s.last()) {
                Seq::lemma_filter_contains_rev(rest, pred, s.last());
                let k = choose|k: int| 0 <= k < rest.len() && rest[k] == s.last();
                assert(s[k] == s[s.len() - 1]);
                assert(false);
            }
            assert forall|i: int, j: int| 0 <= i < j < f.push(s.last()).len() implies f.push(
                s.last(),
            )[i] != f.push(s.last())[j] by {
                if j < f.len() {
                    assert(f[i] != f[j]);
                } else {
                    if f.push(s.last())[i] == s.last() {
                        assert(f.contains(s.last()));
                    }
                }
            }
        }
    }
}

/// Binds a device: appends it to the table unless it is already there.
pub fn bind_device(devices: &mut Vec<u64>, device: u64)
    requires
        no_dup(old(devices)@),
    ensures
        final(devices)@ == spec_bind_device(old(devices)@, device),
        no_dup(final(devices)@),
        final(devices)@.contains(device),
{
    let mut found = false;
    let mut i: usize = 0;
    while i < devices.len()
        invariant
            i <= devices@.len(),
            found <==> exists|k: int| 0 <= k < i && devices@[k] == device,
        decreases devices@.len() - i,
    {
        if devices[i] == device {
            found = true;
        }
        i += 1;
    }
    if !found {
        devices.push(device);
        proof {
            let s = old(devices)@;
            assert(!s.contains(device));
            assert(devices@ == s.push(device));
            assert forall|i: int, j: int| 0 <= i < j < devices@.len() implies devices@[i]
                != devices@[j] by {
                if j == s.len() {
                    if devices@[i] == device {
                        assert(s[i] == device);
                        assert(s.contains(device));
                    }
                } else {
                    assert(s[i] != s[j]);
                }
            }
            assert(devices@[s.len() as int] == device);
        }
    }
}

/// Removes a device from the table, if present.
pub fn remove_device(devices: &mut Vec<u64>, device: u64)
    requires
        no_dup(old(devices)@),
    ensures
        final(devices)@ == spec_remove_device(old(devices)@, device),
        no_dup(final(devices)@),
        !final(devices)@.contains(device),
{
    let ghost pred = keep_other_than(device);
    let mut out: Vec<u64> = Vec::new();
    let mut i: usize = 0;
    while i < devices.len()
        invariant
            i <= devices@.len(),
            out@ == devices@.subrange(0, i as int).filter(pred),
            pred == keep_other_than(device),
        decreases devices@.len() - i,
    {
        let ghost pre = devices@.subrange(0, i as int);
        let d = devices[i];
        if d != device {
            out.push(d);
        }
        i += 1;
        proof {
            assert(devices@.subrange(0, i as int) =~= pre.push(d));
            pre.lemma_filter_push(d, pred);
            assert(pred(d) == (d != device));
        }
    }
    proof {
        assert(devices@.subrange(0, devices@.len() as int) =~= devices@);
        lemma_no_dup_filter(devices@, pred);
        if devices@.filter(pred).contains(device) {
            Seq::lemma_filter_contains_rev(devices@, pred, device);
            assert(pred(device));
            assert(false);
        }
    }
    *devices = out;
}

/// Saturating one-pixel increment on the coordinate grid.
pub open spec fn sat_inc(v: i32) -> i32 {
    if v == i32::MAX {
        v
    } else {
        (v + 1) as i32
    }
}

/// Saturating one-pixel decrement on the coordinate grid.
pub open spec fn sat_dec(v: i32) -> i32 {
    if v == i32::MIN {
        v
    } else {
        (v - 1) as i32
    }
}

/// The cursor position suggested on release: one pixel away from the
/// triggering edge (the inverse of the edge normal), so the same barrier is
/// not crossed again at once. On the grid y grows downward, so a left-edge
/// capture nudges the cursor right, a top-edge capture nudges it down into
/// the screen, and a bottom-edge capture nudges it up.
pub open spec fn spec_nudged(p: CursorPos, edge: Position) -> CursorPos {
    match edge {
        Position::Left => CursorPos { x: sat_inc(p.x), y: p.y },
        Position::Right => CursorPos { x: sat_dec(p.x), y: p.y },
        Position::Top => CursorPos { x: p.x, y: sat_inc(p.y) },
        Position::Bottom => CursorPos { x: p.x, y: sat_dec(p.y) },
    }
}

/// The optional cursor handed to release: nudged when the activation carried
/// a position, absent when it did not.
pub open spec fn spec_release_cursor(c: Option<CursorPos>, edge: Position) -> Option<CursorPos> {
    match c {
        Some(p) => Some(spec_nudged(p, edge)),
        None => None,
    }
}

/// Computes the nudged cursor position for one edge.
pub fn nudge_cursor(p: CursorPos, edge: Position) -> (r: CursorPos)
    ensures
        r == spec_nudged(p, edge),
{
    match edge {
        Position::Left => CursorPos {
            x: if p.x == i32::MAX {
                p.x
            } else {
                p.x + 1
            },
            y: p.y,
        },
        Position::Right => CursorPos {
            x: if p.x == i32::MIN {
                p.x
            } else {
                p.x - 1
            },
            y: p.y,
        },
        Position::Top => CursorPos {
            x: p.x,
            y: if p.y == i32::MAX {
                p.y
            } else {
                p.y + 1
            },
        },
        Position::Bottom => CursorPos {
            x: p.x,
            y: if p.y == i32::MIN {
                p.y
            } else {
                p.y - 1
            },
        },
    }
}

/// Computes the optional release cursor.
pub fn release_cursor(c: Option<CursorPos>, edge: Position) -> (r: Option<CursorPos>)
    ensures
        r == spec_release_cursor(c, edge),
{
    match c {
        Some(p) => Some(nudge_cursor(p, edge)),
        None => None,
    }
}

/// What the event dispatch loop waits for next: an activation signal outside
/// a capture cycle, protocol events inside one, and nothing once torn down.
#[derive(Clone, Copy, PartialEq, Eq, Structural, Debug)]
pub enum LoopState {
    WaitingForActivation,
    Draining,
    Stopped,
}

/// What the driver must do after one step of the coordinator.
#[derive(Clone, Copy, PartialEq, Eq, Structural, Debug)]
pub enum Action {
    /// Wait for the next activation signal.
    AwaitActivation,
    /// Wait for the next protocol event.
    AwaitEvent,
    /// Bind the seat to the supported capability set, flush pending protocol
    /// writes, then wait for the next protocol event.
    BindSeat { seat: u64 },
    /// Bind the new device, flush pending protocol writes, and restart the
    /// capture cycle without a release.
    BindDeviceAndRestart { device: u64 },
    /// End the cycle normally: release with the activation id that started
    /// it and the nudged cursor position.
    Release { activation_id: u32, cursor: Option<CursorPos> },
    /// Tear the session down; the loop is over.
    Teardown { error: CaptureError },
}

/// One notification from either asynchronous source, as the single consumer
/// sees it.
#[derive(Clone, Copy, PartialEq, Eq, Structural, Debug)]
pub enum LoopInput {
    /// An activation signal: a barrier was crossed.
    Activated { activation: Activation },
    /// A decoded protocol event.
    Event { event: ProtocolEvent },
    /// The activation signal stream ended.
    ActivationSourceEnded,
    /// The protocol event stream ended.
    EventSourceEnded,
}

/// The mathematical model of the coordinator: its state, the activation of
/// the cycle in progress, the bound device table, and its configuration.
pub struct CoordModel {
    pub state: LoopState,
    pub activation: Option<Activation>,
    pub devices: Seq<u64>,
    pub edge: Position,
    pub stop_key: u32,
}

/// One step of the coordination core: from the current model and one input
/// to the next model and the action the driver must take.
///
/// - An activation observed while waiting opens a capture cycle; from then
///   on every event read belongs to that cycle.
/// - While waiting, stray protocol events are drained and discarded, so a
///   stale event is never attributed to a new cycle.
/// - A device addition invalidates the just-bound capability set: the new
///   device is bound and the cycle restarts without a release.
/// - A device removal only updates the table.
/// - Terminal input ends the cycle with exactly one release carrying the
///   activation id that opened it.
/// - Either source ending is fatal: tear down, and step away nothing more.
pub open spec fn spec_step(m: CoordModel, input: LoopInput) -> (CoordModel, Action) {
    if m.state == LoopState::Stopped {
        (m, Action::Teardown { error: CaptureError::ChannelClosed })
    } else {
        match input {
            LoopInput::ActivationSourceEnded => (
                CoordModel { state: LoopState::Stopped, activation: None, ..m },
                Action::Teardown { error: CaptureError::ChannelClosed },
            ),
            LoopInput::EventSourceEnded => (
                CoordModel { state: LoopState::Stopped, activation: None, ..m },
                Action::Teardown { error: CaptureError::ChannelClosed },
            ),
            LoopInput::Activated { activation } => {
                if m.state == LoopState::WaitingForActivation {
                    (
                        CoordModel {
                            state: LoopState::Draining,
                            activation: Some(activation),
                            ..m
                        },
                        Action::AwaitEvent,
                    )
                } else {
                    // A strictly sequential consumer never observes a second
                    // activation while draining; one that arrives anyway is
                    // left to the next cycle.
                    (m, Action::AwaitEvent)
                }
            },
            LoopInput::Event { event } => {
                if m.state == LoopState::WaitingForActivation {
                    (m, Action::AwaitActivation)
                } else {
                    match spec_classify(event, m.stop_key) {
                        EventClass::SeatAppeared { seat } => (m, Action::BindSeat { seat }),
                        EventClass::SeatVanished { seat } => (m, Action::AwaitEvent),
                        EventClass::TopologyAdded { device } => (
                            CoordModel {
                                state: LoopState::WaitingForActivation,
                                activation: None,
                                devices: spec_bind_device(m.devices, device),
                                ..m
                            },
                            Action::BindDeviceAndRestart { device },
                        ),
                        EventClass::TopologyRemoved { device } => (
                            CoordModel { devices: spec_remove_device(m.devices, device), ..m },
                            Action::AwaitEvent,
                        ),
                        EventClass::Terminal => {
                            match m.activation {
                                Some(a) => (
                                    CoordModel {
                                        state: LoopState::WaitingForActivation,
                                        activation: None,
                                        ..m
                                    },
                                    Action::Release {
                                        activation_id: a.id,
                                        cursor: spec_release_cursor(a.cursor, m.edge),
                                    },
                                ),
                                None => (
                                    CoordModel { state: LoopState::WaitingForActivation, ..m },
                                    Action::AwaitActivation,
                                ),
                            }
                        },
                        EventClass::Other => (m, Action::AwaitEvent),
                    }
                }
            },
        }
    }
}

/// The event dispatch coordinator: merges the two asynchronous notification
/// sources into one strictly sequential control flow. The driver performs
/// each returned action and hands the next notification back.
pub struct Coordinator {
    /// What the loop is waiting on.
    pub state: LoopState,
    /// The activation that opened the cycle in progress, if one has.
    pub activation: Option<Activation>,
    /// The bound device table, each id at most once.
    pub devices: Vec<u64>,
    /// The screen edge the barriers lie on, which directs the release nudge.
    pub edge: Position,
    /// The key whose press is terminal input.
    pub stop_key: u32,
}

impl Coordinator {
    /// The coordinator's mathematical model.
    pub open spec fn model(self) -> CoordModel {
        CoordModel {
            state: self.state,
            activation: self.activation,
            devices: self.devices@,
            edge: self.edge,
            stop_key: self.stop_key,
        }
    }

    /// An activation is held exactly while a cycle is drained, and no device
    /// is bound twice.
    pub open spec fn wf(self) -> bool {
        &&& self.activation is Some <==> self.state == LoopState::Draining
        &&& no_dup(self.devices@)
    }

    /// A fresh coordinator, waiting for the first activation.
    pub fn new(edge: Position, stop_key: u32) -> (r: Coordinator)
        ensures
            r.state == LoopState::WaitingForActivation,
            r.activation is None,
            r.devices@ =~= Seq::<u64>::empty(),
            r.edge == edge,
            r.stop_key == stop_key,
            r.wf(),
    {
        Coordinator {
            state: LoopState::WaitingForActivation,
            activation: None,
            devices: Vec::new(),
            edge,
            stop_key,
        }
    }

    /// Advances the coordinator by one notification and says what the driver
    /// must do next, exactly as `spec_step` describes.
    pub fn step(&mut self, input: LoopInput) -> (r: Action)
        requires
            old(self).wf(),
        ensures
            (final(self).model(), r) == spec_step(old(self).model(), input),
            final(self).wf(),
    {
        if self.state == LoopState::Stopped {
            return Action::Teardown { error: CaptureError::ChannelClosed };
        }
        match input {
            LoopInput::ActivationSourceEnded => {
                self.state = LoopState::Stopped;
                self.activation = None;
                Action::Teardown { error: CaptureError::ChannelClosed }
            },
            LoopInput::EventSourceEnded => {
                self.state = LoopState::Stopped;
                self.activation = None;
                Action::Teardown { error: CaptureError::ChannelClosed }
            },
            LoopInput::Activated { activation } => {
                if self.state == LoopState::WaitingForActivation {
                    self.state = LoopState::Draining;
                    self.activation = Some(activation);
                }
                Action::AwaitEvent
            },
            LoopInput::Event { event } => {
                if self.state == LoopState::WaitingForActivation {
                    Action::AwaitActivation
                } else {
                    match classify(&event, self.stop_key) {
                        EventClass::SeatAppeared { seat } => Action::BindSeat { seat },
                        EventClass::SeatVanished { seat: _ } => Action::AwaitEvent,
                        EventClass::TopologyAdded { device } => {
                            bind_device(&mut self.devices, device);
                            self.state = LoopState::WaitingForActivation;
                            self.activation = None;
                            Action::BindDeviceAndRestart { device }
                        },
                        EventClass::TopologyRemoved { device } => {
                            remove_device(&mut self.devices, device);
                            Action::AwaitEvent
                        },
                        EventClass::Terminal => {
                            match self.activation {
                                Some(a) => {
                                    let cursor = release_cursor(a.cursor, self.edge);
                                    self.state = LoopState::WaitingForActivation;
                                    self.activation = None;
                                    Action::Release { activation_id: a.id, cursor }
                                },
                                None => {
                                    self.state = LoopState::WaitingForActivation;
                                    Action::AwaitActivation
                                },
                            }
                        },
                        EventClass::Other => Action::AwaitEvent,
                    }
                }
            },
        }
    }
}

/// Law: a device-added event observed while draining restarts the capture
/// cycle. The coordinator returns to waiting without issuing a release, and
/// the new device stands in the bound table before any further event is
/// interpreted.
pub proof fn lemma_device_added_restarts_cycle(m: CoordModel, device: u64)
    requires
        m.state == LoopState::Draining,
    ensures
        ({
            let (m2, a) = spec_step(
                m,
                LoopInput::Event { event: ProtocolEvent::DeviceAdded { device } },
            );
            &&& m2.state == LoopState::WaitingForActivation
            &&& a == (Action::BindDeviceAndRestart { device })
            &&& !(a is Release)
            &&& m2.devices.contains(device)
        }),
{
    let s = m.devices;
    if !s.contains(device) {
        assert(s.push(device)[s.len() as int] == device);
        assert(s.push(device).contains(device));
    }
}

/// Law: a press of the designated stop key observed while draining ends the
/// cycle normally: exactly one release, carrying the activation id that
/// opened the cycle and the cursor nudged away from the edge, and the
/// coordinator returns to waiting with its device table untouched.
pub proof fn lemma_terminal_input_releases(m: CoordModel, a: Activation)
    requires
        m.state == LoopState::Draining,
        m.activation == Some(a),
    ensures
        ({
            let (m2, act) = spec_step(
                m,
                LoopInput::Event {
                    event: ProtocolEvent::KeyboardKey { key: m.stop_key, pressed: true },
                },
            );
            &&& act == (Action::Release {
                activation_id: a.id,
                cursor: spec_release_cursor(a.cursor, m.edge),
            })
            &&& m2.state == LoopState::WaitingForActivation
            &&& m2.activation is None
            &&& m2.devices == m.devices
        }),
{
}

/// Law: one full capture cycle in order — an activation observed while
/// waiting, then a press of the stop key — first opens the drain, then ends
/// it with a release carrying exactly that activation's id and its cursor
/// nudged away from the edge, and leaves the coordinator waiting again.
pub proof fn lemma_cycle_releases_matching_id(m: CoordModel, a: Activation)
    requires
        m.state == LoopState::WaitingForActivation,
    ensures
        ({
            let (m1, act1) = spec_step(m, LoopInput::Activated { activation: a });
            let (m2, act2) = spec_step(
                m1,
                LoopInput::Event {
                    event: ProtocolEvent::KeyboardKey { key: m.stop_key, pressed: true },
                },
            );
            &&& act1 == Action::AwaitEvent
            &&& m1.state == LoopState::Draining
            &&& act2 == (Action::Release {
                activation_id: a.id,
                cursor: spec_release_cursor(a.cursor, m.edge),
            })
            &&& m2.state == LoopState::WaitingForActivation
            &&& m2.devices == m.devices
        }),
{
}

/// Law: while the coordinator waits for an activation, a protocol event is
/// drained and discarded — nothing of the model changes, so a stale event is
/// never attributed to the next cycle.
pub proof fn lemma_stale_events_discarded(m: CoordModel, event: ProtocolEvent)
    requires
        m.state == LoopState::WaitingForActivation,
    ensures
        spec_step(m, LoopInput::Event { event }) == (m, Action::AwaitActivation),
{
}

} // verus!
