use capture_core::Position;
use capture_core::dispatch::{
    Action, Capability, Coordinator, DEFAULT_STOP_KEY, LoopInput, LoopState, ProtocolEvent,
    supported_capabilities,
};
use capture_core::errors::CaptureError;
use capture_core::geometry::{Barrier, Zone, ZoneSet, plan_barriers};
use capture_core::handshake::{
    EventChannel, HandshakeOutcome, Interface, InterfaceVersion, complete_handshake,
    handshake_config, interface_name, max_version,
};
use capture_core::session::{
    Activation, CursorPos, SessionCapability, SessionController, SessionState,
    requested_capabilities,
};

fn controller_in_activated_state(a: Activation) -> SessionController {
    let mut ctl = SessionController::new();
    ctl.session_created();
    ctl.zones_fetched(3);
    ctl.submit_barriers(3).unwrap();
    ctl.enable();
    ctl.activated(a);
    ctl
}

#[test]
fn release_with_wrong_id_fails_without_closing() {
    let a = Activation { id: 11, cursor: None };
    let mut ctl = controller_in_activated_state(a);
    let r = ctl.release(12);
    assert_eq!(r, Err(CaptureError::InvalidActivation));
    assert_ne!(ctl.state, SessionState::Closed);
    assert_eq!(ctl.state, SessionState::Activated);
    assert_eq!(ctl.current_activation, Some(a));
    // the matching id still goes through afterwards
    assert_eq!(ctl.release(11), Ok(()));
    assert_eq!(ctl.state, SessionState::Enabled);
}

#[test]
fn stale_generation_is_rejected_and_refetch_recovers() {
    let mut ctl = SessionController::new();
    ctl.session_created();
    ctl.zones_fetched(5);
    assert_eq!(ctl.submit_barriers(4), Err(CaptureError::StaleZoneSet));
    assert_eq!(ctl.state, SessionState::Created);
    ctl.zones_fetched(6);
    assert_eq!(ctl.submit_barriers(6), Ok(()));
    assert_eq!(ctl.state, SessionState::BarriersSet);
}

#[test]
fn new_activation_supersedes_an_abandoned_one() {
    let a1 = Activation { id: 1, cursor: None };
    let mut ctl = controller_in_activated_state(a1);
    let a2 = Activation { id: 2, cursor: None };
    ctl.activated(a2);
    assert_eq!(ctl.current_activation, Some(a2));
    assert_eq!(ctl.release(1), Err(CaptureError::InvalidActivation));
    assert_eq!(ctl.release(2), Ok(()));
}

#[test]
fn close_is_idempotent() {
    let a = Activation { id: 1, cursor: None };
    let mut ctl = controller_in_activated_state(a);
    ctl.close();
    assert_eq!(ctl.state, SessionState::Closed);
    assert_eq!(ctl.current_activation, None);
    ctl.close();
    assert_eq!(ctl.state, SessionState::Closed);
}

#[test]
fn device_added_restarts_cycle_and_binds_device() {
    let mut c = Coordinator::new(Position::Left, DEFAULT_STOP_KEY);
    let a = Activation { id: 3, cursor: Some(CursorPos { x: 0, y: 10 }) };
    assert_eq!(c.step(LoopInput::Activated { activation: a }), Action::AwaitEvent);
    assert_eq!(c.state, LoopState::Draining);
    let action = c.step(LoopInput::Event { event: ProtocolEvent::DeviceAdded { device: 42 } });
    assert_eq!(action, Action::BindDeviceAndRestart { device: 42 });
    assert!(!matches!(action, Action::Release { .. }));
    assert_eq!(c.state, LoopState::WaitingForActivation);
    assert!(c.devices.contains(&42));
    assert_eq!(c.activation, None);
}

#[test]
fn terminal_input_releases_exactly_once_with_activation_id() {
    let mut c = Coordinator::new(Position::Left, DEFAULT_STOP_KEY);
    let a = Activation { id: 9, cursor: Some(CursorPos { x: 5, y: 500 }) };
    c.step(LoopInput::Activated { activation: a });
    let action = c.step(LoopInput::Event {
        event: ProtocolEvent::KeyboardKey { key: DEFAULT_STOP_KEY, pressed: true },
    });
    assert_eq!(
        action,
        Action::Release { activation_id: 9, cursor: Some(CursorPos { x: 6, y: 500 }) }
    );
    assert_eq!(c.state, LoopState::WaitingForActivation);
    // a second stop key press outside a cycle releases nothing
    let after = c.step(LoopInput::Event {
        event: ProtocolEvent::KeyboardKey { key: DEFAULT_STOP_KEY, pressed: true },
    });
    assert_eq!(after, Action::AwaitActivation);
}

#[test]
fn stop_key_release_and_other_keys_are_ignored() {
    let mut c = Coordinator::new(Position::Left, DEFAULT_STOP_KEY);
    let a = Activation { id: 2, cursor: None };
    c.step(LoopInput::Activated { activation: a });
    let up = c.step(LoopInput::Event {
        event: ProtocolEvent::KeyboardKey { key: DEFAULT_STOP_KEY, pressed: false },
    });
    assert_eq!(up, Action::AwaitEvent);
    let other = c.step(LoopInput::Event {
        event: ProtocolEvent::KeyboardKey { key: 30, pressed: true },
    });
    assert_eq!(other, Action::AwaitEvent);
    assert_eq!(c.state, LoopState::Draining);
}

#[test]
fn seat_added_binds_seat_and_drain_continues() {
    let mut c = Coordinator::new(Position::Top, DEFAULT_STOP_KEY);
    let a = Activation { id: 4, cursor: None };
    c.step(LoopInput::Activated { activation: a });
    let action = c.step(LoopInput::Event { event: ProtocolEvent::SeatAdded { seat: 7 } });
    assert_eq!(action, Action::BindSeat { seat: 7 });
    assert_eq!(c.state, LoopState::Draining);
}

#[test]
fn device_removed_updates_table_and_drain_continues() {
    let mut c = Coordinator::new(Position::Top, DEFAULT_STOP_KEY);
    let a = Activation { id: 4, cursor: None };
    c.step(LoopInput::Activated { activation: a });
    c.step(LoopInput::Event { event: ProtocolEvent::DeviceAdded { device: 5 } });
    c.step(LoopInput::Activated { activation: a });
    let action = c.step(LoopInput::Event { event: ProtocolEvent::DeviceRemoved { device: 5 } });
    assert_eq!(action, Action::AwaitEvent);
    assert!(!c.devices.contains(&5));
    assert_eq!(c.state, LoopState::Draining);
}

#[test]
fn event_source_ending_is_fatal() {
    let mut c = Coordinator::new(Position::Left, DEFAULT_STOP_KEY);
    let a = Activation { id: 1, cursor: None };
    c.step(LoopInput::Activated { activation: a });
    let action = c.step(LoopInput::EventSourceEnded);
    assert_eq!(action, Action::Teardown { error: CaptureError::ChannelClosed });
    assert_eq!(c.state, LoopState::Stopped);
}

#[test]
fn activation_source_ending_is_fatal() {
    let mut c = Coordinator::new(Position::Left, DEFAULT_STOP_KEY);
    let action = c.step(LoopInput::ActivationSourceEnded);
    assert_eq!(action, Action::Teardown { error: CaptureError::ChannelClosed });
    assert_eq!(c.state, LoopState::Stopped);
}

#[test]
fn stale_events_are_discarded_between_cycles() {
    let mut c = Coordinator::new(Position::Left, DEFAULT_STOP_KEY);
    let action = c.step(LoopInput::Event {
        event: ProtocolEvent::KeyboardKey { key: DEFAULT_STOP_KEY, pressed: true },
    });
    assert_eq!(action, Action::AwaitActivation);
    assert_eq!(c.state, LoopState::WaitingForActivation);
}

#[test]
fn nudge_direction_follows_the_edge() {
    let cursor = CursorPos { x: 100, y: 200 };
    let cases = [
        (Position::Left, CursorPos { x: 101, y: 200 }),
        (Position::Right, CursorPos { x: 99, y: 200 }),
        (Position::Top, CursorPos { x: 100, y: 201 }),
        (Position::Bottom, CursorPos { x: 100, y: 199 }),
    ];
    for (edge, expected) in cases {
        let mut c = Coordinator::new(edge, DEFAULT_STOP_KEY);
        let a = Activation { id: 1, cursor: Some(cursor) };
        c.step(LoopInput::Activated { activation: a });
        let action = c.step(LoopInput::Event {
            event: ProtocolEvent::KeyboardKey { key: DEFAULT_STOP_KEY, pressed: true },
        });
        assert_eq!(action, Action::Release { activation_id: 1, cursor: Some(expected) });
    }
}

#[test]
fn nudge_saturates_at_the_grid_edge() {
    let mut c = Coordinator::new(Position::Left, DEFAULT_STOP_KEY);
    let a = Activation { id: 1, cursor: Some(CursorPos { x: i32::MAX, y: 0 }) };
    c.step(LoopInput::Activated { activation: a });
    let action = c.step(LoopInput::Event {
        event: ProtocolEvent::KeyboardKey { key: DEFAULT_STOP_KEY, pressed: true },
    });
    assert_eq!(
        action,
        Action::Release { activation_id: 1, cursor: Some(CursorPos { x: i32::MAX, y: 0 }) }
    );
}

#[test]
fn bottom_nudge_saturates_at_the_grid_edge() {
    let mut c = Coordinator::new(Position::Bottom, DEFAULT_STOP_KEY);
    let a = Activation { id: 2, cursor: Some(CursorPos { x: 7, y: i32::MIN }) };
    c.step(LoopInput::Activated { activation: a });
    let action = c.step(LoopInput::Event {
        event: ProtocolEvent::KeyboardKey { key: DEFAULT_STOP_KEY, pressed: true },
    });
    assert_eq!(
        action,
        Action::Release { activation_id: 2, cursor: Some(CursorPos { x: 7, y: i32::MIN }) }
    );
}

#[test]
fn handshake_rejection_tears_the_session_down() {
    let mut ctl = SessionController::new();
    ctl.session_created();
    ctl.connect_event_channel();
    let r = complete_handshake(&mut ctl, HandshakeOutcome::Rejected);
    assert!(matches!(r, Err(CaptureError::HandshakeFailed)));
    assert_eq!(ctl.state, SessionState::Closed);
}

#[test]
fn handshake_with_excessive_version_tears_the_session_down() {
    let mut ctl = SessionController::new();
    ctl.session_created();
    ctl.connect_event_channel();
    let negotiated = vec![InterfaceVersion { interface: Interface::Pointer, version: 2 }];
    let r = complete_handshake(&mut ctl, HandshakeOutcome::Accepted { serial: 1, negotiated });
    assert!(matches!(r, Err(CaptureError::HandshakeFailed)));
    assert_eq!(ctl.state, SessionState::Closed);
}

#[test]
fn handshake_acceptance_hands_out_the_channel() {
    let mut ctl = SessionController::new();
    ctl.session_created();
    ctl.connect_event_channel();
    let negotiated = vec![
        InterfaceVersion { interface: Interface::Seat, version: 1 },
        InterfaceVersion { interface: Interface::Device, version: 2 },
    ];
    let r = complete_handshake(
        &mut ctl,
        HandshakeOutcome::Accepted { serial: 41, negotiated: negotiated.clone() },
    );
    let channel: EventChannel = r.unwrap();
    assert_eq!(channel.serial, 41);
    assert_eq!(channel.negotiated, negotiated);
    assert_ne!(ctl.state, SessionState::Closed);
}

#[test]
fn handshake_config_offers_every_interface() {
    let config = handshake_config();
    assert_eq!(config.len(), 11);
    for entry in &config {
        assert_eq!(entry.version, max_version(entry.interface));
    }
    assert!(
        config
            .iter()
            .any(|e| e.interface == Interface::Device && e.version == 2)
    );
    assert_eq!(interface_name(Interface::Device), "ei_device");
    assert_eq!(interface_name(Interface::PointerAbsolute), "ei_pointer_absolute");
}

#[test]
fn capability_sets_are_fixed_configuration() {
    assert_eq!(
        supported_capabilities(),
        vec![
            Capability::Pointer,
            Capability::PointerAbsolute,
            Capability::Keyboard,
            Capability::Touch,
            Capability::Scroll,
            Capability::Button,
        ]
    );
    assert_eq!(
        requested_capabilities(),
        vec![
            SessionCapability::Keyboard,
            SessionCapability::Pointer,
            SessionCapability::Touchscreen,
        ]
    );
}

#[test]
fn full_cycle_scenario_on_the_left_edge() {
    // one zone, left edge: a single barrier with id 0 spanning the edge
    let set = ZoneSet { zones: vec![Zone { x: 0, y: 0, width: 1920, height: 1080 }], generation: 1 };
    let barriers = plan_barriers(&set.zones, Position::Left);
    assert_eq!(barriers, vec![Barrier { id: 0, x1: 0, y1: 0, x2: 0, y2: 1079 }]);

    // submission succeeds against the fetched generation; no barrier fails
    let mut ctl = SessionController::new();
    ctl.session_created();
    ctl.zones_fetched(set.generation);
    assert_eq!(ctl.submit_barriers(set.generation), Ok(()));
    ctl.barriers_rejected(Vec::new());
    assert!(ctl.failed_barriers.is_empty());
    ctl.enable();
    assert_eq!(ctl.state, SessionState::Enabled);

    // activation with cursor (5, 500); the stop key ends the cycle
    let a = Activation { id: 27, cursor: Some(CursorPos { x: 5, y: 500 }) };
    ctl.activated(a);
    let mut c = Coordinator::new(Position::Left, DEFAULT_STOP_KEY);
    assert_eq!(c.step(LoopInput::Activated { activation: a }), Action::AwaitEvent);
    let action = c.step(LoopInput::Event {
        event: ProtocolEvent::KeyboardKey { key: DEFAULT_STOP_KEY, pressed: true },
    });
    // release carries the activation id and the cursor nudged rightward
    assert_eq!(
        action,
        Action::Release { activation_id: 27, cursor: Some(CursorPos { x: 6, y: 500 }) }
    );
    assert_eq!(ctl.release(27), Ok(()));
    assert_eq!(ctl.state, SessionState::Enabled);
    // and the loop is back to waiting
    assert_eq!(c.state, LoopState::WaitingForActivation);
}
