use vstd::prelude::*;

use crate::errors::CaptureError;
use crate::session::{SessionController, SessionState};

verus! {

/// The event-channel interfaces this client understands.
#[derive(Clone, Copy, PartialEq, Eq, Structural, Debug)]
pub enum Interface {
    Connection,
    Callback,
    Pingpong,
    Seat,
    Device,
    Pointer,
    PointerAbsolute,
    Scroll,
    Button,
    Keyboard,
    Touchscreen,
}

/// The protocol name of each interface.
pub open spec fn spec_interface_name(i: Interface) -> Seq<char> {
    match i {
        Interface::Connection => "ei_connection"@,
        Interface::Callback => "ei_callback"@,
        Interface::Pingpong => "ei_pingpong"@,
        Interface::Seat => "ei_seat"@,
        Interface::Device => "ei_device"@,
        Interface::Pointer => "ei_pointer"@,
        Interface::PointerAbsolute => "ei_pointer_absolute"@,
        Interface::Scroll => "ei_scroll"@,
        Interface::Button => "ei_button"@,
        Interface::Keyboard => "ei_keyboard"@,
        Interface::Touchscreen => "ei_touchscreen"@,
    }
}

/// The protocol name of one interface, as it goes on the wire.
pub fn interface_name(i: Interface) -> (r: &'static str)
    ensures
        r@ == spec_interface_name(i),
{
    match i {
        Interface::Connection => "ei_connection",
        Interface::Callback => "ei_callback",
        Interface::Pingpong => "ei_pingpong",
        Interface::Seat => "ei_seat",
        Interface::Device => "ei_device",
        Interface::Pointer => "ei_pointer",
        Interface::PointerAbsolute => "ei_pointer_absolute",
        Interface::Scroll => "ei_scroll",
        Interface::Button => "ei_button",
        Interface::Keyboard => "ei_keyboard",
        Interface::Touchscreen => "ei_touchscreen",
    }
}

/// The maximum version of each interface this client understands.
pub open spec fn spec_max_version(i: Interface) -> u32 {
    match i {
        Interface::Device => 2u32,
        _ => 1u32,
    }
}

/// The maximum version of one interface this client understands.
pub fn max_version(i: Interface) -> (r: u32)
    ensures
        r == spec_max_version(i),
{
    match i {
        Interface::Device => 2,
        _ => 1,
    }
}

/// One interface paired with a version.
#[derive(Clone, Copy, PartialEq, Eq, Structural, Debug)]
pub struct InterfaceVersion {
    pub interface: Interface,
    pub version: u32,
}

/// The full negotiation offer: every supported interface at its maximum
/// understood version. Explicit configuration data, owned by the caller and
/// passed into the handshake, never process-wide state.
pub open spec fn spec_handshake_config() -> Seq<InterfaceVersion> {
    seq![
        InterfaceVersion { interface: Interface::Connection, version: 1u32 },
        InterfaceVersion { interface: Interface::Callback, version: 1u32 },
        InterfaceVersion { interface: Interface::Pingpong, version: 1u32 },
        InterfaceVersion { interface: Interface::Seat, version: 1u32 },
        InterfaceVersion { interface: Interface::Device, version: 2u32 },
        InterfaceVersion { interface: Interface::Pointer, version: 1u32 },
        InterfaceVersion { interface: Interface::PointerAbsolute, version: 1u32 },
        InterfaceVersion { interface: Interface::Scroll, version: 1u32 },
        InterfaceVersion { interface: Interface::Button, version: 1u32 },
        InterfaceVersion { interface: Interface::Keyboard, version: 1u32 },
        InterfaceVersion { interface: Interface::Touchscreen, version: 1u32 },
    ]
}

/// Builds the negotiation offer.
pub fn handshake_config() -> (r: Vec<InterfaceVersion>)
    ensures
        r@ == spec_handshake_config(),
{
    let mut r: Vec<InterfaceVersion> = Vec::new();
    r.push(InterfaceVersion { interface: Interface::Connection, version: 1 });
    r.push(InterfaceVersion { interface: Interface::Callback, version: 1 });
    r.push(InterfaceVersion { interface: Interface::Pingpong, version: 1 });
    r.push(InterfaceVersion { interface: Interface::Seat, version: 1 });
    r.push(InterfaceVersion { interface: Interface::Device, version: 2 });
    r.push(InterfaceVersion { interface: Interface::Pointer, version: 1 });
    r.push(InterfaceVersion { interface: Interface::PointerAbsolute, version: 1 });
    r.push(InterfaceVersion { interface: Interface::Scroll, version: 1 });
    r.push(InterfaceVersion { interface: Interface::Button, version: 1 });
    r.push(InterfaceVersion { interface: Interface::Keyboard, version: 1 });
    r.push(InterfaceVersion { interface: Interface::Touchscreen, version: 1 });
    proof {
        assert(r@ =~= spec_handshake_config());
    }
    r
}

/// What the remote answered to the one-shot negotiation: either a starting
/// serial with the negotiated interface versions, or a rejection (which a
/// closed connection before completion also counts as).
#[derive(Debug)]
pub enum HandshakeOutcome {
    Accepted { serial: u32, negotiated: Vec<InterfaceVersion> },
    Rejected,
}

/// A negotiated event channel: only a completed handshake produces one, so
/// holding a value of this type is the license to read protocol events.
#[derive(Debug)]
pub struct EventChannel {
    /// The starting sequence number for event ordering.
    pub serial: u32,
    /// The negotiated interface versions.
    pub negotiated: Vec<InterfaceVersion>,
}

/// Every negotiated version lies between one and the maximum this client
/// offered for that interface.
pub open spec fn spec_negotiated_ok(neg: Seq<InterfaceVersion>) -> bool {
    forall|i: int| 0 <= i < neg.len() ==> 1 <= (#[trigger] neg[i]).version <= spec_max_version(
        neg[i].interface,
    )
}

/// Settles the one-shot negotiation on the freshly connected event channel.
///
/// On acceptance with in-range versions the event channel is handed out and
/// the session is untouched. A rejection — or an answer claiming a version
/// this client never offered — is fatal to the session: no event channel
/// exists, `HandshakeFailed` surfaces to the caller, and the session is torn
/// down at once, since the channel cannot be renegotiated.
pub fn complete_handshake(ctl: &mut SessionController, outcome: HandshakeOutcome) -> (r: Result<
    EventChannel,
    CaptureError,
>)
    requires
        old(ctl).wf(),
        old(ctl).event_channel_connected,
    ensures
        r is Ok <==> (outcome matches HandshakeOutcome::Accepted { serial, negotiated }
            && spec_negotiated_ok(negotiated@)),
        r matches Ok(ch) ==> (outcome matches HandshakeOutcome::Accepted { serial, negotiated }
            && ch.serial == serial && ch.negotiated@ == negotiated@),
        r is Ok ==> *final(ctl) == *old(ctl),
        r is Err ==> r == Result::<EventChannel, CaptureError>::Err(CaptureError::HandshakeFailed)
            && *final(ctl) == (SessionController {
            state: SessionState::Closed,
            current_activation: None,
            ..*old(ctl)
        }),
        final(ctl).wf(),
{
    match outcome {
        HandshakeOutcome::Accepted { serial, negotiated } => {
            let mut ok = true;
            let mut i: usize = 0;
            while i < negotiated.len()
                invariant
                    i <= negotiated@.len(),
                    ok <==> spec_negotiated_ok(negotiated@.subrange(0, i as int)),
                decreases negotiated@.len() - i,
            {
                let ghost pre = negotiated@.subrange(0, i as int);
                let entry = negotiated[i];
                let hi = max_version(entry.interface);
                if entry.version < 1 || entry.version > hi {
                    ok = false;
                }
                i += 1;
                proof {
                    assert(negotiated@.subrange(0, i as int) =~= pre.push(entry));
                    assert forall|k: int| 0 <= k < i implies negotiated@.subrange(0, i as int)[k]
                        == negotiated@[k] by {}
                }
            }
            proof {
                assert(negotiated@.subrange(0, negotiated@.len() as int) =~= negotiated@);
            }
            if ok {
                Ok(EventChannel { serial, negotiated })
            } else {
                ctl.close();
                Err(CaptureError::HandshakeFailed)
            }
        },
        HandshakeOutcome::Rejected => {
            ctl.close();
            Err(CaptureError::HandshakeFailed)
        },
    }
}

} // verus!
