use vstd::prelude::*;

verus! {

/// The error taxonomy of the capture session core.
///
/// - `PortalUnavailable`: the session-management collaborator is unreachable;
///   fatal, abort startup.
/// - `PermissionDenied`: the user or compositor declined the session; fatal to
///   this run.
/// - `StaleZoneSet`: a barrier submission carried an outdated zone generation;
///   recoverable by re-fetching zones and replanning.
/// - `HandshakeFailed`: the event-channel negotiation was rejected or the
///   connection closed early; fatal to the session, which must be torn down.
/// - `InvalidActivation`: a release carried an activation id that does not
///   match the current activation; an ordering error.
/// - `ChannelClosed`: an event source ended; fatal to the session.
///
/// A rejected barrier is no error of this kind: it is per-id and handled
/// locally — the session controller records the failed ids and capture goes
/// on with the reduced barrier set. Every kind here propagates up to session
/// lifecycle management; none may silently stall the dispatch loop.
#[derive(Clone, Copy, PartialEq, Eq, Structural, Debug)]
pub enum CaptureError {
    PortalUnavailable,
    PermissionDenied,
    StaleZoneSet,
    HandshakeFailed,
    InvalidActivation,
    ChannelClosed,
}

} // verus!
