//! Coordination core for a desktop input-capture session.
//!
//! A host grants this application intercepted input when the pointer crosses
//! a barrier on a screen edge. The library holds everything about that
//! arrangement which can be decided without I/O, and proves it: planning the
//! barrier geometry from the screen zones ([`geometry`]), tracking the
//! session lifecycle and validating every transition ([`session`]), settling
//! the one-shot event-channel negotiation ([`handshake`]), and merging the
//! two asynchronous notification sources — activation signals and decoded
//! protocol events — into one strictly sequential dispatch loop
//! ([`dispatch`]). A driver performs the portal requests and the channel
//! reads, and feeds every outcome back to the core.

use vstd::prelude::*;

pub mod dispatch;
pub mod errors;
pub mod geometry;
pub mod handshake;
pub mod session;

verus! {

/// The screen edge on which pointer barriers are placed.
#[derive(Clone, Copy, PartialEq, Eq, Structural, Debug)]
pub enum Position {
    Left,
    Right,
    Top,
    Bottom,
}

} // verus!
