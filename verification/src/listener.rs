//! The per-datagram decision of the listener loop.
//!
//! The loop itself (socket receive, logging, the suspend invocation) is
//! unverified plumbing; what it does with each datagram is decided here:
//! a structurally valid, allowed packet yields a suspend action, anything
//! else is ignored with the classified rejection reason. Each datagram is
//! an independent unit of work; no state crosses iterations.

use vstd::prelude::*;

use crate::packet::validates_to;
use crate::packet::validate_wol_packet;
use crate::packet::RejectReason;

verus! {

/// What the listener loop should do with one received datagram.
#[derive(Debug, Clone, Copy)]
pub enum Action {
    /// The packet was accepted for `mac`: invoke the power controller's
    /// suspend operation exactly once.
    Suspend { mac: [u8; 6] },
    /// The packet was rejected: discard it and continue the loop.
    Ignore { reason: RejectReason },
}

/// `a` is the action that validation outcome dictates for a datagram whose
/// view is `b` under allow-list `locals`: suspend exactly on acceptance,
/// ignore with the classified reason otherwise.
pub open spec fn action_for(b: Seq<u8>, locals: Seq<[u8; 6]>, a: Action) -> bool {
    match a {
        Action::Suspend { mac } => validates_to(b, locals, Ok(mac)),
        Action::Ignore { reason } => validates_to(b, locals, Err(reason)),
    }
}

/// Decides the listener's action for one datagram: validate the payload
/// against the allow-list and map acceptance to a suspend request,
/// rejection to a logged discard.
pub fn handle_datagram(packet: &[u8], local_macs: &[[u8; 6]]) -> (a: Action)
    ensures
        action_for(packet@, local_macs@, a),
{
    match validate_wol_packet(packet, local_macs) {
        Ok(mac) => Action::Suspend { mac },
        Err(reason) => Action::Ignore { reason },
    }
}

} // verus!
