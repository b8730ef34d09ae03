//! Watches kernel network-interface changes: models the netlink envelopes
//! received on the routing broadcast channel, decides for each one what to log
//! and which event to report, and formats the event datagram.
use vstd::prelude::*;

pub mod datagram;
pub mod dispatch;
pub mod message;

verus! {

} // verus!
