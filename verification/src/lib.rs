//! Recognition of the legacy wake-on-network magic-packet format.
//!
//! The heart of the crate is a verified validator: a pure function from a
//! raw datagram payload (plus an optional allow-list of locally owned
//! hardware addresses) to either the extracted hardware address or a
//! classified rejection reason. A small verified decision function turns a
//! validation outcome into the action a listener loop should take.

pub mod listener;
pub mod packet;

pub use listener::handle_datagram;
pub use listener::Action;
pub use packet::check_packet_structure;
pub use packet::contains_mac;
pub use packet::validate_wol_packet;
pub use packet::RejectReason;
pub use packet::EXPECTED_PACKET_SIZE;
