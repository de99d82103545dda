//! One participant of a simulated cluster: the message model and the
//! request/reply engine that answers each inbound message.
pub mod protocol;
pub mod node;
pub mod laws;
