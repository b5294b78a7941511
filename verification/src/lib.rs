//! A bidirectional messaging runtime between a sandboxed guest module and a
//! controlling host process.
//!
//! The two sides exchange discrete, typed, serialized messages over a narrow
//! boundary that only moves byte buffers and lengths. Messages bound for the
//! host and messages bound for the guest form two disjoint, closed families;
//! each is encoded into a direction-tagged wire envelope, pushed across the
//! byte channel, and redelivered to the matching typed consumer by a per-tick
//! pump and a type registry.

use vstd::prelude::*;

pub mod codec;
pub mod guest;
pub mod identifier;
pub mod message;
pub mod module_info;
pub mod registry;
pub mod transport;

verus! {

/// The errors that can arise while interacting with the host.
#[derive(Debug, Clone, PartialEq, Eq)]
pub enum ExtensionError {
    /// A message could not be serialized.
    Encode,
    /// Bytes from the transport were truncated, malformed, or carried an
    /// unknown type tag.
    Decode,
    /// A message was decoded whose type tag maps to no known message type.
    UnknownMessage(String),
    /// A decoded envelope did not hold the concrete message type a caller
    /// expected.
    Downcast,
    /// Two independent registrations claimed the same inbound message type.
    DuplicateRegistration,
    /// A boundary call was made out of order: a second announcement, or any
    /// traffic before the one-time announcement.
    ProtocolViolation,
}

} // verus!
