//! The closed families of messages that cross the guest/host boundary.
//!
//! A message type belongs to exactly one direction: host-bound (sent by the
//! guest) or guest-bound (sent by the host). Direction is a static property
//! of the type. Each direction has a tagged union listing every message of
//! that family; the wire codec and the dispatch registry work on those
//! unions, never on open-ended type erasure.

use vstd::prelude::*;

use crate::ExtensionError;

verus! {

/// A process-wide stable identity for a message's concrete type, used as the
/// lookup key of the dispatch registry. One variant per message type.
#[derive(Debug, Clone, Copy, PartialEq, Eq, Hash, Structural)]
pub enum TypeKey {
    /// The key of [`Ping`].
    Ping,
    /// The key of [`Pong`].
    Pong,
    /// The key of [`ShutdownGuest`].
    ShutdownGuest,
    /// The key of [`ShutdownHost`].
    ShutdownHost,
}

/// A host-bound debug message: the guest asks the host for a [`Pong`] reply,
/// to exercise the channel end to end.
#[derive(Debug, Clone, PartialEq, Eq, Structural)]
pub struct Ping;

/// A guest-bound debug message: the host's reply to a [`Ping`].
#[derive(Debug, Clone, PartialEq, Eq, Structural)]
pub struct Pong;

/// A guest-bound event: the host is shutting this guest down.
#[derive(Debug, Clone, PartialEq, Eq, Structural)]
pub struct ShutdownGuest;

/// A host-bound event: the guest asks the host process to shut down.
#[derive(Debug, Clone, PartialEq, Eq, Structural)]
pub struct ShutdownHost;

/// Every message that may be sent *to* the host, as one tagged union.
#[derive(Debug, Clone, PartialEq, Eq, Structural)]
pub enum HostMessageEnum {
    /// A [`ShutdownHost`] request.
    ShutdownHost(ShutdownHost),
    /// A [`Ping`] probe.
    Ping(Ping),
}

/// Every message that may be sent *to* the guest, as one tagged union.
#[derive(Debug, Clone, PartialEq, Eq, Structural)]
pub enum GuestMessageEnum {
    /// A [`ShutdownGuest`] order.
    ShutdownGuest(ShutdownGuest),
    /// A [`Pong`] reply.
    Pong(Pong),
}

/// The type key of a host-bound union value.
pub open spec fn host_key_of(m: HostMessageEnum) -> TypeKey {
    match m {
        HostMessageEnum::ShutdownHost(_) => TypeKey::ShutdownHost,
        HostMessageEnum::Ping(_) => TypeKey::Ping,
    }
}

/// The type key of a guest-bound union value.
pub open spec fn guest_key_of(m: GuestMessageEnum) -> TypeKey {
    match m {
        GuestMessageEnum::ShutdownGuest(_) => TypeKey::ShutdownGuest,
        GuestMessageEnum::Pong(_) => TypeKey::Pong,
    }
}

/// A marker trait of every message that is sent *to* the host.
pub trait HostMessage: Sized {
    /// The type key of this message type.
    spec fn spec_key() -> TypeKey;

    /// The wire tag naming this message type, in lowercase snake case.
    spec fn spec_name() -> Seq<char>;

    /// This message, wrapped in the host-bound union.
    spec fn spec_wrap(self) -> HostMessageEnum;

    /// Returns the type key of this message type.
    fn key() -> (k: TypeKey)
        ensures
            k == Self::spec_key(),
    ;

    /// Returns the type key of this message.
    fn type_id(&self) -> (k: TypeKey)
        ensures
            k == Self::spec_key(),
    ;

    /// Returns the name of the type of this message, which is also its wire
    /// tag.
    fn type_tag(&self) -> (r: &'static str)
        ensures
            r@ == Self::spec_name(),
    ;

    /// Wraps this message into the host-bound union.
    fn into_enum(self) -> (m: HostMessageEnum)
        ensures
            m == self.spec_wrap(),
            host_key_of(m) == Self::spec_key(),
    ;
}

/// A marker trait of every message that is sent *to* the guest.
pub trait GuestMessage: Sized {
    /// The type key of this message type.
    spec fn spec_key() -> TypeKey;

    /// The wire tag naming this message type, in lowercase snake case.
    spec fn spec_name() -> Seq<char>;

    /// This message, wrapped in the guest-bound union.
    spec fn spec_wrap(self) -> GuestMessageEnum;

    /// Returns the type key of this message type.
    fn key() -> (k: TypeKey)
        ensures
            k == Self::spec_key(),
    ;

    /// Returns the type key of this message.
    fn type_id(&self) -> (k: TypeKey)
        ensures
            k == Self::spec_key(),
    ;

    /// Returns the name of the type of this message, which is also its wire
    /// tag.
    fn type_tag(&self) -> (r: &'static str)
        ensures
            r@ == Self::spec_name(),
    ;

    /// Wraps this message into the guest-bound union.
    fn into_enum(self) -> (m: GuestMessageEnum)
        ensures
            m == self.spec_wrap(),
            guest_key_of(m) == Self::spec_key(),
    ;

    /// Unwraps a union value into this concrete type. Total for the matching
    /// type key; a mismatched variant yields a typed error, never a panic.
    fn try_from_enum(m: GuestMessageEnum) -> (r: Result<Self, ExtensionError>)
        ensures
            guest_key_of(m) == Self::spec_key() ==> (r matches Ok(t) && t.spec_wrap() == m),
            guest_key_of(m) != Self::spec_key() ==> r == Result::<Self, ExtensionError>::Err(
                ExtensionError::Downcast,
            ),
    ;
}

impl HostMessage for Ping {
    open spec fn spec_key() -> TypeKey {
        TypeKey::Ping
    }

    open spec fn spec_name() -> Seq<char> {
        "ping"@
    }

    open spec fn spec_wrap(self) -> HostMessageEnum {
        HostMessageEnum::Ping(self)
    }

    fn key() -> TypeKey {
        TypeKey::Ping
    }

    fn type_id(&self) -> TypeKey {
        TypeKey::Ping
    }

    fn type_tag(&self) -> &'static str {
        "ping"
    }

    fn into_enum(self) -> HostMessageEnum {
        HostMessageEnum::Ping(self)
    }
}

impl HostMessage for ShutdownHost {
    open spec fn spec_key() -> TypeKey {
        TypeKey::ShutdownHost
    }

    open spec fn spec_name() -> Seq<char> {
        "shutdown_host"@
    }

    open spec fn spec_wrap(self) -> HostMessageEnum {
        HostMessageEnum::ShutdownHost(self)
    }

    fn key() -> TypeKey {
        TypeKey::ShutdownHost
    }

    fn type_id(&self) -> TypeKey {
        TypeKey::ShutdownHost
    }

    fn type_tag(&self) -> &'static str {
        "shutdown_host"
    }

    fn into_enum(self) -> HostMessageEnum {
        HostMessageEnum::ShutdownHost(self)
    }
}

impl GuestMessage for Pong {
    open spec fn spec_key() -> TypeKey {
        TypeKey::Pong
    }

    open spec fn spec_name() -> Seq<char> {
        "pong"@
    }

    open spec fn spec_wrap(self) -> GuestMessageEnum {
        GuestMessageEnum::Pong(self)
    }

    fn key() -> TypeKey {
        TypeKey::Pong
    }

    fn type_id(&self) -> TypeKey {
        TypeKey::Pong
    }

    fn type_tag(&self) -> &'static str {
        "pong"
    }

    fn into_enum(self) -> GuestMessageEnum {
        GuestMessageEnum::Pong(self)
    }

    fn try_from_enum(m: GuestMessageEnum) -> Result<Self, ExtensionError> {
        match m {
            GuestMessageEnum::Pong(p) => Ok(p),
            _ => Err(ExtensionError::Downcast),
        }
    }
}

impl GuestMessage for ShutdownGuest {
    open spec fn spec_key() -> TypeKey {
        TypeKey::ShutdownGuest
    }

    open spec fn spec_name() -> Seq<char> {
        "shutdown_guest"@
    }

    open spec fn spec_wrap(self) -> GuestMessageEnum {
        GuestMessageEnum::ShutdownGuest(self)
    }

    fn key() -> TypeKey {
        TypeKey::ShutdownGuest
    }

    fn type_id(&self) -> TypeKey {
        TypeKey::ShutdownGuest
    }

    fn type_tag(&self) -> &'static str {
        "shutdown_guest"
    }

    fn into_enum(self) -> GuestMessageEnum {
        GuestMessageEnum::ShutdownGuest(self)
    }

    fn try_from_enum(m: GuestMessageEnum) -> Result<Self, ExtensionError> {
        match m {
            GuestMessageEnum::ShutdownGuest(s) => Ok(s),
            _ => Err(ExtensionError::Downcast),
        }
    }
}

impl HostMessageEnum {
    /// Returns the type key of the message this union value holds.
    pub fn type_id(&self) -> (k: TypeKey)
        ensures
            k == host_key_of(*self),
    {
        match self {
            HostMessageEnum::ShutdownHost(_) => TypeKey::ShutdownHost,
            HostMessageEnum::Ping(_) => TypeKey::Ping,
        }
    }

    /// Returns the wire tag of the message this union value holds.
    pub fn type_tag(&self) -> (r: &'static str)
        ensures
            r@ == host_tag_of(*self),
    {
        match self {
            HostMessageEnum::ShutdownHost(_) => "shutdown_host",
            HostMessageEnum::Ping(_) => "ping",
        }
    }
}

impl GuestMessageEnum {
    /// Returns the type key of the message this union value holds.
    pub fn type_id(&self) -> (k: TypeKey)
        ensures
            k == guest_key_of(*self),
    {
        match self {
            GuestMessageEnum::ShutdownGuest(_) => TypeKey::ShutdownGuest,
            GuestMessageEnum::Pong(_) => TypeKey::Pong,
        }
    }

    /// Returns the wire tag of the message this union value holds.
    pub fn type_tag(&self) -> (r: &'static str)
        ensures
            r@ == guest_tag_of(*self),
    {
        match self {
            GuestMessageEnum::ShutdownGuest(_) => "shutdown_guest",
            GuestMessageEnum::Pong(_) => "pong",
        }
    }
}

/// The wire tag of a host-bound union value.
pub open spec fn host_tag_of(m: HostMessageEnum) -> Seq<char> {
    match m {
        HostMessageEnum::ShutdownHost(_) => "shutdown_host"@,
        HostMessageEnum::Ping(_) => "ping"@,
    }
}

/// The wire tag of a guest-bound union value.
pub open spec fn guest_tag_of(m: GuestMessageEnum) -> Seq<char> {
    match m {
        GuestMessageEnum::ShutdownGuest(_) => "shutdown_guest"@,
        GuestMessageEnum::Pong(_) => "pong"@,
    }
}

} // verus!
