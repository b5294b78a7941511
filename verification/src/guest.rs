//! The message inbox/outbox facade and the per-tick pump.
//!
//! Guest code interacts with one object: outbound, `send_message` encodes a
//! typed message and hands it to the transport; inbound, the per-tick pump
//! `send_guest_message_events` drains every pending buffer off the
//! transport, decodes each, and routes it to the queue registered for its
//! type — one bad buffer is dropped and never stops the rest. The
//! publication step `send_message_event` then drains one type's queue in
//! arrival order.

use vstd::prelude::*;

use crate::codec::{decode_guest, encode_host, spec_decode_guest, spec_encode_guest, spec_encode_host};
use crate::message::{
    guest_key_of, GuestMessage, GuestMessageEnum, HostMessage, HostMessageEnum, Pong,
    ShutdownGuest, TypeKey,
};
use crate::module_info::{encode_info, info_encodable, spec_encode_info, ExtensionModuleInfo};
use crate::registry::{
    clear_key, lemma_queue_of_route, lemma_route_msg, queue_of,
    reg_has, reg_wf, route_msg, MessageRegistry, RegistryView,
};
use crate::transport::{ChannelView, HostChannel};
use crate::ExtensionError;

verus! {

/// A registry after one wire buffer is handled: a buffer that decodes is
/// routed to its type's queue; one that does not leaves the registry
/// unchanged (the buffer is dropped).
pub open spec fn route_bytes(v: RegistryView, b: Seq<u8>) -> RegistryView {
    match spec_decode_guest(b) {
        Some(m) => route_msg(v, m),
        None => v,
    }
}

/// A registry after a whole backlog of wire buffers is handled, front
/// first.
pub open spec fn route_all(v: RegistryView, msgs: Seq<Seq<u8>>) -> RegistryView
    decreases msgs.len(),
{
    if msgs.len() == 0 {
        v
    } else {
        route_all(route_bytes(v, msgs[0]), msgs.drop_first())
    }
}

/// The messages of one type key that a backlog of wire buffers delivers, in
/// arrival order: every buffer that decodes to a message of that key, kept
/// in backlog order.
pub open spec fn deliveries(msgs: Seq<Seq<u8>>, k: TypeKey) -> Seq<GuestMessageEnum>
    decreases msgs.len(),
{
    if msgs.len() == 0 {
        Seq::empty()
    } else {
        let rest = deliveries(msgs.drop_first(), k);
        match spec_decode_guest(msgs[0]) {
            Some(m) => if guest_key_of(m) == k {
                seq![m] + rest
            } else {
                rest
            },
            None => rest,
        }
    }
}

/// Routing one message keeps a registry well formed.
pub proof fn lemma_route_msg_wf(v: RegistryView, m: GuestMessageEnum)
    requires
        reg_wf(v),
    ensures
        reg_wf(route_msg(v, m)),
        route_msg(v, m).len() == v.len(),
        forall|i: int| 0 <= i < v.len() ==> (#[trigger] route_msg(v, m)[i]).0 == v[i].0,
{
    lemma_route_msg(v, m);
    let r = route_msg(v, m);
    assert forall|i: int, j: int|
        0 <= i < r.len() && 0 <= j < r[i].1.len() implies guest_key_of(#[trigger] r[i].1[j])
        == r[i].0 by {
        if v[i].0 == guest_key_of(m) {
            assert(r[i].1 == v[i].1.push(m));
        } else {
            assert(r[i].1 == v[i].1);
        }
    }
}

/// Handling a backlog keeps a registry well formed, keeps its length and
/// keys, and appends to the queue of each registered key exactly the
/// backlog's deliveries of that key, in order; the queue of an unregistered
/// key stays empty.
pub proof fn lemma_route_all(v: RegistryView, msgs: Seq<Seq<u8>>, k: TypeKey)
    requires
        reg_wf(v),
    ensures
        reg_wf(route_all(v, msgs)),
        route_all(v, msgs).len() == v.len(),
        forall|i: int| 0 <= i < v.len() ==> (#[trigger] route_all(v, msgs)[i]).0 == v[i].0,
        reg_has(v, k) ==> queue_of(route_all(v, msgs), k) == queue_of(v, k) + deliveries(msgs, k),
        !reg_has(v, k) ==> queue_of(route_all(v, msgs), k) == queue_of(v, k),
    decreases msgs.len(),
{
    if msgs.len() == 0 {
        assert(queue_of(v, k) + deliveries(msgs, k) =~= queue_of(v, k));
    } else {
        let b = msgs[0];
        let v1 = route_bytes(v, b);
        match spec_decode_guest(b) {
            Some(m) => {
                lemma_route_msg_wf(v, m);
                lemma_queue_of_route(v, m, k);
                lemma_route_all(v1, msgs.drop_first(), k);
                assert(reg_has(v1, k) == reg_has(v, k)) by {
                    lemma_route_msg(v, m);
                    if reg_has(v, k) {
                        let i = choose|i: int| 0 <= i < v.len() && (#[trigger] v[i]).0 == k;
                        assert(v1[i].0 == k);
                    }
                    if reg_has(v1, k) {
                        let i = choose|i: int| 0 <= i < v1.len() && (#[trigger] v1[i]).0 == k;
                        assert(v[i].0 == k);
                    }
                }
                if reg_has(v, k) {
                    if guest_key_of(m) == k {
                        assert(queue_of(v1, k) == queue_of(v, k).push(m));
                        assert(deliveries(msgs, k) == seq![m] + deliveries(msgs.drop_first(), k));
                        assert(queue_of(v, k).push(m) + deliveries(msgs.drop_first(), k)
                            =~= queue_of(v, k) + deliveries(msgs, k));
                    } else {
                        assert(queue_of(v1, k) == queue_of(v, k));
                    }
                }
            },
            None => {
                lemma_route_all(v1, msgs.drop_first(), k);
            },
        }
    }
}

/// A backlog that is exactly the encodings of messages all of one type
/// delivers exactly those messages, in order.
pub proof fn lemma_deliveries_encoded(msgs: Seq<GuestMessageEnum>, k: TypeKey)
    requires
        forall|i: int| 0 <= i < msgs.len() ==> guest_key_of(#[trigger] msgs[i]) == k,
    ensures
        deliveries(msgs.map(|i: int, m: GuestMessageEnum| spec_encode_guest(m)), k) == msgs,
    decreases msgs.len(),
{
    let wire = msgs.map(|i: int, m: GuestMessageEnum| spec_encode_guest(m));
    if msgs.len() == 0 {
        assert(wire =~= Seq::<Seq<u8>>::empty());
    } else {
        assert(wire[0] == spec_encode_guest(msgs[0]));
        crate::codec::lemma_guest_round_trip(msgs[0]);
        assert(wire.drop_first() =~= msgs.drop_first().map(
            |i: int, m: GuestMessageEnum| spec_encode_guest(m),
        ));
        lemma_deliveries_encoded(msgs.drop_first(), k);
        assert(seq![msgs[0]] + msgs.drop_first() =~= msgs);
    }
}

/// Ordering, end to end: messages of one registered type, encoded and
/// queued on the transport in order, are routed by the pump onto that
/// type's queue in the same order, whatever the chunk granularity — the
/// pump's contract does not depend on the scratch size.
pub proof fn lemma_pump_ordering(v: RegistryView, msgs: Seq<GuestMessageEnum>, k: TypeKey)
    requires
        reg_wf(v),
        reg_has(v, k),
        forall|i: int| 0 <= i < msgs.len() ==> guest_key_of(#[trigger] msgs[i]) == k,
    ensures
        queue_of(
            route_all(v, msgs.map(|i: int, m: GuestMessageEnum| spec_encode_guest(m))),
            k,
        ) == queue_of(v, k) + msgs,
{
    let wire = msgs.map(|i: int, m: GuestMessageEnum| spec_encode_guest(m));
    lemma_route_all(v, wire, k);
    lemma_deliveries_encoded(msgs, k);
}

/// An event observed by application logic: one received guest-bound message
/// of a concrete type.
pub struct ExtensionEvent<T: GuestMessage> {
    inner: T,
}

impl<T: GuestMessage> ExtensionEvent<T> {
    /// The message this event carries.
    pub closed spec fn spec_inner(self) -> T {
        self.inner
    }

    /// Wraps one received message as an event.
    pub fn new(inner: T) -> (r: ExtensionEvent<T>)
        ensures
            r.spec_inner() == inner,
    {
        ExtensionEvent { inner }
    }

    /// Takes the message out of the event.
    pub fn into_inner(self) -> (r: T)
        ensures
            r == self.spec_inner(),
    {
        self.inner
    }
}

/// The guest's facade: the registry of inbound queues, one per registered
/// guest-bound message type.
pub struct ExtensionGuest {
    guest_messages: MessageRegistry,
}

impl View for ExtensionGuest {
    type V = RegistryView;

    closed spec fn view(&self) -> RegistryView {
        self.guest_messages@
    }
}

impl ExtensionGuest {
    /// The facade's well-formedness: its registry's.
    pub open spec fn wf(&self) -> bool {
        reg_wf(self@)
    }

    /// Creates a facade with no registered types.
    pub fn new() -> (r: ExtensionGuest)
        ensures
            r.wf(),
            r@ == Seq::<(TypeKey, Seq<GuestMessageEnum>)>::empty(),
    {
        ExtensionGuest { guest_messages: MessageRegistry::new() }
    }

    /// Routes one decoded guest-bound message to the queue registered for
    /// its type, appending it; a message of an unregistered type is dropped
    /// and changes nothing. Returns whether the message was delivered.
    pub fn route_message(&mut self, m: GuestMessageEnum) -> (delivered: bool)
        requires
            old(self).wf(),
        ensures
            final(self).wf(),
            final(self)@ == route_msg(old(self)@, m),
            delivered == reg_has(old(self)@, guest_key_of(m)),
    {
        self.guest_messages.route(m)
    }

    /// Sends one host-bound message: encodes it and hands the envelope to
    /// the transport. Never blocks, never retries; sending before the
    /// announcement is a protocol violation and changes nothing.
    pub fn send_message<H: HostMessage>(&self, channel: &mut HostChannel, message: H) -> (r:
        Result<(), ExtensionError>)
        requires
            old(channel).wf(),
        ensures
            final(channel).wf(),
            !old(channel)@.announced ==> r == Result::<(), ExtensionError>::Err(
                ExtensionError::ProtocolViolation,
            ) && final(channel)@ == old(channel)@,
            old(channel)@.announced ==> r == Result::<(), ExtensionError>::Ok(())
                && final(channel)@ == (ChannelView {
                outbound: old(channel)@.outbound.push(
                    spec_encode_host(message.spec_wrap()),
                ),
                ..old(channel)@
            }),
    {
        send_message(channel, message.into_enum())
    }
}

/// Encodes one host-bound union value and hands the envelope to the
/// transport.
pub fn send_message(channel: &mut HostChannel, message: HostMessageEnum) -> (r: Result<
    (),
    ExtensionError,
>)
    requires
        old(channel).wf(),
    ensures
        final(channel).wf(),
        !old(channel)@.announced ==> r == Result::<(), ExtensionError>::Err(
            ExtensionError::ProtocolViolation,
        ) && final(channel)@ == old(channel)@,
        old(channel)@.announced ==> r == Result::<(), ExtensionError>::Ok(()) && final(channel)@
            == (ChannelView {
            outbound: old(channel)@.outbound.push(spec_encode_host(message)),
            ..old(channel)@
        }),
{
    let encoded = encode_host(&message);
    channel.send(encoded)
}

/// Reads the next pending envelope off the transport, accumulating
/// fixed-size chunks until the reported length is reached, and decodes the
/// accumulated buffer. Returns `None` — consuming the envelope and leaving
/// the rest of the backlog intact — where nothing is pending or the buffer
/// does not decode.
#[verifier::loop_isolation(false)]
pub fn read_message(channel: &mut HostChannel, scratch: usize) -> (r: Option<GuestMessageEnum>)
    requires
        old(channel).wf(),
        old(channel)@.announced,
        scratch >= 1,
    ensures
        final(channel).wf(),
        old(channel)@.inbound.len() == 0 ==> r is None && final(channel)@ == old(channel)@,
        old(channel)@.inbound.len() > 0 ==> r == spec_decode_guest(old(channel)@.inbound[0])
            && final(channel)@ == (ChannelView {
            inbound: old(channel)@.inbound.drop_first(),
            ..old(channel)@
        }),
{
    let len = channel.pending_length();
    if len == 0 {
        return None;
    }
    let ghost msg = old(channel)@.inbound[0];
    let mut out: Vec<u8> = Vec::new();
    proof {
        assert(out@ =~= msg.take(0));
        assert(old(channel)@.inbound.update(0, msg.skip(0)) =~~= old(channel)@.inbound);
    }
    while out.len() < len
        invariant
            channel.wf(),
            out@.len() <= len,
            len == msg.len(),
            out@ == msg.take(out@.len() as int),
            out@.len() < len ==> channel@ == (ChannelView {
                inbound: old(channel)@.inbound.update(0, msg.skip(out@.len() as int)),
                ..old(channel)@
            }),
            out@.len() == len ==> channel@ == (ChannelView {
                inbound: old(channel)@.inbound.drop_first(),
                ..old(channel)@
            }),
        decreases len - out@.len(),
    {
        let ghost prev = out@.len() as int;
        let ghost rest = msg.skip(prev);
        let ghost before = channel@;
        proof {
            assert(before.inbound[0] == rest);
            assert(rest.len() == len - prev);
        }
        let mut chunk = channel.read_chunk(scratch);
        out.append(&mut chunk);
        proof {
            let take = if (scratch as int) < rest.len() {
                scratch as int
            } else {
                rest.len() as int
            };
            assert(take >= 1);
            assert(out@ =~= msg.take(prev + take)) by {
                assert(forall|i: int|
                    0 <= i < take ==> #[trigger] rest.take(take)[i] == msg[prev + i]);
            }
            if prev + take == len {
                assert(channel@.inbound =~~= old(channel)@.inbound.drop_first()) by {
                    assert(before.inbound == old(channel)@.inbound.update(0, rest));
                    assert(before.inbound.drop_first() =~~= old(channel)@.inbound.drop_first());
                }
            } else {
                assert(rest.skip(take) =~= msg.skip(prev + take));
                assert(channel@.inbound =~~= old(channel)@.inbound.update(
                    0,
                    msg.skip(prev + take),
                )) by {
                    assert(before.inbound == old(channel)@.inbound.update(0, rest));
                    assert(before.inbound.update(0, rest.skip(take))
                        =~~= old(channel)@.inbound.update(0, msg.skip(prev + take)));
                }
            }
        }
    }
    proof {
        assert(out@ =~= msg);
    }
    match decode_guest(&out) {
        Ok(m) => Some(m),
        Err(_) => None,
    }
}

/// The per-tick pump: while the transport reports a pending envelope, reads
/// it whole, decodes it, and routes it to the queue registered for its
/// type. A buffer that does not decode, and a message of an unregistered
/// type, are dropped and never stop the drain. Idempotent when nothing is
/// pending. Pumping before the announcement is a protocol violation and
/// changes nothing.
#[verifier::loop_isolation(false)]
pub fn send_guest_message_events(guest: &mut ExtensionGuest, channel: &mut HostChannel, scratch:
    usize) -> (r: Result<(), ExtensionError>)
    requires
        old(guest).wf(),
        old(channel).wf(),
        scratch >= 1,
    ensures
        final(guest).wf(),
        final(channel).wf(),
        !old(channel)@.announced ==> r == Result::<(), ExtensionError>::Err(
            ExtensionError::ProtocolViolation,
        ) && final(channel)@ == old(channel)@ && final(guest)@ == old(guest)@,
        old(channel)@.announced ==> r == Result::<(), ExtensionError>::Ok(()) && final(channel)@
            == (ChannelView { inbound: Seq::empty(), ..old(channel)@ }) && final(guest)@
            == route_all(old(guest)@, old(channel)@.inbound),
{
    if !channel.is_announced() {
        return Err(ExtensionError::ProtocolViolation);
    }
    loop
        invariant
            guest.wf(),
            channel.wf(),
            channel@.announced == old(channel)@.announced,
            channel@.info == old(channel)@.info,
            channel@.outbound == old(channel)@.outbound,
            channel@.announced,
            route_all(guest@, channel@.inbound) == route_all(old(guest)@, old(channel)@.inbound),
        decreases channel@.inbound.len(),
    {
        let len = channel.pending_length();
        if len == 0 {
            break ;
        }
        let ghost pre_reg = guest@;
        let ghost pre_inbound = channel@.inbound;
        let msg = read_message(channel, scratch);
        match msg {
            Some(m) => {
                let _delivered = guest.guest_messages.route(m);
            },
            None => {},
        }
        proof {
            assert(pre_inbound.len() > 0);
            assert(channel@.inbound == pre_inbound.drop_first());
            assert(route_all(pre_reg, pre_inbound) == route_all(
                route_bytes(pre_reg, pre_inbound[0]),
                pre_inbound.drop_first(),
            ));
            assert(guest@ == route_bytes(pre_reg, pre_inbound[0]));
        }
    }
    proof {
        assert(channel@.inbound.len() == 0);
        assert(route_all(guest@, channel@.inbound) == guest@);
        assert(channel@ =~~= (ChannelView { inbound: Seq::empty(), ..old(channel)@ }));
    }
    Ok(())
}

/// The publication step for one message type: pops every queued message of
/// that type, in arrival order, and wraps each as an event for application
/// subscribers. A type with no registered queue yields nothing. A message
/// that does not unwrap to the type would be skipped; the registry's
/// invariant rules that out.
#[verifier::loop_isolation(false)]
pub fn send_message_event<T: GuestMessage>(guest: &mut ExtensionGuest) -> (events: Vec<
    ExtensionEvent<T>,
>)
    requires
        old(guest).wf(),
    ensures
        final(guest).wf(),
        final(guest)@ == clear_key(old(guest)@, T::spec_key()),
        events@.len() == queue_of(old(guest)@, T::spec_key()).len(),
        forall|i: int|
            0 <= i < events@.len() ==> (#[trigger] events@[i]).spec_inner().spec_wrap()
                == queue_of(old(guest)@, T::spec_key())[i],
{
    let ghost q = queue_of(old(guest)@, T::spec_key());
    let mut messages = guest.guest_messages.drain(T::key());
    let mut events: Vec<ExtensionEvent<T>> = Vec::new();
    proof {
        assert(messages@.skip(0) =~= q);
    }
    while messages.len() > 0
        invariant
            messages@ == q.skip(q.len() - messages@.len()),
            events@.len() + messages@.len() == q.len(),
            forall|i: int|
                0 <= i < events@.len() ==> (#[trigger] events@[i]).spec_inner().spec_wrap() == q[i],
            forall|i: int| 0 <= i < q.len() ==> guest_key_of(#[trigger] q[i]) == T::spec_key(),
        decreases messages@.len(),
    {
        let ghost done = events@.len() as int;
        let m = messages.remove(0);
        proof {
            assert(m == q[done]);
            assert(messages@ =~= q.skip(q.len() - messages@.len()));
        }
        match T::try_from_enum(m) {
            Ok(t) => {
                events.push(ExtensionEvent::new(t));
            },
            Err(_) => {
                // Unreachable: the queue under this key only holds messages
                // of this type.
            },
        }
    }
    events
}

/// Encodes the module descriptor and announces it across the boundary. This
/// must happen exactly once, before any other cross-boundary call; a second
/// announcement is a protocol violation and changes nothing.
pub fn set_extension_info(extension_info: &ExtensionModuleInfo, channel: &mut HostChannel) -> (r:
    Result<(), ExtensionError>)
    requires
        old(channel).wf(),
        info_encodable(*extension_info),
    ensures
        final(channel).wf(),
        old(channel)@.announced ==> r == Result::<(), ExtensionError>::Err(
            ExtensionError::ProtocolViolation,
        ) && final(channel)@ == old(channel)@,
        !old(channel)@.announced ==> r == Result::<(), ExtensionError>::Ok(())
            && final(channel)@ == (ChannelView {
            announced: true,
            info: Some(spec_encode_info(*extension_info)),
            ..old(channel)@
        }),
{
    let encoded = encode_info(extension_info);
    channel.announce(encoded)
}

/// The integration entry point: holds the module descriptor and, on build,
/// announces it and registers every guest-bound message type the module
/// listens for, each with its own queue, before any tick runs.
pub struct EtheryalExtensionPlugin {
    guest_info: ExtensionModuleInfo,
}

impl EtheryalExtensionPlugin {
    /// The descriptor this plugin announces.
    pub closed spec fn spec_info(&self) -> ExtensionModuleInfo {
        self.guest_info
    }

    /// Creates a plugin carrying the given module descriptor.
    pub fn new(guest_info: ExtensionModuleInfo) -> (r: EtheryalExtensionPlugin)
        ensures
            r.spec_info() == guest_info,
    {
        EtheryalExtensionPlugin { guest_info }
    }

    /// Announces the descriptor, then registers the guest-bound message
    /// types — [`Pong`], then [`ShutdownGuest`] — and returns the facade.
    /// Building against an already announced boundary is a protocol
    /// violation and changes nothing.
    pub fn build(&self, channel: &mut HostChannel) -> (r: Result<ExtensionGuest, ExtensionError>)
        requires
            old(channel).wf(),
            info_encodable(self.spec_info()),
        ensures
            final(channel).wf(),
            old(channel)@.announced ==> r == Result::<ExtensionGuest, ExtensionError>::Err(
                ExtensionError::ProtocolViolation,
            ) && final(channel)@ == old(channel)@,
            !old(channel)@.announced ==> {
                &&& r matches Ok(guest) && guest.wf() && guest@ == seq![
                    (TypeKey::Pong, Seq::<GuestMessageEnum>::empty()),
                    (TypeKey::ShutdownGuest, Seq::<GuestMessageEnum>::empty()),
                ]
                &&& final(channel)@ == (ChannelView {
                    announced: true,
                    info: Some(spec_encode_info(self.spec_info())),
                    ..old(channel)@
                })
            },
    {
        match set_extension_info(&self.guest_info, channel) {
            Ok(()) => {},
            Err(e) => {
                return Err(e);
            },
        }
        let mut guest = ExtensionGuest::new();
        match listen_for_guest_message::<Pong>(&mut guest) {
            Ok(()) => {},
            Err(e) => {
                return Err(e);
            },
        }
        match listen_for_guest_message::<ShutdownGuest>(&mut guest) {
            Ok(()) => {},
            Err(e) => {
                return Err(e);
            },
        }
        proof {
            assert(guest@ =~= seq![
                (TypeKey::Pong, Seq::<GuestMessageEnum>::empty()),
                (TypeKey::ShutdownGuest, Seq::<GuestMessageEnum>::empty()),
            ]);
        }
        Ok(guest)
    }
}

/// Registers a guest-bound message type for inbound dispatch, creating its
/// queue. Registering the same type twice is a programming error: it fails
/// loudly, before any tick runs, and changes nothing.
pub fn listen_for_guest_message<T: GuestMessage>(guest: &mut ExtensionGuest) -> (r: Result<
    (),
    ExtensionError,
>)
    requires
        old(guest).wf(),
    ensures
        final(guest).wf(),
        reg_has(old(guest)@, T::spec_key()) ==> r == Result::<(), ExtensionError>::Err(
            ExtensionError::DuplicateRegistration,
        ) && final(guest)@ == old(guest)@,
        !reg_has(old(guest)@, T::spec_key()) ==> r == Result::<(), ExtensionError>::Ok(())
            && final(guest)@ == old(guest)@.push((T::spec_key(), Seq::<GuestMessageEnum>::empty())),
{
    guest.guest_messages.register(T::key())
}

} // verus!
