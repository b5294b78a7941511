use etheryal_extension::codec::encode_guest;
use etheryal_extension::guest::{
    listen_for_guest_message, send_guest_message_events, send_message_event, set_extension_info,
    EtheryalExtensionPlugin, ExtensionGuest,
};
use etheryal_extension::identifier::NamespacedIdentifier;
use etheryal_extension::message::{
    GuestMessage, GuestMessageEnum, HostMessageEnum, Ping, Pong, ShutdownGuest, ShutdownHost,
};
use etheryal_extension::module_info::{ExtensionModuleInfo, Version};
use etheryal_extension::transport::HostChannel;
use etheryal_extension::ExtensionError;

fn sample_info() -> ExtensionModuleInfo {
    ExtensionModuleInfo {
        name: "Test Module".to_string(),
        identifier: NamespacedIdentifier::try_from("test:module").expect("valid identifier"),
        version: Version { major: 1, minor: 2, patch: 3 },
        dependencies: Vec::new(),
        description: None,
    }
}

fn built() -> (HostChannel, ExtensionGuest) {
    let mut channel = HostChannel::new();
    let plugin = EtheryalExtensionPlugin::new(sample_info());
    let guest = plugin.build(&mut channel).expect("descriptor announced");
    (channel, guest)
}

#[test]
fn pump_delivers_in_order_across_chunk_sizes() {
    for scratch in [1usize, 2, 3, 7, 1024] {
        let (mut channel, mut guest) = built();
        channel.host_deliver(encode_guest(&GuestMessageEnum::Pong(Pong)));
        channel.host_deliver(encode_guest(&GuestMessageEnum::ShutdownGuest(ShutdownGuest)));
        channel.host_deliver(encode_guest(&GuestMessageEnum::Pong(Pong)));
        send_guest_message_events(&mut guest, &mut channel, scratch).expect("pump");

        let pongs = send_message_event::<Pong>(&mut guest);
        assert_eq!(pongs.len(), 2);
        for event in pongs {
            assert_eq!(event.into_inner(), Pong);
        }
        let shutdowns = send_message_event::<ShutdownGuest>(&mut guest);
        assert_eq!(shutdowns.len(), 1);

        // Drained: a second publication pass yields nothing.
        assert_eq!(send_message_event::<Pong>(&mut guest).len(), 0);
        assert_eq!(send_message_event::<ShutdownGuest>(&mut guest).len(), 0);
    }
}

#[test]
fn pump_is_idempotent_with_nothing_pending() {
    let (mut channel, mut guest) = built();
    send_guest_message_events(&mut guest, &mut channel, 1024).expect("pump");
    send_guest_message_events(&mut guest, &mut channel, 1024).expect("pump");
    assert_eq!(send_message_event::<Pong>(&mut guest).len(), 0);
}

#[test]
fn bad_buffer_does_not_stop_the_pump() {
    let (mut channel, mut guest) = built();
    let mut bad: Vec<u8> = vec![0x81, 0xa4];
    bad.extend_from_slice(b"type");
    bad.push(0xb0);
    bad.extend_from_slice(b"nonexistent_type");
    channel.host_deliver(bad);
    channel.host_deliver(encode_guest(&GuestMessageEnum::Pong(Pong)));
    send_guest_message_events(&mut guest, &mut channel, 8).expect("pump");
    assert_eq!(send_message_event::<Pong>(&mut guest).len(), 1);
}

#[test]
fn unregistered_type_is_dropped_and_pump_continues() {
    let mut channel = HostChannel::new();
    set_extension_info(&sample_info(), &mut channel).expect("announced");
    let mut guest = ExtensionGuest::new();
    listen_for_guest_message::<Pong>(&mut guest).expect("registered");
    // No queue for ShutdownGuest: that message is dropped, the Pong after
    // it still arrives.
    channel.host_deliver(encode_guest(&GuestMessageEnum::ShutdownGuest(ShutdownGuest)));
    channel.host_deliver(encode_guest(&GuestMessageEnum::Pong(Pong)));
    send_guest_message_events(&mut guest, &mut channel, 16).expect("pump");
    assert_eq!(send_message_event::<Pong>(&mut guest).len(), 1);
    assert_eq!(send_message_event::<ShutdownGuest>(&mut guest).len(), 0);
}

#[test]
fn duplicate_registration_fails_fast() {
    let mut guest = ExtensionGuest::new();
    listen_for_guest_message::<Pong>(&mut guest).expect("first registration");
    assert_eq!(
        listen_for_guest_message::<Pong>(&mut guest),
        Err(ExtensionError::DuplicateRegistration)
    );
}

#[test]
fn second_announce_is_a_protocol_violation() {
    let mut channel = HostChannel::new();
    set_extension_info(&sample_info(), &mut channel).expect("first announcement");
    assert_eq!(
        set_extension_info(&sample_info(), &mut channel),
        Err(ExtensionError::ProtocolViolation)
    );
}

#[test]
fn sending_before_announce_is_a_protocol_violation() {
    let mut channel = HostChannel::new();
    let guest = ExtensionGuest::new();
    assert_eq!(
        guest.send_message(&mut channel, Ping),
        Err(ExtensionError::ProtocolViolation)
    );
}

#[test]
fn pumping_before_announce_is_a_protocol_violation() {
    let mut channel = HostChannel::new();
    let mut guest = ExtensionGuest::new();
    assert_eq!(
        send_guest_message_events(&mut guest, &mut channel, 16),
        Err(ExtensionError::ProtocolViolation)
    );
}

#[test]
fn outbound_envelopes_keep_sending_order() {
    let (mut channel, guest) = built();
    guest.send_message(&mut channel, Ping).expect("sent");
    guest.send_message(&mut channel, ShutdownHost).expect("sent");
    let sent = channel.host_take_outbound();
    assert_eq!(sent.len(), 2);
    assert_eq!(
        etheryal_extension::codec::decode_host(&sent[0]),
        Ok(HostMessageEnum::Ping(Ping))
    );
    assert_eq!(
        etheryal_extension::codec::decode_host(&sent[1]),
        Ok(HostMessageEnum::ShutdownHost(ShutdownHost))
    );
    assert_eq!(channel.host_take_outbound().len(), 0);
}

#[test]
fn downcast_of_mismatched_variant_fails_with_typed_error() {
    let r = <Pong as GuestMessage>::try_from_enum(GuestMessageEnum::ShutdownGuest(ShutdownGuest));
    assert_eq!(r, Err(ExtensionError::Downcast));
    let ok = <Pong as GuestMessage>::try_from_enum(GuestMessageEnum::Pong(Pong));
    assert_eq!(ok, Ok(Pong));
}
