use etheryal_extension::codec::{decode_guest, decode_host, encode_guest, encode_host};
use etheryal_extension::message::{
    GuestMessageEnum, HostMessageEnum, Ping, Pong, ShutdownGuest, ShutdownHost,
};
use etheryal_extension::ExtensionError;

#[test]
fn ping_envelope_has_expected_bytes() {
    let encoded = encode_host(&HostMessageEnum::Ping(Ping));
    assert_eq!(
        encoded,
        vec![0x81, 0xa4, 0x74, 0x79, 0x70, 0x65, 0xa4, 0x70, 0x69, 0x6e, 0x67]
    );
}

#[test]
fn round_trip_host_messages() {
    let ping = HostMessageEnum::Ping(Ping);
    assert_eq!(decode_host(&encode_host(&ping)), Ok(ping.clone()));
    let shutdown = HostMessageEnum::ShutdownHost(ShutdownHost);
    assert_eq!(decode_host(&encode_host(&shutdown)), Ok(shutdown.clone()));
}

#[test]
fn round_trip_guest_messages() {
    let pong = GuestMessageEnum::Pong(Pong);
    assert_eq!(decode_guest(&encode_guest(&pong)), Ok(pong.clone()));
    let shutdown = GuestMessageEnum::ShutdownGuest(ShutdownGuest);
    assert_eq!(decode_guest(&encode_guest(&shutdown)), Ok(shutdown.clone()));
}

#[test]
fn unknown_tag_is_a_decode_failure() {
    // An envelope carrying the tag `nonexistent_type`.
    let mut buf: Vec<u8> = vec![0x81, 0xa4];
    buf.extend_from_slice(b"type");
    buf.push(0xb0);
    buf.extend_from_slice(b"nonexistent_type");
    assert_eq!(decode_guest(&buf), Err(ExtensionError::Decode));
    assert_eq!(decode_host(&buf), Err(ExtensionError::Decode));
}

#[test]
fn truncated_buffer_is_a_decode_failure() {
    assert_eq!(decode_guest(&vec![0x81, 0xa4]), Err(ExtensionError::Decode));
    let mut buf = encode_guest(&GuestMessageEnum::Pong(Pong));
    buf.pop();
    assert_eq!(decode_guest(&buf), Err(ExtensionError::Decode));
}

#[test]
fn tag_namespaces_are_independent() {
    // A host-bound tag does not decode on the guest side, and vice versa.
    let ping = encode_host(&HostMessageEnum::Ping(Ping));
    assert_eq!(decode_guest(&ping), Err(ExtensionError::Decode));
    let pong = encode_guest(&GuestMessageEnum::Pong(Pong));
    assert_eq!(decode_host(&pong), Err(ExtensionError::Decode));
}

#[test]
fn envelopes_match_reference_encoding() {
    for (tag, ours) in [
        ("ping", encode_host(&HostMessageEnum::Ping(Ping))),
        (
            "shutdown_host",
            encode_host(&HostMessageEnum::ShutdownHost(ShutdownHost)),
        ),
        ("pong", encode_guest(&GuestMessageEnum::Pong(Pong))),
        (
            "shutdown_guest",
            encode_guest(&GuestMessageEnum::ShutdownGuest(ShutdownGuest)),
        ),
    ] {
        let mut reference: Vec<u8> = Vec::new();
        rmp::encode::write_map_len(&mut reference, 1).unwrap();
        rmp::encode::write_str(&mut reference, "type").unwrap();
        rmp::encode::write_str(&mut reference, tag).unwrap();
        assert_eq!(ours, reference);
    }
}
