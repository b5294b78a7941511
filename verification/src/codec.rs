//! The wire codec for message envelopes.
//!
//! An envelope is a compact binary map with field names on the wire: a
//! one-entry map whose key is `type` and whose value is the message's tag, a
//! lowercase snake-case string naming the concrete variant. The tag is the
//! discriminant; a decode that cannot match a known tag is an error, never a
//! default. The host-bound and guest-bound tag namespaces are independent:
//! each direction is decoded against its own dictionary.
//!
//! Byte layout: `0x81` (one-entry map), `0xa4 "type"` (four-character
//! string), then the tag as a short string (`0xa0 + length`, then its ASCII
//! bytes).

use vstd::prelude::*;

use crate::message::{
    guest_tag_of, host_tag_of, GuestMessageEnum, HostMessageEnum, Ping, Pong, ShutdownGuest,
    ShutdownHost,
};
use crate::ExtensionError;

verus! {

/// The bytes of an ASCII character sequence, one byte per character.
pub open spec fn ascii_bytes(s: Seq<char>) -> Seq<u8> {
    Seq::new(s.len(), |i: int| s[i] as u8)
}

/// The envelope holding one tag: a one-entry map from `type` to the tag,
/// with both strings in short form.
pub open spec fn spec_envelope(tag: Seq<u8>) -> Seq<u8> {
    seq![0x81u8, 0xa4u8, 0x74u8, 0x79u8, 0x70u8, 0x65u8, (0xa0 + tag.len()) as u8] + tag
}

/// The exact wire bytes of a host-bound message.
pub open spec fn spec_encode_host(m: HostMessageEnum) -> Seq<u8> {
    spec_envelope(ascii_bytes(host_tag_of(m)))
}

/// The exact wire bytes of a guest-bound message.
pub open spec fn spec_encode_guest(m: GuestMessageEnum) -> Seq<u8> {
    spec_envelope(ascii_bytes(guest_tag_of(m)))
}

/// The tag carried by a well-formed envelope, or `None` where the bytes are
/// truncated or malformed: anything but a one-entry map from `type` to a
/// short string that fills the buffer exactly.
pub open spec fn spec_parse_tag(b: Seq<u8>) -> Option<Seq<u8>> {
    if b.len() >= 7 && b[0] == 0x81u8 && b[1] == 0xa4u8 && b[2] == 0x74u8 && b[3] == 0x79u8 && b[4]
        == 0x70u8 && b[5] == 0x65u8 && 0xa0 <= b[6] <= 0xbf && b.len() == 7 + (b[6] - 0xa0) {
        Some(b.skip(7))
    } else {
        None
    }
}

/// The guest-bound message named by a tag, or `None` for a tag with no known
/// mapping in the guest-bound dictionary.
pub open spec fn spec_guest_of_tag(tag: Seq<u8>) -> Option<GuestMessageEnum> {
    if tag == ascii_bytes("pong"@) {
        Some(GuestMessageEnum::Pong(Pong))
    } else if tag == ascii_bytes("shutdown_guest"@) {
        Some(GuestMessageEnum::ShutdownGuest(ShutdownGuest))
    } else {
        None
    }
}

/// The host-bound message named by a tag, or `None` for a tag with no known
/// mapping in the host-bound dictionary.
pub open spec fn spec_host_of_tag(tag: Seq<u8>) -> Option<HostMessageEnum> {
    if tag == ascii_bytes("ping"@) {
        Some(HostMessageEnum::Ping(Ping))
    } else if tag == ascii_bytes("shutdown_host"@) {
        Some(HostMessageEnum::ShutdownHost(ShutdownHost))
    } else {
        None
    }
}

/// What a buffer decodes to on the guest side, if anything.
pub open spec fn spec_decode_guest(b: Seq<u8>) -> Option<GuestMessageEnum> {
    match spec_parse_tag(b) {
        Some(tag) => spec_guest_of_tag(tag),
        None => None,
    }
}

/// What a buffer decodes to on the host side, if anything.
pub open spec fn spec_decode_host(b: Seq<u8>) -> Option<HostMessageEnum> {
    match spec_parse_tag(b) {
        Some(tag) => spec_host_of_tag(tag),
        None => None,
    }
}

/// Serializes a host-bound message into its wire envelope.
pub fn encode_host(m: &HostMessageEnum) -> (r: Vec<u8>)
    ensures
        r@ == spec_encode_host(*m),
{
    match m {
        HostMessageEnum::Ping(_) => {
            let v: Vec<u8> = vec![
                0x81u8,
                0xa4u8,
                0x74u8,
                0x79u8,
                0x70u8,
                0x65u8,
                0xa4u8,
                0x70u8,
                0x69u8,
                0x6eu8,
                0x67u8,
            ];
            proof {
                reveal_strlit("ping");
                assert(v@ =~= spec_encode_host(*m));
            }
            v
        },
        HostMessageEnum::ShutdownHost(_) => {
            let v: Vec<u8> = vec![
                0x81u8,
                0xa4u8,
                0x74u8,
                0x79u8,
                0x70u8,
                0x65u8,
                0xadu8,
                0x73u8,
                0x68u8,
                0x75u8,
                0x74u8,
                0x64u8,
                0x6fu8,
                0x77u8,
                0x6eu8,
                0x5fu8,
                0x68u8,
                0x6fu8,
                0x73u8,
                0x74u8,
            ];
            proof {
                reveal_strlit("shutdown_host");
                assert(v@ =~= spec_encode_host(*m));
            }
            v
        },
    }
}

/// Serializes a guest-bound message into its wire envelope.
pub fn encode_guest(m: &GuestMessageEnum) -> (r: Vec<u8>)
    ensures
        r@ == spec_encode_guest(*m),
{
    match m {
        GuestMessageEnum::Pong(_) => {
            let v: Vec<u8> = vec![
                0x81u8,
                0xa4u8,
                0x74u8,
                0x79u8,
                0x70u8,
                0x65u8,
                0xa4u8,
                0x70u8,
                0x6fu8,
                0x6eu8,
                0x67u8,
            ];
            proof {
                reveal_strlit("pong");
                assert(v@ =~= spec_encode_guest(*m));
            }
            v
        },
        GuestMessageEnum::ShutdownGuest(_) => {
            let v: Vec<u8> = vec![
                0x81u8,
                0xa4u8,
                0x74u8,
                0x79u8,
                0x70u8,
                0x65u8,
                0xaeu8,
                0x73u8,
                0x68u8,
                0x75u8,
                0x74u8,
                0x64u8,
                0x6fu8,
                0x77u8,
                0x6eu8,
                0x5fu8,
                0x67u8,
                0x75u8,
                0x65u8,
                0x73u8,
                0x74u8,
            ];
            proof {
                reveal_strlit("shutdown_guest");
                assert(v@ =~= spec_encode_guest(*m));
            }
            v
        },
    }
}

/// Deserializes a guest-bound message from a wire buffer. Fails with a
/// decode-class error on truncated or malformed bytes and on a tag with no
/// known mapping.
pub fn decode_guest(data: &Vec<u8>) -> (r: Result<GuestMessageEnum, ExtensionError>)
    ensures
        match spec_decode_guest(data@) {
            Some(m) => r == Result::<GuestMessageEnum, ExtensionError>::Ok(m),
            None => r == Result::<GuestMessageEnum, ExtensionError>::Err(ExtensionError::Decode),
        },
{
    proof {
        reveal_strlit("pong");
        reveal_strlit("shutdown_guest");
    }
    let n = data.len();
    if n < 7 {
        return Err(ExtensionError::Decode);
    }
    if data[0] != 0x81 || data[1] != 0xa4 {
        return Err(ExtensionError::Decode);
    }
    if data[2] != 0x74 || data[3] != 0x79 || data[4] != 0x70 || data[5] != 0x65 {
        return Err(ExtensionError::Decode);
    }
    let h = data[6];
    if h < 0xa0 || h > 0xbf {
        return Err(ExtensionError::Decode);
    }
    let taglen: usize = (h - 0xa0) as usize;
    if n != 7 + taglen {
        return Err(ExtensionError::Decode);
    }
    if taglen == 4 && data[7] == 0x70 && data[8] == 0x6f && data[9] == 0x6e && data[10] == 0x67 {
        proof {
            assert(data@.skip(7) =~= ascii_bytes("pong"@));
        }
        Ok(GuestMessageEnum::Pong(Pong))
    } else if taglen == 14 && data[7] == 0x73 && data[8] == 0x68 && data[9] == 0x75 && data[10]
        == 0x74 && data[11] == 0x64 && data[12] == 0x6f && data[13] == 0x77 && data[14] == 0x6e
        && data[15] == 0x5f && data[16] == 0x67 && data[17] == 0x75 && data[18] == 0x65 && data[19]
        == 0x73 && data[20] == 0x74 {
        proof {
            assert(data@.skip(7) =~= ascii_bytes("shutdown_guest"@));
        }
        Ok(GuestMessageEnum::ShutdownGuest(ShutdownGuest))
    } else {
        proof {
            let tag = data@.skip(7);
            assert(tag.len() == taglen);
            if tag == ascii_bytes("pong"@) {
                assert(data@[7] == tag[0] && data@[8] == tag[1] && data@[9] == tag[2] && data@[10]
                    == tag[3]);
                assert(false);
            }
            if tag == ascii_bytes("shutdown_guest"@) {
                assert(data@[7] == tag[0] && data@[8] == tag[1] && data@[9] == tag[2] && data@[10]
                    == tag[3] && data@[11] == tag[4] && data@[12] == tag[5] && data@[13] == tag[6]
                    && data@[14] == tag[7] && data@[15] == tag[8] && data@[16] == tag[9] && data@[17]
                    == tag[10] && data@[18] == tag[11] && data@[19] == tag[12] && data@[20]
                    == tag[13]);
                assert(false);
            }
        }
        Err(ExtensionError::Decode)
    }
}

/// Deserializes a host-bound message from a wire buffer. Fails with a
/// decode-class error on truncated or malformed bytes and on a tag with no
/// known mapping.
pub fn decode_host(data: &Vec<u8>) -> (r: Result<HostMessageEnum, ExtensionError>)
    ensures
        match spec_decode_host(data@) {
            Some(m) => r == Result::<HostMessageEnum, ExtensionError>::Ok(m),
            None => r == Result::<HostMessageEnum, ExtensionError>::Err(ExtensionError::Decode),
        },
{
    proof {
        reveal_strlit("ping");
        reveal_strlit("shutdown_host");
    }
    let n = data.len();
    if n < 7 {
        return Err(ExtensionError::Decode);
    }
    if data[0] != 0x81 || data[1] != 0xa4 {
        return Err(ExtensionError::Decode);
    }
    if data[2] != 0x74 || data[3] != 0x79 || data[4] != 0x70 || data[5] != 0x65 {
        return Err(ExtensionError::Decode);
    }
    let h = data[6];
    if h < 0xa0 || h > 0xbf {
        return Err(ExtensionError::Decode);
    }
    let taglen: usize = (h - 0xa0) as usize;
    if n != 7 + taglen {
        return Err(ExtensionError::Decode);
    }
    if taglen == 4 && data[7] == 0x70 && data[8] == 0x69 && data[9] == 0x6e && data[10] == 0x67 {
        proof {
            assert(data@.skip(7) =~= ascii_bytes("ping"@));
        }
        Ok(HostMessageEnum::Ping(Ping))
    } else if taglen == 13 && data[7] == 0x73 && data[8] == 0x68 && data[9] == 0x75 && data[10]
        == 0x74 && data[11] == 0x64 && data[12] == 0x6f && data[13] == 0x77 && data[14] == 0x6e
        && data[15] == 0x5f && data[16] == 0x68 && data[17] == 0x6f && data[18] == 0x73 && data[19]
        == 0x74 {
        proof {
            assert(data@.skip(7) =~= ascii_bytes("shutdown_host"@));
        }
        Ok(HostMessageEnum::ShutdownHost(ShutdownHost))
    } else {
        proof {
            let tag = data@.skip(7);
            assert(tag.len() == taglen);
            if tag == ascii_bytes("ping"@) {
                assert(data@[7] == tag[0] && data@[8] == tag[1] && data@[9] == tag[2] && data@[10]
                    == tag[3]);
                assert(false);
            }
            if tag == ascii_bytes("shutdown_host"@) {
                assert(data@[7] == tag[0] && data@[8] == tag[1] && data@[9] == tag[2] && data@[10]
                    == tag[3] && data@[11] == tag[4] && data@[12] == tag[5] && data@[13] == tag[6]
                    && data@[14] == tag[7] && data@[15] == tag[8] && data@[16] == tag[9] && data@[17]
                    == tag[10] && data@[18] == tag[11] && data@[19] == tag[12]);
                assert(false);
            }
        }
        Err(ExtensionError::Decode)
    }
}

/// Round trip, guest direction: decoding the encoding of any guest-bound
/// message yields that message back.
pub proof fn lemma_guest_round_trip(m: GuestMessageEnum)
    ensures
        spec_decode_guest(spec_encode_guest(m)) == Some(m),
{
    reveal_strlit("pong");
    reveal_strlit("shutdown_guest");
    let b = spec_encode_guest(m);
    match m {
        GuestMessageEnum::Pong(p) => {
            assert(b.skip(7) =~= ascii_bytes("pong"@));
            assert(spec_parse_tag(b) == Some(ascii_bytes("pong"@)));
            assert(p == Pong);
        },
        GuestMessageEnum::ShutdownGuest(s) => {
            assert(b.skip(7) =~= ascii_bytes("shutdown_guest"@));
            assert(ascii_bytes("shutdown_guest"@) != ascii_bytes("pong"@));
            assert(spec_parse_tag(b) == Some(ascii_bytes("shutdown_guest"@)));
            assert(s == ShutdownGuest);
        },
    }
}

/// Round trip, host direction: decoding the encoding of any host-bound
/// message yields that message back.
pub proof fn lemma_host_round_trip(m: HostMessageEnum)
    ensures
        spec_decode_host(spec_encode_host(m)) == Some(m),
{
    reveal_strlit("ping");
    reveal_strlit("shutdown_host");
    let b = spec_encode_host(m);
    match m {
        HostMessageEnum::Ping(p) => {
            assert(b.skip(7) =~= ascii_bytes("ping"@));
            assert(spec_parse_tag(b) == Some(ascii_bytes("ping"@)));
            assert(p == Ping);
        },
        HostMessageEnum::ShutdownHost(s) => {
            assert(b.skip(7) =~= ascii_bytes("shutdown_host"@));
            assert(ascii_bytes("shutdown_host"@) != ascii_bytes("ping"@));
            assert(spec_parse_tag(b) == Some(ascii_bytes("shutdown_host"@)));
            assert(s == ShutdownHost);
        },
    }
}

} // verus!
