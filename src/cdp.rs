//! The CoreDeviceProxy handshake that opens the IPv6 tunnel.
//!
//! Both directions use the envelope `"CDTunnel" || u16_be(length) || json`.

use vstd::prelude::*;
use crate::bytes::{be_u16_at, push_all, push_u16_be, read_u16_be, u16_be};
use crate::json::{from_json, json_from_text, json_get, JsonValue};
use crate::usbmux::errors::UsbmuxOperationError;

verus! {

/// The bytes of `"CDTunnel"`.
pub open spec fn cdp_magic() -> Seq<u8> {
    seq![0x43u8, 0x44u8, 0x54u8, 0x75u8, 0x6eu8, 0x6eu8, 0x65u8, 0x6cu8]
}

/// The envelope around `body`.
pub open spec fn cdp_envelope(body: Seq<u8>) -> Seq<u8> {
    cdp_magic() + u16_be(body.len() as u16) + body
}

/// The handshake request body, `{"type":"clientHandshakeRequest","mtu":16000}`.
pub open spec fn handshake_body() -> Seq<u8> {
    seq![
        123u8, 34, 116, 121, 112, 101, 34, 58, 34, 99, 108, 105, 101, 110, 116, 72, 97, 110, 100,
        115, 104, 97, 107, 101, 82, 101, 113, 117, 101, 115, 116, 34, 44, 34, 109, 116, 117, 34,
        58, 49, 54, 48, 48, 48, 125,
    ]
}

/// The bytes of `"CDTunnel"`.
pub fn cdp_magic_bytes() -> (r: Vec<u8>)
    ensures
        r@ == cdp_magic(),
{
    let r = vec![0x43u8, 0x44u8, 0x54u8, 0x75u8, 0x6eu8, 0x6eu8, 0x65u8, 0x6cu8];
    assert(r@ =~= cdp_magic());
    r
}

/// Wraps `body` in the envelope.
pub fn encode_cdp_envelope(body: &[u8]) -> (r: Vec<u8>)
    requires
        body@.len() <= u16::MAX,
    ensures
        r@ == cdp_envelope(body@),
{
    let mut r = cdp_magic_bytes();
    push_u16_be(&mut r, body.len() as u16);
    push_all(&mut r, body);
    r
}

/// The handshake request `{"type":"clientHandshakeRequest","mtu":16000}`, in
/// its envelope.
pub fn cdp_handshake_request() -> (r: Vec<u8>)
    ensures
        r@ == cdp_envelope(handshake_body()),
        r@.len() == 55,
{
    let body: Vec<u8> = vec![
        123u8, 34, 116, 121, 112, 101, 34, 58, 34, 99, 108, 105, 101, 110, 116, 72, 97, 110, 100,
        115, 104, 97, 107, 101, 82, 101, 113, 117, 101, 115, 116, 34, 44, 34, 109, 116, 117, 34,
        58, 49, 54, 48, 48, 48, 125,
    ];
    assert(body@ =~= handshake_body());
    encode_cdp_envelope(body.as_slice())
}

/// The body length that a reply's 10-byte envelope header announces;
/// `ParseError` where the header does not start with `"CDTunnel"`.
pub fn cdp_reply_body_length(header: &[u8]) -> (r: Result<u16, UsbmuxOperationError>)
    requires
        header@.len() == 10,
    ensures
        r is Ok <==> header@.subrange(0, 8) == cdp_magic(),
        r matches Ok(n) ==> n == be_u16_at(header@, 8),
        r matches Err(e) ==> e is ParseError,
{
    let magic = cdp_magic_bytes();
    let mut i: usize = 0;
    while i < 8
        invariant
            i <= 8,
            header@.len() == 10,
            magic@ == cdp_magic(),
            forall|j: int| 0 <= j < i ==> header@[j] == cdp_magic()[j],
        decreases 8 - i,
    {
        if header[i] != magic[i] {
            assert(header@.subrange(0, 8)[i as int] != cdp_magic()[i as int]);
            return Err(UsbmuxOperationError::ParseError);
        }
        i = i + 1;
    }
    assert(header@.subrange(0, 8) =~= cdp_magic());
    Ok(read_u16_be(header, 8))
}

/// What the device answers to the handshake.
#[derive(Debug)]
pub struct CdpHandshakeReply {
    /// The host's link-local IPv6 address on the tunnel.
    pub address: String,
    pub mtu: u32,
    pub netmask: String,
    /// The device's address on the tunnel.
    pub server_address: String,
    /// The RemoteXPC (RSD) port on the device.
    pub server_rsd_port: u32,
    pub reply_type: String,
}

/// The string member `key` of `v`.
pub open spec fn text_member(v: JsonValue, key: Seq<char>) -> Option<Seq<char>> {
    match json_get(v, key) {
        Some(JsonValue::String(s)) => Some(s@),
        _ => None,
    }
}

/// The integer member `key` of `v`, where it fits in 32 bits unsigned.
pub open spec fn u32_member(v: JsonValue, key: Seq<char>) -> Option<u32> {
    match json_get(v, key) {
        Some(JsonValue::Unsigned(n)) => if n <= u32::MAX {
            Some(n as u32)
        } else {
            None
        },
        _ => None,
    }
}

/// `v` has every member of a handshake reply, of the right kind, and `r`
/// holds them.
pub open spec fn reply_matches(v: JsonValue, r: CdpHandshakeReply) -> bool {
    match json_get(v, "clientParameters"@) {
        Some(c) => text_member(c, "address"@) == Some(r.address@) && u32_member(c, "mtu"@) == Some(
            r.mtu,
        ) && text_member(c, "netmask"@) == Some(r.netmask@) && text_member(v, "serverAddress"@)
            == Some(r.server_address@) && u32_member(v, "serverRSDPort"@) == Some(
            r.server_rsd_port,
        ) && text_member(v, "type"@) == Some(r.reply_type@),
        None => false,
    }
}

/// `v` has every member of a handshake reply, of the right kind.
pub open spec fn reply_complete(v: JsonValue) -> bool {
    match json_get(v, "clientParameters"@) {
        Some(c) => text_member(c, "address"@) is Some && u32_member(c, "mtu"@) is Some
            && text_member(c, "netmask"@) is Some && text_member(v, "serverAddress"@) is Some
            && u32_member(v, "serverRSDPort"@) is Some && text_member(v, "type"@) is Some,
        None => false,
    }
}

fn text_member_of(v: &JsonValue, key: &str) -> (r: Option<String>)
    ensures
        match r {
            Some(s) => text_member(*v, key@) == Some(s@),
            None => text_member(*v, key@) is None,
        },
{
    match v.get(key) {
        Some(JsonValue::String(s)) => Some(s.clone()),
        _ => None,
    }
}

fn u32_member_of(v: &JsonValue, key: &str) -> (r: Option<u32>)
    ensures
        r == u32_member(*v, key@),
{
    match v.get(key) {
        Some(JsonValue::Unsigned(n)) => if *n <= u32::MAX as u64 {
            Some(*n as u32)
        } else {
            None
        },
        _ => None,
    }
}

/// Reads the handshake reply from the JSON body of its envelope:
/// `JsonError` where the body is not JSON, `ParseError` where a member is
/// missing or of the wrong kind.
pub fn parse_cdp_reply(body: &[u8]) -> (r: Result<CdpHandshakeReply, UsbmuxOperationError>)
    ensures
        match json_from_text(body@) {
            None => r matches Err(e) && e is JsonError,
            Some(v) => if reply_complete(v) {
                r matches Ok(reply) && reply_matches(v, reply)
            } else {
                r matches Err(e) && e is ParseError
            },
        },
{
    let v = match from_json(body) {
        Ok(v) => v,
        Err(e) => {
            return Err(UsbmuxOperationError::JsonError(e));
        },
    };
    let c = match v.get("clientParameters") {
        Some(c) => c,
        None => {
            return Err(UsbmuxOperationError::ParseError);
        },
    };
    let address = text_member_of(c, "address");
    let mtu = u32_member_of(c, "mtu");
    let netmask = text_member_of(c, "netmask");
    let server_address = text_member_of(&v, "serverAddress");
    let port = u32_member_of(&v, "serverRSDPort");
    let reply_type = text_member_of(&v, "type");
    match (address, mtu, netmask, server_address, port, reply_type) {
        (Some(address), Some(mtu), Some(netmask), Some(server_address), Some(port), Some(reply_type)) => {
            Ok(
                CdpHandshakeReply {
                    address,
                    mtu,
                    netmask,
                    server_address,
                    server_rsd_port: port,
                    reply_type,
                },
            )
        },
        _ => Err(UsbmuxOperationError::ParseError),
    }
}

impl CdpHandshakeReply {
    /// The RSD port, narrowed to 16 bits.
    pub fn rsd_port(&self) -> (r: u16)
        ensures
            r == (self.server_rsd_port % 0x10000) as u16,
    {
        (self.server_rsd_port % 0x10000) as u16
    }
}

} // verus!
