//! DTX framing on the DTServiceHub connection, and the three messages that
//! location simulation sends.
//!
//! A frame is a 32-byte header whose bytes 12..16 hold the little-endian
//! payload length, then the payload. An outgoing payload is a 16-byte
//! payload header, an auxiliary dictionary of arguments, then the selector.
//! Each argument entry is an empty key (10), a type code and the value.

pub mod errors;

use vstd::prelude::*;
use crate::bytes::{
    le_u32_at, le_u64_at, lemma_u64_le_round_trip, push_all, push_u32_le, push_u64_le, read_u32_le,
    u32_le, u64_le,
};

verus! {

pub const DTX_MAGIC: u32 = 0x1F3D5B79;

pub const DTX_HEADER_SIZE: usize = 32;

/// Fragment 0 of 1, as the two 16-bit halves of one word.
pub const DTX_SINGLE_FRAGMENT: u32 = 0x0001_0000;

/// The payload header's type for a method call that expects a reply.
pub const DTX_METHOD_INVOCATION: u32 = 2;

pub const DTX_EXPECTS_REPLY: u32 = 1;

pub const AUX_MAGIC: u64 = 0x1f0;

pub const AUX_EMPTY_KEY: u32 = 10;

pub const AUX_OBJECT: u32 = 2;

pub const AUX_U32: u32 = 3;

pub const AUX_I64: u32 = 6;

/// The channel code that the location-simulation channel is opened with.
pub const LOCATION_CHANNEL_CODE: u32 = 1;

/// Where the latitude's eight bytes stand in the location message.
pub const LATITUDE_OFFSET: usize = 72;

/// Where the longitude's eight bytes stand in the location message.
pub const LONGITUDE_OFFSET: usize = 88;

/// The header of a single-fragment message.
pub open spec fn dtx_header(payload_len: u32, identifier: u32, channel: u32) -> Seq<u8> {
    u32_le(DTX_MAGIC) + u32_le(DTX_HEADER_SIZE as u32) + u32_le(DTX_SINGLE_FRAGMENT) + u32_le(
        payload_len,
    ) + u32_le(identifier) + u32_le(0) + u32_le(channel) + u32_le(DTX_EXPECTS_REPLY)
}

/// A method-call payload.
pub open spec fn dtx_payload(aux: Seq<u8>, selector: Seq<u8>) -> Seq<u8> {
    u32_le(DTX_METHOD_INVOCATION) + u32_le(aux.len() as u32) + u64_le(
        (aux.len() + selector.len()) as u64,
    ) + aux + selector
}

/// A whole message: header, then payload.
pub open spec fn dtx_message(identifier: u32, channel: u32, aux: Seq<u8>, selector: Seq<u8>) -> Seq<
    u8,
> {
    dtx_header(dtx_payload(aux, selector).len() as u32, identifier, channel) + dtx_payload(
        aux,
        selector,
    )
}

/// An auxiliary dictionary holding the given entries.
pub open spec fn aux_dictionary(entries: Seq<u8>) -> Seq<u8> {
    u64_le(AUX_MAGIC) + u64_le(entries.len() as u64) + entries
}

/// An argument of eight bytes.
pub open spec fn aux_i64(x: u64) -> Seq<u8> {
    u32_le(AUX_EMPTY_KEY) + u32_le(AUX_I64) + u64_le(x)
}

/// An argument of four bytes.
pub open spec fn aux_u32(x: u32) -> Seq<u8> {
    u32_le(AUX_EMPTY_KEY) + u32_le(AUX_U32) + u32_le(x)
}

/// An object argument: its length, then its bytes.
pub open spec fn aux_object(b: Seq<u8>) -> Seq<u8> {
    u32_le(AUX_EMPTY_KEY) + u32_le(AUX_OBJECT) + u32_le(b.len() as u32) + b
}

/// `_notifyOfPublishedCapabilities:`
pub open spec fn handshake_selector() -> Seq<u8> {
    seq![
        95u8, 110, 111, 116, 105, 102, 121, 79, 102, 80, 117, 98, 108, 105, 115, 104, 101, 100, 67,
        97, 112, 97, 98, 105, 108, 105, 116, 105, 101, 115, 58,
    ]
}

/// `_requestChannelWithCode:identifier:`
pub open spec fn channel_selector() -> Seq<u8> {
    seq![
        95u8, 114, 101, 113, 117, 101, 115, 116, 67, 104, 97, 110, 110, 101, 108, 87, 105, 116,
        104, 67, 111, 100, 101, 58, 105, 100, 101, 110, 116, 105, 102, 105, 101, 114, 58,
    ]
}

/// `simulateLocationWithLatitude:longitude:`
pub open spec fn location_selector() -> Seq<u8> {
    seq![
        115u8, 105, 109, 117, 108, 97, 116, 101, 76, 111, 99, 97, 116, 105, 111, 110, 87, 105, 116,
        104, 76, 97, 116, 105, 116, 117, 100, 101, 58, 108, 111, 110, 103, 105, 116, 117, 100, 101,
        58,
    ]
}

/// `com.apple.instruments.server.services.LocationSimulation`
pub open spec fn location_service() -> Seq<u8> {
    seq![
        99u8, 111, 109, 46, 97, 112, 112, 108, 101, 46, 105, 110, 115, 116, 114, 117, 109, 101,
        110, 116, 115, 46, 115, 101, 114, 118, 101, 114, 46, 115, 101, 114, 118, 105, 99, 101, 115,
        46, 76, 111, 99, 97, 116, 105, 111, 110, 83, 105, 109, 117, 108, 97, 116, 105, 111, 110,
    ]
}

/// The capabilities handshake, message 1 on channel 0.
pub open spec fn handshake_message_spec() -> Seq<u8> {
    dtx_message(1, 0, seq![], handshake_selector())
}

/// The request for the channel `identifier` under the location channel
/// code, message 2 on channel 0.
pub open spec fn channel_request_spec(identifier: Seq<u8>) -> Seq<u8> {
    dtx_message(
        2,
        0,
        aux_dictionary(aux_u32(LOCATION_CHANNEL_CODE) + aux_object(identifier)),
        channel_selector(),
    )
}

/// The location message, message 3 on the location channel, with the bit
/// patterns of latitude and longitude as its two arguments.
pub open spec fn location_message_spec(lat_bits: u64, lng_bits: u64) -> Seq<u8> {
    dtx_message(
        3,
        LOCATION_CHANNEL_CODE,
        aux_dictionary(aux_i64(lat_bits) + aux_i64(lng_bits)),
        location_selector(),
    )
}

/// Builds a whole message.
pub fn encode_dtx_message(identifier: u32, channel: u32, aux: &[u8], selector: &[u8]) -> (r: Vec<u8>)
    requires
        aux@.len() + selector@.len() + 16 <= u32::MAX,
    ensures
        r@ == dtx_message(identifier, channel, aux@, selector@),
{
    let payload_len = (aux.len() + selector.len() + 16) as u32;
    let mut r: Vec<u8> = Vec::new();
    push_u32_le(&mut r, DTX_MAGIC);
    push_u32_le(&mut r, DTX_HEADER_SIZE as u32);
    push_u32_le(&mut r, DTX_SINGLE_FRAGMENT);
    push_u32_le(&mut r, payload_len);
    push_u32_le(&mut r, identifier);
    push_u32_le(&mut r, 0);
    push_u32_le(&mut r, channel);
    push_u32_le(&mut r, DTX_EXPECTS_REPLY);
    push_u32_le(&mut r, DTX_METHOD_INVOCATION);
    push_u32_le(&mut r, aux.len() as u32);
    push_u64_le(&mut r, (aux.len() + selector.len()) as u64);
    push_all(&mut r, aux);
    push_all(&mut r, selector);
    assert(dtx_payload(aux@, selector@).len() == payload_len);
    assert(r@ =~= dtx_message(identifier, channel, aux@, selector@));
    r
}

/// The bytes of the location-simulation channel's name.
pub fn location_service_name() -> (r: Vec<u8>)
    ensures
        r@ == location_service(),
{
    let r: Vec<u8> = vec![
        99u8, 111, 109, 46, 97, 112, 112, 108, 101, 46, 105, 110, 115, 116, 114, 117, 109, 101,
        110, 116, 115, 46, 115, 101, 114, 118, 101, 114, 46, 115, 101, 114, 118, 105, 99, 101, 115,
        46, 76, 111, 99, 97, 116, 105, 111, 110, 83, 105, 109, 117, 108, 97, 116, 105, 111, 110,
    ];
    assert(r@ =~= location_service());
    r
}

/// The capabilities handshake.
pub fn handshake_message() -> (r: Vec<u8>)
    ensures
        r@ == handshake_message_spec(),
{
    let selector: Vec<u8> = vec![
        95u8, 110, 111, 116, 105, 102, 121, 79, 102, 80, 117, 98, 108, 105, 115, 104, 101, 100, 67,
        97, 112, 97, 98, 105, 108, 105, 116, 105, 101, 115, 58,
    ];
    assert(selector@ =~= handshake_selector());
    let aux: Vec<u8> = Vec::new();
    assert(aux@ =~= seq![]);
    encode_dtx_message(1, 0, aux.as_slice(), selector.as_slice())
}

/// The request for the channel `identifier`.
pub fn channel_request_message(identifier: &[u8]) -> (r: Vec<u8>)
    requires
        identifier@.len() <= 0xffff_0000,
    ensures
        r@ == channel_request_spec(identifier@),
{
    let selector: Vec<u8> = vec![
        95u8, 114, 101, 113, 117, 101, 115, 116, 67, 104, 97, 110, 110, 101, 108, 87, 105, 116,
        104, 67, 111, 100, 101, 58, 105, 100, 101, 110, 116, 105, 102, 105, 101, 114, 58,
    ];
    assert(selector@ =~= channel_selector());
    let mut entries: Vec<u8> = Vec::new();
    push_u32_le(&mut entries, AUX_EMPTY_KEY);
    push_u32_le(&mut entries, AUX_U32);
    push_u32_le(&mut entries, LOCATION_CHANNEL_CODE);
    push_u32_le(&mut entries, AUX_EMPTY_KEY);
    push_u32_le(&mut entries, AUX_OBJECT);
    push_u32_le(&mut entries, identifier.len() as u32);
    push_all(&mut entries, identifier);
    assert(entries@ =~= aux_u32(LOCATION_CHANNEL_CODE) + aux_object(identifier@));
    let mut aux: Vec<u8> = Vec::new();
    push_u64_le(&mut aux, AUX_MAGIC);
    push_u64_le(&mut aux, entries.len() as u64);
    push_all(&mut aux, entries.as_slice());
    assert(aux@ =~= aux_dictionary(entries@));
    encode_dtx_message(2, 0, aux.as_slice(), selector.as_slice())
}

/// The location message for the given bit patterns of latitude and
/// longitude (IEEE-754 binary64).
pub fn create_locationsm_message(lat_bits: u64, lng_bits: u64) -> (r: Vec<u8>)
    ensures
        r@ == location_message_spec(lat_bits, lng_bits),
        r@.len() >= LONGITUDE_OFFSET + 8,
        le_u64_at(r@, LATITUDE_OFFSET as int) == lat_bits,
        le_u64_at(r@, LONGITUDE_OFFSET as int) == lng_bits,
{
    let selector: Vec<u8> = vec![
        115u8, 105, 109, 117, 108, 97, 116, 101, 76, 111, 99, 97, 116, 105, 111, 110, 87, 105, 116,
        104, 76, 97, 116, 105, 116, 117, 100, 101, 58, 108, 111, 110, 103, 105, 116, 117, 100, 101,
        58,
    ];
    assert(selector@ =~= location_selector());
    let mut aux: Vec<u8> = Vec::new();
    push_u64_le(&mut aux, AUX_MAGIC);
    push_u64_le(&mut aux, 32);
    push_u32_le(&mut aux, AUX_EMPTY_KEY);
    push_u32_le(&mut aux, AUX_I64);
    push_u64_le(&mut aux, lat_bits);
    push_u32_le(&mut aux, AUX_EMPTY_KEY);
    push_u32_le(&mut aux, AUX_I64);
    push_u64_le(&mut aux, lng_bits);
    assert(aux@ =~= aux_dictionary(aux_i64(lat_bits) + aux_i64(lng_bits)));
    let r = encode_dtx_message(3, LOCATION_CHANNEL_CODE, aux.as_slice(), selector.as_slice());
    proof {
        lemma_u64_le_round_trip(lat_bits);
        lemma_u64_le_round_trip(lng_bits);
        assert(r@.subrange(72, 80) =~= u64_le(lat_bits));
        assert(r@.subrange(88, 96) =~= u64_le(lng_bits));
        assert(le_u64_at(r@, 72) == le_u64_at(r@.subrange(72, 80), 0));
        assert(le_u64_at(r@, 88) == le_u64_at(r@.subrange(88, 96), 0));
    }
    r
}

/// The payload length in a received frame's 32-byte header.
pub fn dxt_payload_length(header: &[u8]) -> (r: u32)
    requires
        header@.len() == DTX_HEADER_SIZE,
    ensures
        r == le_u32_at(header@, 12),
{
    read_u32_le(header, 12)
}

/// How many bytes a received frame takes in all: its header and the
/// payload length that the header gives.
pub fn dxt_frame_length(header: &[u8]) -> (r: u64)
    requires
        header@.len() == DTX_HEADER_SIZE,
    ensures
        r == DTX_HEADER_SIZE + le_u32_at(header@, 12),
{
    DTX_HEADER_SIZE as u64 + dxt_payload_length(header) as u64
}

} // verus!
