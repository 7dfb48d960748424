//! The usbmuxd control protocol and the lockdown exchanges carried over it.
//!
//! A mux frame is `u32_le(length) || u32_le(version) || u32_le(message) ||
//! u32_le(tag) || xml`, where the length counts the whole frame. A lockdown
//! frame is `u32_be(xml length) || xml`, before and after the TLS upgrade.

pub mod errors;

use vstd::prelude::*;
use crate::bytes::{
    lemma_u32_be_round_trip, lemma_u32_le_round_trip, copy_range, push_all, push_u32_be, push_u32_le, read_u32_be, read_u32_le, u32_be, u32_le,
    be_u32_at, le_u32_at,
};
use crate::property_list::{
    as_boolean_spec, as_data_spec, as_string_spec, as_unsigned_spec, dictionary_to_xml,
    dictionary_xml, entries_view, from_xml, is_flat, plist_from_xml, push_signed, push_text,
    push_unsigned, value_get, FieldValue, PlistValue,
};
use errors::{MessageOperationError, UsbmuxOperationError};

verus! {

pub const USBMUX_VERSION: u32 = 1;

pub const USBMUX_MSGTYPE: u32 = 8;

/// The device port of the lockdown service.
pub const LOCKDOWN_PORT: u16 = 62078;

/// The 12-byte sub-header of a mux frame.
#[derive(Clone, Copy, Debug, PartialEq, Eq)]
pub struct UsbmuxMessageHeader {
    pub version: u32,
    pub message: u32,
    pub tag: u32,
}

/// The dictionary of a usbmuxd request.
#[allow(non_snake_case)]
#[derive(Debug)]
pub struct UsbmuxMessageData {
    pub MessageType: String,
    pub PairRecordID: Option<String>,
    pub ClientVersionString: String,
    pub ProgName: String,
    pub kLibUSBMuxVersion: i64,
    pub DeviceID: Option<u16>,
    pub PortNumber: Option<u16>,
}

/// A usbmuxd request: sub-header and dictionary.
#[derive(Debug)]
pub struct UsbmuxMessage {
    pub header: UsbmuxMessageHeader,
    pub data: UsbmuxMessageData,
}

/// A lockdown request. Fields left `None` are not sent.
#[allow(non_snake_case)]
#[derive(Debug)]
pub struct LockdownMessage {
    pub Label: Option<String>,
    pub Request: Option<String>,
    pub HostID: Option<String>,
    pub SystemBUID: Option<String>,
    pub Service: Option<String>,
    pub action: Option<u32>,
    pub Domain: Option<String>,
    pub Key: Option<String>,
}

/// One entry with a string value.
pub open spec fn text_field(key: Seq<char>, value: Seq<char>) -> Seq<(Seq<char>, FieldValue)> {
    seq![(key, FieldValue::Text(value))]
}

/// One entry with an integer value.
pub open spec fn int_field(key: Seq<char>, value: int) -> Seq<(Seq<char>, FieldValue)> {
    seq![(key, FieldValue::Integer(value))]
}

/// An entry with a string value where there is one, else nothing.
pub open spec fn opt_text_field(key: Seq<char>, value: Option<String>) -> Seq<
    (Seq<char>, FieldValue),
> {
    match value {
        Some(s) => text_field(key, s@),
        None => seq![],
    }
}

/// An entry with an integer value where there is one, else nothing.
pub open spec fn opt_int_field(key: Seq<char>, value: Option<int>) -> Seq<
    (Seq<char>, FieldValue),
> {
    match value {
        Some(n) => int_field(key, n),
        None => seq![],
    }
}

/// The text of an optional string.
pub open spec fn opt_view(o: Option<String>) -> Option<Seq<char>> {
    match o {
        Some(s) => Some(s@),
        None => None,
    }
}

/// The bytes of an optional buffer.
pub open spec fn opt_bytes(o: Option<Vec<u8>>) -> Option<Seq<u8>> {
    match o {
        Some(b) => Some(b@),
        None => None,
    }
}

pub open spec fn opt_u16_int(o: Option<u16>) -> Option<int> {
    match o {
        Some(n) => Some(n as int),
        None => None,
    }
}

pub open spec fn opt_u32_int(o: Option<u32>) -> Option<int> {
    match o {
        Some(n) => Some(n as int),
        None => None,
    }
}

/// A type that is sent as a property-list dictionary.
pub trait UsbMuxPlist {
    /// The entries of the dictionary, in order.
    spec fn plist_fields(&self) -> Seq<(Seq<char>, FieldValue)>;

    /// The entries of the dictionary: one for each field that is set.
    fn plist_entries(&self) -> (r: Vec<(String, PlistValue)>)
        ensures
            entries_view(r@) == self.plist_fields(),
            is_flat(r@),
    ;

    /// The dictionary, with an entry for each field that is set.
    fn to_plist(&self) -> (r: PlistValue)
        ensures
            r matches PlistValue::Dictionary(e) && entries_view(e@) == self.plist_fields() && is_flat(
                e@,
            ),
    {
        PlistValue::Dictionary(self.plist_entries())
    }
}

/// 1 where the field is set, else 0.
pub open spec fn set_count<T>(o: Option<T>) -> int {
    if o is Some {
        1
    } else {
        0
    }
}

/// A lockdown request's dictionary has one entry for each field that is
/// set and none for a field left `None`, in the order the fields are declared.
pub proof fn lemma_lockdown_fields_omit_unset(m: LockdownMessage)
    ensures
        m.plist_fields().len() == set_count(m.Label) + set_count(m.Request) + set_count(m.HostID)
            + set_count(m.SystemBUID) + set_count(m.Service) + set_count(m.action) + set_count(
            m.Domain,
        ) + set_count(m.Key),
        m.Label is None && m.Request is None && m.HostID is None && m.SystemBUID is None
            && m.Service is None && m.Domain is None && m.Key is None ==> m.plist_fields()
            == opt_int_field("action"@, opt_u32_int(m.action)),
{
}

fn push_opt_text(e: &mut Vec<(String, PlistValue)>, key: &str, value: &Option<String>)
    requires
        is_flat(old(e)@),
    ensures
        entries_view(final(e)@) == entries_view(old(e)@) + opt_text_field(key@, *value),
        is_flat(final(e)@),
{
    match value {
        Some(s) => {
            push_text(e, key, s.clone());
            assert(entries_view(final(e)@) =~= entries_view(old(e)@) + opt_text_field(key@, *value));
        },
        None => {
            assert(entries_view(final(e)@) =~= entries_view(old(e)@) + opt_text_field(key@, *value));
        },
    }
}

fn push_opt_unsigned(e: &mut Vec<(String, PlistValue)>, key: &str, value: Option<u64>)
    requires
        is_flat(old(e)@),
    ensures
        entries_view(final(e)@) == entries_view(old(e)@) + opt_int_field(
            key@,
            match value {
                Some(n) => Some(n as int),
                None => None,
            },
        ),
        is_flat(final(e)@),
{
    match value {
        Some(n) => {
            push_unsigned(e, key, n);
        },
        None => {},
    }
    assert(entries_view(final(e)@) =~= entries_view(old(e)@) + opt_int_field(
        key@,
        match value {
            Some(n) => Some(n as int),
            None => None,
        },
    ));
}

fn widen_u16(o: Option<u16>) -> (r: Option<u64>)
    ensures
        match r {
            Some(n) => Some(n as int),
            None => None::<int>,
        } == opt_u16_int(o),
{
    match o {
        Some(n) => Some(n as u64),
        None => None,
    }
}

fn widen_u32(o: Option<u32>) -> (r: Option<u64>)
    ensures
        match r {
            Some(n) => Some(n as int),
            None => None::<int>,
        } == opt_u32_int(o),
{
    match o {
        Some(n) => Some(n as u64),
        None => None,
    }
}

impl UsbMuxPlist for UsbmuxMessageHeader {
    open spec fn plist_fields(&self) -> Seq<(Seq<char>, FieldValue)> {
        int_field("version"@, self.version as int) + int_field("message"@, self.message as int)
            + int_field("tag"@, self.tag as int)
    }

    fn plist_entries(&self) -> (r: Vec<(String, PlistValue)>) {
        let mut e: Vec<(String, PlistValue)> = Vec::new();
        assert(entries_view(e@) =~= seq![]);
        push_unsigned(&mut e, "version", self.version as u64);
        push_unsigned(&mut e, "message", self.message as u64);
        push_unsigned(&mut e, "tag", self.tag as u64);
        assert(entries_view(e@) =~= self.plist_fields());
        e
    }
}

impl UsbMuxPlist for UsbmuxMessageData {
    open spec fn plist_fields(&self) -> Seq<(Seq<char>, FieldValue)> {
        text_field("MessageType"@, self.MessageType@) + opt_text_field(
            "PairRecordID"@,
            self.PairRecordID,
        ) + text_field("ClientVersionString"@, self.ClientVersionString@) + text_field(
            "ProgName"@,
            self.ProgName@,
        ) + int_field("kLibUSBMuxVersion"@, self.kLibUSBMuxVersion as int) + opt_int_field(
            "DeviceID"@,
            opt_u16_int(self.DeviceID),
        ) + opt_int_field("PortNumber"@, opt_u16_int(self.PortNumber))
    }

    fn plist_entries(&self) -> (r: Vec<(String, PlistValue)>) {
        let mut e: Vec<(String, PlistValue)> = Vec::new();
        assert(entries_view(e@) =~= seq![]);
        push_text(&mut e, "MessageType", self.MessageType.clone());
        push_opt_text(&mut e, "PairRecordID", &self.PairRecordID);
        push_text(&mut e, "ClientVersionString", self.ClientVersionString.clone());
        push_text(&mut e, "ProgName", self.ProgName.clone());
        push_signed(&mut e, "kLibUSBMuxVersion", self.kLibUSBMuxVersion);
        push_opt_unsigned(&mut e, "DeviceID", widen_u16(self.DeviceID));
        push_opt_unsigned(&mut e, "PortNumber", widen_u16(self.PortNumber));
        assert(entries_view(e@) =~= self.plist_fields());
        e
    }
}

impl UsbMuxPlist for LockdownMessage {
    open spec fn plist_fields(&self) -> Seq<(Seq<char>, FieldValue)> {
        opt_text_field("Label"@, self.Label) + opt_text_field("Request"@, self.Request)
            + opt_text_field("HostID"@, self.HostID) + opt_text_field(
            "SystemBUID"@,
            self.SystemBUID,
        ) + opt_text_field("Service"@, self.Service) + opt_int_field(
            "action"@,
            opt_u32_int(self.action),
        ) + opt_text_field("Domain"@, self.Domain) + opt_text_field("Key"@, self.Key)
    }

    fn plist_entries(&self) -> (r: Vec<(String, PlistValue)>) {
        let mut e: Vec<(String, PlistValue)> = Vec::new();
        assert(entries_view(e@) =~= seq![]);
        push_opt_text(&mut e, "Label", &self.Label);
        push_opt_text(&mut e, "Request", &self.Request);
        push_opt_text(&mut e, "HostID", &self.HostID);
        push_opt_text(&mut e, "SystemBUID", &self.SystemBUID);
        push_opt_text(&mut e, "Service", &self.Service);
        push_opt_unsigned(&mut e, "action", widen_u32(self.action));
        push_opt_text(&mut e, "Domain", &self.Domain);
        push_opt_text(&mut e, "Key", &self.Key);
        assert(entries_view(e@) =~= self.plist_fields());
        e
    }
}

/// The mux frame that carries `xml` under the sub-header `h`.
pub open spec fn mux_frame(h: UsbmuxMessageHeader, xml: Seq<u8>) -> Seq<u8> {
    u32_le((xml.len() + 16) as u32) + u32_le(h.version) + u32_le(h.message) + u32_le(h.tag) + xml
}

/// The lockdown frame that carries `xml`.
pub open spec fn lockdown_frame(xml: Seq<u8>) -> Seq<u8> {
    u32_be(xml.len() as u32) + xml
}

/// A mux frame reads back as its parts: the length field counts all
/// `16 + xml` bytes, then come version, message type and tag, each
/// little-endian, then the XML itself.
pub proof fn lemma_mux_frame_layout(h: UsbmuxMessageHeader, xml: Seq<u8>)
    requires
        xml.len() + 16 <= u32::MAX,
    ensures
        mux_frame(h, xml).len() == xml.len() + 16,
        le_u32_at(mux_frame(h, xml), 0) == xml.len() + 16,
        le_u32_at(mux_frame(h, xml), 4) == h.version,
        le_u32_at(mux_frame(h, xml), 8) == h.message,
        le_u32_at(mux_frame(h, xml), 12) == h.tag,
        mux_frame(h, xml).subrange(16, xml.len() + 16int) == xml,
{
    let f = mux_frame(h, xml);
    lemma_u32_le_round_trip((xml.len() + 16) as u32);
    lemma_u32_le_round_trip(h.version);
    lemma_u32_le_round_trip(h.message);
    lemma_u32_le_round_trip(h.tag);
    assert(f.subrange(0, 4) =~= u32_le((xml.len() + 16) as u32));
    assert(f.subrange(4, 8) =~= u32_le(h.version));
    assert(f.subrange(8, 12) =~= u32_le(h.message));
    assert(f.subrange(12, 16) =~= u32_le(h.tag));
    assert(le_u32_at(f, 0) == le_u32_at(f.subrange(0, 4), 0));
    assert(le_u32_at(f, 4) == le_u32_at(f.subrange(4, 8), 0));
    assert(le_u32_at(f, 8) == le_u32_at(f.subrange(8, 12), 0));
    assert(le_u32_at(f, 12) == le_u32_at(f.subrange(12, 16), 0));
    assert(f.subrange(16, xml.len() + 16int) =~= xml);
}

/// A lockdown frame reads back as its parts: the big-endian length of the
/// XML, then the XML itself.
pub proof fn lemma_lockdown_frame_layout(xml: Seq<u8>)
    requires
        xml.len() <= u32::MAX,
    ensures
        lockdown_frame(xml).len() == xml.len() + 4,
        be_u32_at(lockdown_frame(xml), 0) == xml.len(),
        lockdown_frame(xml).subrange(4, xml.len() + 4int) == xml,
{
    let f = lockdown_frame(xml);
    lemma_u32_be_round_trip(xml.len() as u32);
    assert(f.subrange(0, 4) =~= u32_be(xml.len() as u32));
    assert(be_u32_at(f, 0) == be_u32_at(f.subrange(0, 4), 0));
    assert(f.subrange(4, xml.len() + 4int) =~= xml);
}

/// Every request built by `usbmux_message` goes out with version 1,
/// message type 8 and tag 1 in its sub-header.
pub proof fn lemma_usbmux_request_header(msg: UsbmuxMessage, xml: Seq<u8>)
    requires
        msg.header == (UsbmuxMessageHeader {
            version: USBMUX_VERSION,
            message: USBMUX_MSGTYPE,
            tag: 1,
        }),
        xml.len() + 16 <= u32::MAX,
    ensures
        mux_frame(msg.header, xml) == u32_le((xml.len() + 16) as u32) + u32_le(1) + u32_le(8)
            + u32_le(1) + xml,
{
}

/// Frames `xml` as a mux message under the sub-header `h`.
pub fn encode_mux_frame(h: &UsbmuxMessageHeader, xml: &[u8]) -> (r: Vec<u8>)
    requires
        xml@.len() + 16 <= u32::MAX,
    ensures
        r@ == mux_frame(*h, xml@),
{
    let mut r: Vec<u8> = Vec::new();
    push_u32_le(&mut r, (xml.len() + 16) as u32);
    push_u32_le(&mut r, h.version);
    push_u32_le(&mut r, h.message);
    push_u32_le(&mut r, h.tag);
    push_all(&mut r, xml);
    assert(r@ =~= mux_frame(*h, xml@));
    r
}

/// Frames `xml` as a lockdown message.
pub fn encode_lockdown_frame(xml: &[u8]) -> (r: Vec<u8>)
    requires
        xml@.len() <= u32::MAX,
    ensures
        r@ == lockdown_frame(xml@),
{
    let mut r: Vec<u8> = Vec::new();
    push_u32_be(&mut r, xml.len() as u32);
    push_all(&mut r, xml);
    r
}

/// The bytes that send `msg` to usbmuxd: its dictionary as XML, framed under
/// its sub-header. `Oversized` where the frame length does not fit in 32 bits.
pub fn usbmux_request(msg: &UsbmuxMessage) -> (r: Result<Vec<u8>, MessageOperationError>)
    ensures
        r matches Ok(b) ==> (dictionary_xml(msg.data.plist_fields()).len() + 16 <= u32::MAX && b@
            == mux_frame(msg.header, dictionary_xml(msg.data.plist_fields()))),
        r is Ok <==> dictionary_xml(msg.data.plist_fields()).len() + 16 <= u32::MAX,
        r matches Err(e) ==> e is Oversized,
{
    let entries = msg.data.plist_entries();
    let xml = match dictionary_to_xml(&entries) {
        Ok(x) => x,
        Err(e) => {
            return Err(MessageOperationError::Plist(e));
        },
    };
    if xml.len() > (u32::MAX - 16) as usize {
        return Err(MessageOperationError::Oversized);
    }
    Ok(encode_mux_frame(&msg.header, xml.as_slice()))
}

/// The bytes that send `msg` to lockdown: its dictionary as XML, after its
/// big-endian length. `Oversized` where that length does not fit in 32 bits.
pub fn lockdown_request(msg: &LockdownMessage) -> (r: Result<Vec<u8>, MessageOperationError>)
    ensures
        r matches Ok(b) ==> (dictionary_xml(msg.plist_fields()).len() <= u32::MAX && b@
            == lockdown_frame(dictionary_xml(msg.plist_fields()))),
        r is Ok <==> dictionary_xml(msg.plist_fields()).len() <= u32::MAX,
        r matches Err(e) ==> e is Oversized,
{
    let entries = msg.plist_entries();
    let xml = match dictionary_to_xml(&entries) {
        Ok(x) => x,
        Err(e) => {
            return Err(MessageOperationError::Plist(e));
        },
    };
    if xml.len() > u32::MAX as usize {
        return Err(MessageOperationError::Oversized);
    }
    Ok(encode_lockdown_frame(xml.as_slice()))
}

/// How many bytes follow the length field of a mux reply whose length field
/// reads `total_length`; a length under 4 cannot count its own field.
pub fn mux_reply_remaining(total_length: u32) -> (r: Result<u32, MessageOperationError>)
    ensures
        total_length < 4 <==> r is Err,
        r matches Err(e) ==> e is ResponseError,
        r matches Ok(n) ==> n == total_length - 4,
{
    if total_length < 4 {
        Err(MessageOperationError::ResponseError)
    } else {
        Ok(total_length - 4)
    }
}

/// The length field at the start of a mux reply.
pub fn mux_reply_length(header: &[u8]) -> (r: u32)
    requires
        header@.len() >= 4,
    ensures
        r == le_u32_at(header@, 0),
{
    read_u32_le(header, 0)
}

/// The dictionary of a mux reply, from the bytes after its length field:
/// the 12-byte sub-header is skipped and the rest read as XML.
pub fn decode_mux_reply(payload: &[u8]) -> (r: Result<PlistValue, MessageOperationError>)
    ensures
        payload@.len() < 12 ==> (r matches Err(e) && e is ResponseError),
        payload@.len() >= 12 ==> match r {
            Ok(v) => plist_from_xml(payload@.subrange(12, payload@.len() as int)) == Some(v),
            Err(e) => e is Plist && plist_from_xml(payload@.subrange(12, payload@.len() as int))
                is None,
        },
{
    if payload.len() < 12 {
        return Err(MessageOperationError::ResponseError);
    }
    let xml = copy_range(payload, 12, payload.len());
    match from_xml(xml.as_slice()) {
        Ok(v) => Ok(v),
        Err(e) => Err(MessageOperationError::Plist(e)),
    }
}

/// The length of the XML that follows the 4-byte prefix of a lockdown reply.
pub fn lockdown_reply_length(prefix: &[u8]) -> (r: u32)
    requires
        prefix@.len() >= 4,
    ensures
        r == be_u32_at(prefix@, 0),
{
    read_u32_be(prefix, 0)
}

/// The dictionary of a lockdown reply, from the XML after its length prefix.
pub fn decode_lockdown_reply(xml: &[u8]) -> (r: Result<PlistValue, MessageOperationError>)
    ensures
        match r {
            Ok(v) => plist_from_xml(xml@) == Some(v),
            Err(e) => e is Plist && plist_from_xml(xml@) is None,
        },
{
    match from_xml(xml) {
        Ok(v) => Ok(v),
        Err(e) => Err(MessageOperationError::Plist(e)),
    }
}

/// `o` holds a string with the text `t`.
pub open spec fn is_text(o: Option<String>, t: Seq<char>) -> bool {
    o matches Some(s) && s@ == t
}

/// The text under `key` in `v`, where `v` is a dictionary and that value a string.
pub open spec fn text_of(v: PlistValue, key: Seq<char>) -> Option<Seq<char>> {
    match value_get(v, key) {
        Some(x) => as_string_spec(x),
        None => None,
    }
}

/// The bytes under `key` in `v`, where `v` is a dictionary and that value data.
pub open spec fn bytes_of(v: PlistValue, key: Seq<char>) -> Option<Seq<u8>> {
    match value_get(v, key) {
        Some(x) => as_data_spec(x),
        None => None,
    }
}

/// The first entry of a `ListDevices` reply's `DeviceList`, where it is a dictionary.
pub open spec fn first_device(reply: PlistValue) -> Option<PlistValue> {
    match value_get(reply, "DeviceList"@) {
        Some(PlistValue::Array(a)) => if a@.len() > 0 && a@[0] is Dictionary {
            Some(a@[0])
        } else {
            None
        },
        _ => None,
    }
}

/// The `DeviceID` of a device entry, where it is an integer that fits in 16 bits.
pub open spec fn device_id_of(info: PlistValue) -> Option<u16> {
    match value_get(info, "DeviceID"@) {
        Some(v) => match as_unsigned_spec(v) {
            Some(n) => if n <= 0xffff {
                Some(n as u16)
            } else {
                None
            },
            None => None,
        },
        None => None,
    }
}

/// The `SerialNumber` under a device entry's `Properties`.
pub open spec fn serial_of(info: PlistValue) -> Option<Seq<char>> {
    match value_get(info, "Properties"@) {
        Some(p) => text_of(p, "SerialNumber"@),
        None => None,
    }
}

/// The id and serial number of the first device of a `ListDevices` reply,
/// where it has both.
pub open spec fn device_of(reply: PlistValue) -> Option<(u16, Seq<char>)> {
    match first_device(reply) {
        Some(info) => match (device_id_of(info), serial_of(info)) {
            (Some(id), Some(serial)) => Some((id, serial)),
            _ => None,
        },
        None => None,
    }
}

/// The port in a `StartService` reply, narrowed to 16 bits.
pub open spec fn service_port_of(reply: PlistValue) -> Option<u16> {
    match value_get(reply, "Port"@) {
        Some(v) => match as_unsigned_spec(v) {
            Some(n) => Some((n % 0x10000) as u16),
            None => None,
        },
        None => None,
    }
}

/// `port` in network byte order, as usbmuxd reads it from a little-endian integer.
pub open spec fn network_order(port: u16) -> u16 {
    ((port % 256) * 256 + port / 256) as u16
}

/// The uppercase form of `s`, as `str::to_uppercase` gives it.
pub uninterp spec fn upper_of(s: Seq<char>) -> Seq<char>;

/// Relies on `str::to_uppercase`: the result depends on the characters alone.
#[verifier::external_body]
fn uppercase(s: &str) -> (r: String)
    ensures
        r@ == upper_of(s@),
{
    s.to_uppercase()
}

/// A usbmuxd request with tag 1 and this client's fixed identification.
pub fn usbmux_message(
    message_type: &str,
    pair_record_id: Option<String>,
    device_id: Option<u16>,
    port_number: Option<u16>,
) -> (r: UsbmuxMessage)
    ensures
        r.header == (UsbmuxMessageHeader {
            version: USBMUX_VERSION,
            message: USBMUX_MSGTYPE,
            tag: 1,
        }),
        r.data.MessageType@ == message_type@,
        r.data.PairRecordID == pair_record_id,
        r.data.ClientVersionString@ == "usbmuxd-client"@,
        r.data.ProgName@ == "client"@,
        r.data.kLibUSBMuxVersion == 3,
        r.data.DeviceID == device_id,
        r.data.PortNumber == port_number,
{
    UsbmuxMessage {
        header: UsbmuxMessageHeader { version: USBMUX_VERSION, message: USBMUX_MSGTYPE, tag: 1 },
        data: UsbmuxMessageData {
            MessageType: message_type.to_owned(),
            PairRecordID: pair_record_id,
            ClientVersionString: "usbmuxd-client".to_owned(),
            ProgName: "client".to_owned(),
            kLibUSBMuxVersion: 3,
            DeviceID: device_id,
            PortNumber: port_number,
        },
    }
}

/// A lockdown request with no field set.
fn empty_lockdown_message() -> (r: LockdownMessage)
    ensures
        r.Label is None,
        r.Request is None,
        r.HostID is None,
        r.SystemBUID is None,
        r.Service is None,
        r.action is None,
        r.Domain is None,
        r.Key is None,
{
    LockdownMessage {
        Label: None,
        Request: None,
        HostID: None,
        SystemBUID: None,
        Service: None,
        action: None,
        Domain: None,
        Key: None,
    }
}

/// `{Label: "client", Request: "StartService", Service: service}`.
pub fn start_service_message(service: &str) -> (r: LockdownMessage)
    ensures
        is_text(r.Label, "client"@),
        is_text(r.Request, "StartService"@),
        is_text(r.Service, service@),
        r.HostID is None,
        r.SystemBUID is None,
        r.action is None,
        r.Domain is None,
        r.Key is None,
{
    let mut m = empty_lockdown_message();
    m.Label = Some("client".to_owned());
    m.Request = Some("StartService".to_owned());
    m.Service = Some(service.to_owned());
    m
}

/// The request that starts CoreDeviceProxy, the service behind the tunnel.
pub fn cdp_service_message() -> (r: LockdownMessage)
    ensures
        is_text(r.Label, "client"@),
        is_text(r.Request, "StartService"@),
        is_text(r.Service, "com.apple.internal.devicecompute.CoreDeviceProxy"@),
        r.HostID is None,
        r.SystemBUID is None,
        r.action is None,
        r.Domain is None,
        r.Key is None,
{
    start_service_message("com.apple.internal.devicecompute.CoreDeviceProxy")
}

/// The request that starts the AMFI lockdown service.
pub fn amfi_service_message() -> (r: LockdownMessage)
    ensures
        is_text(r.Label, "client"@),
        is_text(r.Request, "StartService"@),
        is_text(r.Service, "com.apple.amfi.lockdown"@),
        r.HostID is None,
        r.SystemBUID is None,
        r.action is None,
        r.Domain is None,
        r.Key is None,
{
    start_service_message("com.apple.amfi.lockdown")
}

/// `{Request: "GetValue", Domain: domain, Key: key}`.
pub fn get_value_message(domain: &str, key: &str) -> (r: LockdownMessage)
    ensures
        is_text(r.Request, "GetValue"@),
        is_text(r.Domain, domain@),
        is_text(r.Key, key@),
        r.Label is None,
        r.HostID is None,
        r.SystemBUID is None,
        r.Service is None,
        r.action is None,
{
    let mut m = empty_lockdown_message();
    m.Request = Some("GetValue".to_owned());
    m.Domain = Some(domain.to_owned());
    m.Key = Some(key.to_owned());
    m
}

/// The request for `DeveloperModeStatus` in the AMFI domain.
pub fn developer_mode_status_message() -> (r: LockdownMessage)
    ensures
        is_text(r.Request, "GetValue"@),
        is_text(r.Domain, "com.apple.security.mac.amfi"@),
        is_text(r.Key, "DeveloperModeStatus"@),
        r.Label is None,
        r.HostID is None,
        r.SystemBUID is None,
        r.Service is None,
        r.action is None,
{
    get_value_message("com.apple.security.mac.amfi", "DeveloperModeStatus")
}

/// `{action: 0}`, which has the AMFI service reveal developer mode.
pub fn reveal_developer_mode_message() -> (r: LockdownMessage)
    ensures
        r.action == Some(0u32),
        r.Label is None,
        r.Request is None,
        r.HostID is None,
        r.SystemBUID is None,
        r.Service is None,
        r.Domain is None,
        r.Key is None,
{
    let mut m = empty_lockdown_message();
    m.action = Some(0);
    m
}

/// The port of a `StartService` reply; `ParseError` where it has none.
pub fn service_port(reply: &PlistValue) -> (r: Result<u16, UsbmuxOperationError>)
    ensures
        match service_port_of(*reply) {
            Some(p) => r == Ok::<u16, UsbmuxOperationError>(p),
            None => r matches Err(e) && e is ParseError,
        },
{
    match reply.get("Port") {
        Some(v) => match v.as_unsigned_integer() {
            Some(n) => Ok((n % 0x10000) as u16),
            None => Err(UsbmuxOperationError::ParseError),
        },
        None => Err(UsbmuxOperationError::ParseError),
    }
}

/// Accepts a `DeveloperModeStatus` reply only where its `Value` is `true`.
pub fn check_developer_mode(reply: &PlistValue) -> (r: Result<(), UsbmuxOperationError>)
    ensures
        r is Ok <==> (value_get(*reply, "Value"@) matches Some(v) && as_boolean_spec(v) == Some(
            true,
        )),
        r matches Err(e) ==> e is DeveloperModeDisabled,
{
    match reply.get("Value") {
        Some(v) => match v.as_boolean() {
            Some(true) => Ok(()),
            _ => Err(UsbmuxOperationError::DeveloperModeDisabled),
        },
        None => Err(UsbmuxOperationError::DeveloperModeDisabled),
    }
}

/// What a session has learnt from usbmuxd: the device, and the host identity
/// of its pair record.
#[derive(Debug)]
pub struct UsbMuxClient {
    pub device_id: Option<u16>,
    pub device_serial: Option<String>,
    pub system_buid: Option<String>,
    pub host_id: Option<String>,
    pub host_cert: Option<Vec<u8>>,
    pub host_key: Option<Vec<u8>>,
}

impl UsbMuxClient {
    /// A session that knows nothing yet.
    pub fn new() -> (r: UsbMuxClient)
        ensures
            r.device_id is None,
            r.device_serial is None,
            r.system_buid is None,
            r.host_id is None,
            r.host_cert is None,
            r.host_key is None,
    {
        UsbMuxClient {
            device_id: None,
            device_serial: None,
            system_buid: None,
            host_id: None,
            host_cert: None,
            host_key: None,
        }
    }

    /// The `ListDevices` request.
    pub fn list_devices_message() -> (r: UsbmuxMessage)
        ensures
            r.header == (UsbmuxMessageHeader {
                version: USBMUX_VERSION,
                message: USBMUX_MSGTYPE,
                tag: 1,
            }),
            r.data.MessageType@ == "ListDevices"@,
            r.data.PairRecordID is None,
            r.data.ClientVersionString@ == "usbmuxd-client"@,
            r.data.ProgName@ == "client"@,
            r.data.kLibUSBMuxVersion == 3,
            r.data.DeviceID is None,
            r.data.PortNumber is None,
    {
        usbmux_message("ListDevices", None, None, None)
    }

    /// Takes the first device of a `ListDevices` reply: its id and serial
    /// number, set together. `ParseError` where the reply has no first
    /// device entry, or that entry lacks a `DeviceID` that fits in 16 bits or
    /// a `Properties.SerialNumber`; both fields are then left unset.
    pub fn on_device_list(&mut self, reply: &PlistValue) -> (r: Result<(), UsbmuxOperationError>)
        ensures
            match device_of(*reply) {
                Some((id, serial)) => r is Ok && final(self).device_id == Some(id) && opt_view(final(self).device_serial) == Some(serial),
                None => r matches Err(e) && e is ParseError && final(self).device_id is None
                    && final(self).device_serial is None,
            },
            final(self).system_buid == old(self).system_buid,
            final(self).host_id == old(self).host_id,
            final(self).host_cert == old(self).host_cert,
            final(self).host_key == old(self).host_key,
    {
        self.device_id = None;
        self.device_serial = None;
        let info = match reply.get("DeviceList") {
            Some(list) => match list.as_array() {
                Some(a) => if a.len() > 0 {
                    match &a[0] {
                        PlistValue::Dictionary(_) => &a[0],
                        _ => {
                            return Err(UsbmuxOperationError::ParseError);
                        },
                    }
                } else {
                    return Err(UsbmuxOperationError::ParseError);
                },
                None => {
                    return Err(UsbmuxOperationError::ParseError);
                },
            },
            None => {
                return Err(UsbmuxOperationError::ParseError);
            },
        };
        let id = match info.get("DeviceID") {
            Some(v) => match v.as_unsigned_integer() {
                Some(n) => if n <= 0xffff {
                    n as u16
                } else {
                    return Err(UsbmuxOperationError::ParseError);
                },
                None => {
                    return Err(UsbmuxOperationError::ParseError);
                },
            },
            None => {
                return Err(UsbmuxOperationError::ParseError);
            },
        };
        let serial = match info.get("Properties") {
            Some(p) => text_in(p, "SerialNumber"),
            None => None,
        };
        match serial {
            Some(serial) => {
                self.device_id = Some(id);
                self.device_serial = Some(serial);
                Ok(())
            },
            None => Err(UsbmuxOperationError::ParseError),
        }
    }

    /// The `ReadPairRecord` request for the device found by `on_device_list`.
    pub fn pair_record_message(&self) -> (r: UsbmuxMessage)
        ensures
            r.header == (UsbmuxMessageHeader {
                version: USBMUX_VERSION,
                message: USBMUX_MSGTYPE,
                tag: 1,
            }),
            r.data.MessageType@ == "ReadPairRecord"@,
            r.data.PairRecordID == self.device_serial,
            r.data.ClientVersionString@ == "usbmuxd-client"@,
            r.data.ProgName@ == "client"@,
            r.data.kLibUSBMuxVersion == 3,
            r.data.DeviceID is None,
            r.data.PortNumber is None,
    {
        let id = match &self.device_serial {
            Some(s) => Some(s.clone()),
            None => None,
        };
        usbmux_message("ReadPairRecord", id, None, None)
    }

    /// Takes the host identity from a `ReadPairRecord` reply: the pair record
    /// is read from the XML under `PairRecordData` and its four fields set
    /// together. `ParseError` where the reply has no `PairRecordData` data or
    /// the record is not a dictionary, `Plist` where the record does not
    /// read, `MissingPairRecordField` naming the first of `SystemBUID`,
    /// `HostID` (strings), `HostCertificate`, `HostPrivateKey` (data) that
    /// the record lacks. On an error the session is left as it was.
    pub fn on_pair_record(&mut self, reply: &PlistValue) -> (r: Result<(), UsbmuxOperationError>)
        ensures
            r is Err ==> *final(self) == *old(self),
            match bytes_of(*reply, "PairRecordData"@) {
                None => r matches Err(e) && e is ParseError,
                Some(d) => match plist_from_xml(d) {
                    None => r matches Err(e) && e is Plist,
                    Some(rec) => if !(rec is Dictionary) {
                        r matches Err(e) && e is ParseError
                    } else if text_of(rec, "SystemBUID"@) is None {
                        r matches Err(e) && e matches UsbmuxOperationError::MissingPairRecordField(w) && w@ == "SystemBUID"@
                    } else if text_of(rec, "HostID"@) is None {
                        r matches Err(e) && e matches UsbmuxOperationError::MissingPairRecordField(w) && w@ == "HostID"@
                    } else if bytes_of(rec, "HostCertificate"@) is None {
                        r matches Err(e) && e matches UsbmuxOperationError::MissingPairRecordField(w) && w@ == "HostCertificate"@
                    } else if bytes_of(rec, "HostPrivateKey"@) is None {
                        r matches Err(e) && e matches UsbmuxOperationError::MissingPairRecordField(w) && w@ == "HostPrivateKey"@
                    } else {
                        r is Ok && opt_view(final(self).system_buid) == text_of(rec, "SystemBUID"@)
                            && opt_view(final(self).host_id) == text_of(rec, "HostID"@)
                            && opt_bytes(final(self).host_cert) == bytes_of(rec, "HostCertificate"@)
                            && opt_bytes(final(self).host_key) == bytes_of(rec, "HostPrivateKey"@)
                            && final(self).device_id == old(self).device_id
                            && final(self).device_serial == old(self).device_serial
                    },
                },
            },
    {
        let data = match reply.get("PairRecordData") {
            Some(v) => match v.as_data() {
                Some(d) => d,
                None => {
                    return Err(UsbmuxOperationError::ParseError);
                },
            },
            None => {
                return Err(UsbmuxOperationError::ParseError);
            },
        };
        let rec = match from_xml(data.as_slice()) {
            Ok(v) => v,
            Err(e) => {
                return Err(UsbmuxOperationError::Plist(e));
            },
        };
        if !(match &rec {
            PlistValue::Dictionary(_) => true,
            _ => false,
        }) {
            return Err(UsbmuxOperationError::ParseError);
        }
        let buid = match text_in(&rec, "SystemBUID") {
            Some(t) => t,
            None => {
                return Err(UsbmuxOperationError::MissingPairRecordField("SystemBUID"));
            },
        };
        let host_id = match text_in(&rec, "HostID") {
            Some(t) => t,
            None => {
                return Err(UsbmuxOperationError::MissingPairRecordField("HostID"));
            },
        };
        let cert = match bytes_in(&rec, "HostCertificate") {
            Some(b) => b,
            None => {
                return Err(UsbmuxOperationError::MissingPairRecordField("HostCertificate"));
            },
        };
        let key = match bytes_in(&rec, "HostPrivateKey") {
            Some(b) => b,
            None => {
                return Err(UsbmuxOperationError::MissingPairRecordField("HostPrivateKey"));
            },
        };
        self.system_buid = Some(buid);
        self.host_id = Some(host_id);
        self.host_cert = Some(cert);
        self.host_key = Some(key);
        Ok(())
    }

    /// The `StartSession` request, with the host id in uppercase;
    /// `MissingArguments` where the pair record gave no host id or no BUID.
    pub fn start_session_message(&self) -> (r: Result<LockdownMessage, UsbmuxOperationError>)
        ensures
            self.host_id is None ==> (r matches Err(e) && e matches UsbmuxOperationError::MissingArguments(w) && w@ == "HostID"@),
            self.host_id is Some && self.system_buid is None ==> (r matches Err(e) && e matches UsbmuxOperationError::MissingArguments(w) && w@ == "SystemBUID"@),
            r matches Ok(m) ==> (self.host_id is Some && self.system_buid is Some && is_text(m.Label, "client"@) && is_text(
                m.Request,
                "StartSession"@,
            ) && is_text(m.HostID, upper_of(self.host_id->0@)) && m.SystemBUID
                == self.system_buid && m.Service is None && m.action is None && m.Domain is None
                && m.Key is None),
            self.host_id is Some && self.system_buid is Some ==> r is Ok,
    {
        let host_id = match &self.host_id {
            Some(h) => uppercase(h.as_str()),
            None => {
                return Err(UsbmuxOperationError::MissingArguments("HostID"));
            },
        };
        let buid = match &self.system_buid {
            Some(b) => b.clone(),
            None => {
                return Err(UsbmuxOperationError::MissingArguments("SystemBUID"));
            },
        };
        let mut m = empty_lockdown_message();
        m.Label = Some("client".to_owned());
        m.Request = Some("StartSession".to_owned());
        m.HostID = Some(host_id);
        m.SystemBUID = Some(buid);
        Ok(m)
    }

    /// The `Connect` request to `port` on the device, the port in network byte order.
    pub fn connect_message(&self, port: u16) -> (r: UsbmuxMessage)
        ensures
            r.header == (UsbmuxMessageHeader {
                version: USBMUX_VERSION,
                message: USBMUX_MSGTYPE,
                tag: 1,
            }),
            r.data.MessageType@ == "Connect"@,
            r.data.PairRecordID is None,
            r.data.ClientVersionString@ == "usbmuxd-client"@,
            r.data.ProgName@ == "client"@,
            r.data.kLibUSBMuxVersion == 3,
            r.data.DeviceID == self.device_id,
            r.data.PortNumber == Some(network_order(port)),
    {
        let swapped = ((port % 256) * 256 + port / 256) as u16;
        usbmux_message("Connect", None, self.device_id, Some(swapped))
    }
}

/// The string under `key` in `v`, copied.
fn text_in(v: &PlistValue, key: &str) -> (r: Option<String>)
    ensures
        opt_view(r) == text_of(*v, key@),
{
    match v.get(key) {
        Some(x) => match x.as_string() {
            Some(s) => Some(s.clone()),
            None => None,
        },
        None => None,
    }
}

/// The data under `key` in `v`, copied.
fn bytes_in(v: &PlistValue, key: &str) -> (r: Option<Vec<u8>>)
    ensures
        opt_bytes(r) == bytes_of(*v, key@),
{
    match v.get(key) {
        Some(x) => match x.as_data() {
            Some(d) => Some(d.clone()),
            None => None,
        },
        None => None,
    }
}

} // verus!
