//! The RemoteXPC locator: a fixed HTTP/2 exchange whose large reply names the
//! DTServiceHub port.
//!
//! The request is a scripted run of HTTP/2 frames; of the reply only the
//! first frame longer than `RESPONSE_FRAME_MIN` bytes is kept, and the port is
//! read as five digits at a fixed distance after `Port`, the first `Port`
//! after `com.apple.instruments.dtservicehub`.

pub mod errors;

use vstd::prelude::*;
use crate::bytes::{be_u24_at, push_all, push_u32_be, read_u24_be, u32_be};
use errors::{ParseError, SendFrameError};

verus! {

/// Reply frames up to this many payload bytes are skipped.
pub const RESPONSE_FRAME_MIN: u32 = 8000;

/// The distance from the start of `Port` to the first port digit.
pub const PORT_DIGITS_OFFSET: usize = 16;

/// How many digits the port is written with.
pub const PORT_DIGITS_LEN: usize = 5;

pub const FRAME_DATA: u8 = 0;

pub const FRAME_HEADERS: u8 = 1;

pub const FRAME_SETTINGS: u8 = 4;

pub const FRAME_WINDOW_UPDATE: u8 = 8;

pub const FLAG_END_HEADERS: u8 = 4;

/// An HTTP/2 frame: 24-bit length, type, flags, stream id, payload.
pub open spec fn h2_frame(frame_type: u8, flags: u8, stream: u32, payload: Seq<u8>) -> Seq<u8> {
    u32_be(payload.len() as u32).subrange(1, 4) + seq![frame_type, flags] + u32_be(stream)
        + payload
}

/// `PRI * HTTP/2.0\r\n\r\nSM\r\n\r\n`.
pub open spec fn h2_preface() -> Seq<u8> {
    seq![
        80u8, 82, 73, 32, 42, 32, 72, 84, 84, 80, 47, 50, 46, 48, 13, 10, 13, 10, 83, 77, 13, 10,
        13, 10,
    ]
}

/// SETTINGS: `MAX_CONCURRENT_STREAMS` = 100, `INITIAL_WINDOW_SIZE` = 0x100000.
pub open spec fn settings_payload() -> Seq<u8> {
    seq![0u8, 3, 0, 0, 0, 0x64, 0, 4, 0, 0x10, 0, 0]
}

/// WINDOW_UPDATE increment 0x000F0001.
pub open spec fn window_update_payload() -> Seq<u8> {
    seq![0u8, 0x0f, 0, 1]
}

/// The RemoteXPC message that opens the root channel, in hex.
pub open spec fn root_channel_hex() -> Seq<char> {
    "920bb0290100000014000000000000000000000000000000423713420500000000f000000400000000000000"@
}

/// The RemoteXPC message that follows it on the root channel, in hex.
pub open spec fn root_continue_hex() -> Seq<char> {
    "920bb0290102000000000000000000000000000000000000"@
}

/// The RemoteXPC message that opens the reply channel, in hex.
pub open spec fn reply_channel_hex() -> Seq<char> {
    "920bb0290100400000000000000000000000000000000000"@
}

/// The value of a hex digit, either case.
pub open spec fn hex_digit_value(c: char) -> Option<u8> {
    if '0' <= c && c <= '9' {
        Some((c as u32 - '0' as u32) as u8)
    } else if 'a' <= c && c <= 'f' {
        Some((c as u32 - 'a' as u32 + 10) as u8)
    } else if 'A' <= c && c <= 'F' {
        Some((c as u32 - 'A' as u32 + 10) as u8)
    } else {
        None
    }
}

/// The bytes written in hex by `s`, two digits each; `None` where `s` has
/// an odd number of characters or one that is not a hex digit.
pub open spec fn hex_decoded(s: Seq<char>) -> Option<Seq<u8>>
    decreases s.len(),
{
    if s.len() == 0 {
        Some(seq![])
    } else if s.len() == 1 {
        None
    } else {
        match (hex_digit_value(s[0]), hex_digit_value(s[1]), hex_decoded(s.subrange(2, s.len() as int))) {
            (Some(hi), Some(lo), Some(rest)) => Some(seq![(hi * 16 + lo) as u8] + rest),
            _ => None,
        }
    }
}

/// The whole request: preface, SETTINGS, WINDOW_UPDATE, then on stream 1
/// empty HEADERS and the two root-channel messages, then on stream 3 empty
/// HEADERS and the reply-channel message.
pub open spec fn xpc_request(root: Seq<u8>, cont: Seq<u8>, reply: Seq<u8>) -> Seq<u8> {
    h2_preface() + h2_frame(FRAME_SETTINGS, 0, 0, settings_payload()) + h2_frame(
        FRAME_WINDOW_UPDATE,
        0,
        0,
        window_update_payload(),
    ) + h2_frame(FRAME_HEADERS, FLAG_END_HEADERS, 1, seq![]) + h2_frame(FRAME_DATA, 0, 1, root)
        + h2_frame(FRAME_DATA, 0, 1, cont) + h2_frame(FRAME_HEADERS, FLAG_END_HEADERS, 3, seq![])
        + h2_frame(FRAME_DATA, 0, 3, reply)
}

/// Decoding `s` gives half as many bytes as it has digits.
proof fn lemma_hex_decoded_len(s: Seq<char>)
    requires
        hex_decoded(s) is Some,
    ensures
        hex_decoded(s)->0.len() * 2 == s.len(),
    decreases s.len(),
{
    if s.len() >= 2 {
        lemma_hex_decoded_len(s.subrange(2, s.len() as int));
    }
}

/// Relies on `hex::decode`: it reads two hex digits of either case per byte,
/// and refuses text of odd length or with any other character.
#[verifier::external_body]
fn decode_hex(s: &str) -> (r: Result<Vec<u8>, ::hex::FromHexError>)
    ensures
        r is Ok <==> hex_decoded(s@) is Some,
        r matches Ok(b) ==> hex_decoded(s@) == Some(b@),
{
    ::hex::decode(s)
}

/// Appends an HTTP/2 frame.
pub fn push_h2_frame(out: &mut Vec<u8>, frame_type: u8, flags: u8, stream: u32, payload: &[u8])
    requires
        payload@.len() < 0x100_0000,
    ensures
        final(out)@ == old(out)@ + h2_frame(frame_type, flags, stream, payload@),
{
    let mut len: Vec<u8> = Vec::new();
    push_u32_be(&mut len, payload.len() as u32);
    out.push(len[1]);
    out.push(len[2]);
    out.push(len[3]);
    out.push(frame_type);
    out.push(flags);
    push_u32_be(out, stream);
    push_all(out, payload);
    assert(final(out)@ =~= old(out)@ + h2_frame(frame_type, flags, stream, payload@));
}

/// The bytes of the whole request; `FromHexError` where a message does not
/// decode.
pub fn xpc_request_bytes() -> (r: Result<Vec<u8>, SendFrameError>)
    ensures
        match (
            hex_decoded(root_channel_hex()),
            hex_decoded(root_continue_hex()),
            hex_decoded(reply_channel_hex()),
        ) {
            (Some(root), Some(cont), Some(reply)) => r matches Ok(b) && b@ == xpc_request(
                root,
                cont,
                reply,
            ),
            _ => r matches Err(SendFrameError::ParseError(ParseError::FromHexError(_))),
        },
{
    let root = match decode_hex(
        "920bb0290100000014000000000000000000000000000000423713420500000000f000000400000000000000",
    ) {
        Ok(b) => b,
        Err(e) => {
            return Err(SendFrameError::ParseError(ParseError::FromHexError(e)));
        },
    };
    let cont = match decode_hex("920bb0290102000000000000000000000000000000000000") {
        Ok(b) => b,
        Err(e) => {
            return Err(SendFrameError::ParseError(ParseError::FromHexError(e)));
        },
    };
    let reply = match decode_hex("920bb0290100400000000000000000000000000000000000") {
        Ok(b) => b,
        Err(e) => {
            return Err(SendFrameError::ParseError(ParseError::FromHexError(e)));
        },
    };
    proof {
        reveal_strlit(
            "920bb0290100000014000000000000000000000000000000423713420500000000f000000400000000000000",
        );
        reveal_strlit("920bb0290102000000000000000000000000000000000000");
        reveal_strlit("920bb0290100400000000000000000000000000000000000");
        lemma_hex_decoded_len(root_channel_hex());
        lemma_hex_decoded_len(root_continue_hex());
        lemma_hex_decoded_len(reply_channel_hex());
    }
    let mut out: Vec<u8> = vec![
        80u8, 82, 73, 32, 42, 32, 72, 84, 84, 80, 47, 50, 46, 48, 13, 10, 13, 10, 83, 77, 13, 10,
        13, 10,
    ];
    assert(out@ =~= h2_preface());
    let settings: Vec<u8> = vec![0u8, 3, 0, 0, 0, 0x64, 0, 4, 0, 0x10, 0, 0];
    assert(settings@ =~= settings_payload());
    let window: Vec<u8> = vec![0u8, 0x0f, 0, 1];
    assert(window@ =~= window_update_payload());
    let empty: Vec<u8> = Vec::new();
    assert(empty@ =~= seq![]);
    push_h2_frame(&mut out, FRAME_SETTINGS, 0, 0, settings.as_slice());
    push_h2_frame(&mut out, FRAME_WINDOW_UPDATE, 0, 0, window.as_slice());
    push_h2_frame(&mut out, FRAME_HEADERS, FLAG_END_HEADERS, 1, empty.as_slice());
    push_h2_frame(&mut out, FRAME_DATA, 0, 1, root.as_slice());
    push_h2_frame(&mut out, FRAME_DATA, 0, 1, cont.as_slice());
    push_h2_frame(&mut out, FRAME_HEADERS, FLAG_END_HEADERS, 3, empty.as_slice());
    push_h2_frame(&mut out, FRAME_DATA, 0, 3, reply.as_slice());
    Ok(out)
}

/// The payload length in a 9-byte HTTP/2 frame header.
pub fn h2_payload_length(header: &[u8]) -> (r: u32)
    requires
        header@.len() == 9,
    ensures
        r == be_u24_at(header@, 0),
        r < 0x100_0000,
{
    read_u24_be(header, 0)
}

/// Whether a reply frame with this payload length is the one that names the
/// services; every shorter frame is skipped.
pub fn is_response_frame(payload_length: u32) -> (r: bool)
    ensures
        r == (payload_length > RESPONSE_FRAME_MIN),
{
    payload_length > RESPONSE_FRAME_MIN
}

/// `com.apple.instruments.dtservicehub`.
pub open spec fn service_marker() -> Seq<u8> {
    seq![
        99u8, 111, 109, 46, 97, 112, 112, 108, 101, 46, 105, 110, 115, 116, 114, 117, 109, 101,
        110, 116, 115, 46, 100, 116, 115, 101, 114, 118, 105, 99, 101, 104, 117, 98,
    ]
}

/// `Port`.
pub open spec fn port_marker() -> Seq<u8> {
    seq![80u8, 111, 114, 116]
}

/// `pat` stands in `s` at `i`.
pub open spec fn occurs_at(s: Seq<u8>, pat: Seq<u8>, i: int) -> bool {
    0 <= i && i + pat.len() <= s.len() && s.subrange(i, i + pat.len()) == pat
}

/// `i` is the first place at or after `start` where `pat` stands in `s`.
pub open spec fn first_from(s: Seq<u8>, pat: Seq<u8>, start: int, i: int) -> bool {
    start <= i && occurs_at(s, pat, i) && forall|j: int| start <= j < i ==> !occurs_at(s, pat, j)
}

/// `pat` does not stand in `s` at or after `start`.
pub open spec fn absent_from(s: Seq<u8>, pat: Seq<u8>, start: int) -> bool {
    forall|j: int| start <= j ==> !occurs_at(s, pat, j)
}

pub open spec fn is_ascii_digit(b: u8) -> bool {
    48 <= b <= 57
}

/// The number written in decimal by the digits `d`.
pub open spec fn decimal_value(d: Seq<u8>) -> int
    decreases d.len(),
{
    if d.len() == 0 {
        0
    } else {
        decimal_value(d.drop_last()) * 10 + (d.last() - 48)
    }
}

/// The text `d` without a leading `+`.
pub open spec fn text_digits(d: Seq<u8>) -> Seq<u8> {
    if d.len() > 0 && d[0] == 43 {
        d.drop_first()
    } else {
        d
    }
}

/// How `u16::from_str` reads the ASCII text `d`: an optional `+`, then one
/// or more digits whose value fits in 16 bits.
pub open spec fn u16_text_value(d: Seq<u8>) -> Option<u16> {
    let digits = text_digits(d);
    if digits.len() > 0 && (forall|i: int| 0 <= i < digits.len() ==> is_ascii_digit(#[trigger] digits[i]))
        && decimal_value(digits) <= 0xffff {
        Some(decimal_value(digits) as u16)
    } else {
        None
    }
}

/// Whether `std::str::from_utf8` accepts `b`.
pub uninterp spec fn utf8_valid(b: Seq<u8>) -> bool;

/// What the port digits `d` give: the number, or why they give none.
pub open spec fn digits_result(d: Seq<u8>) -> Result<u16, ParseError> {
    match u16_text_value(d) {
        Some(p) => Ok(p),
        None => if utf8_valid(d) {
            Err(ParseError::ParseIntError)
        } else {
            Err(ParseError::Utf8)
        },
    }
}

/// Relies on `std::str::from_utf8`: it accepts exactly the valid UTF-8
/// texts, and every ASCII text is one.
#[verifier::external_body]
fn is_utf8(b: &[u8]) -> (r: bool)
    ensures
        r == utf8_valid(b@),
        (forall|i: int| 0 <= i < b@.len() ==> b@[i] < 128) ==> r,
{
    std::str::from_utf8(b).is_ok()
}

/// Whether `pat` stands in `s` at `i`.
fn matches_at(s: &[u8], pat: &[u8], i: usize) -> (r: bool)
    requires
        i + pat@.len() <= s@.len(),
    ensures
        r == occurs_at(s@, pat@, i as int),
{
    let n = s.len();
    let mut k: usize = 0;
    while k < pat.len()
        invariant
            k <= pat@.len(),
            i + pat@.len() <= s@.len() == n,
            forall|m: int| 0 <= m < k ==> s@[i + m] == pat@[m],
        decreases pat.len() - k,
    {
        if s[i + k] != pat[k] {
            assert(s@.subrange(i as int, i + pat@.len())[k as int] != pat@[k as int]);
            return false;
        }
        k = k + 1;
    }
    assert(s@.subrange(i as int, i + pat@.len()) =~= pat@);
    true
}

/// The first place at or after `start` where `pat` stands in `s`.
pub fn find_from(s: &[u8], pat: &[u8], start: usize) -> (r: Option<usize>)
    requires
        pat@.len() > 0,
        start <= s@.len(),
    ensures
        r matches Some(i) ==> first_from(s@, pat@, start as int, i as int),
        r is None ==> absent_from(s@, pat@, start as int),
{
    let mut i: usize = start;
    while i < s.len() && s.len() - i >= pat.len()
        invariant
            start <= i,
            pat@.len() > 0,
            forall|j: int| start <= j < i ==> !occurs_at(s@, pat@, j),
        decreases s.len() - i,
    {
        if matches_at(s, pat, i) {
            return Some(i);
        }
        i = i + 1;
    }
    None
}

/// There is one first place.
proof fn lemma_first_unique(s: Seq<u8>, pat: Seq<u8>, start: int, i: int, k: int)
    requires
        first_from(s, pat, start, i),
        first_from(s, pat, start, k),
    ensures
        i == k,
{
    if i < k {
        assert(!occurs_at(s, pat, i));
    } else if k < i {
        assert(!occurs_at(s, pat, k));
    }
}

/// Five ASCII digits whose value fits in 16 bits read as that value.
pub proof fn lemma_five_digits_read(d: Seq<u8>)
    requires
        d.len() == PORT_DIGITS_LEN,
        forall|i: int| 0 <= i < d.len() ==> is_ascii_digit(#[trigger] d[i]),
        decimal_value(d) <= 0xffff,
    ensures
        digits_result(d) == Ok::<u16, ParseError>(decimal_value(d) as u16),
{
    assert(text_digits(d) == d);
}

/// Reads the five port digits.
pub fn parse_port_digits(d: &[u8]) -> (r: Result<u16, ParseError>)
    requires
        d@.len() == PORT_DIGITS_LEN,
    ensures
        r == digits_result(d@),
{
    let valid = is_utf8(d);
    let plus = d[0] == 43;
    let start: usize = if plus {
        1
    } else {
        0
    };
    let ghost digits = text_digits(d@);
    assert(digits =~= d@.subrange(start as int, d@.len() as int));
    let mut acc: u32 = 0;
    let mut i: usize = start;
    while i < d.len()
        invariant
            start <= i <= d@.len(),
            d@.len() == PORT_DIGITS_LEN,
            digits == d@.subrange(start as int, d@.len() as int),
            digits == text_digits(d@),
            valid == utf8_valid(d@),
            forall|m: int| start <= m < i ==> is_ascii_digit(d@[m]),
            acc == decimal_value(d@.subrange(start as int, i as int)),
            acc < 100000,
            i - start <= 5,
            acc < if i - start == 0 { 1int } else if i - start == 1 { 10 } else if i - start == 2 { 100 } else if i - start == 3 { 1000 } else if i - start == 4 { 10000 } else { 100000 },
        decreases d.len() - i,
    {
        if d[i] < 48 || d[i] > 57 {
            assert(!is_ascii_digit(digits[i - start]));
            assert(u16_text_value(d@) is None);
            if valid {
                return Err(ParseError::ParseIntError);
            } else {
                return Err(ParseError::Utf8);
            }
        }
        assert(d@.subrange(start as int, i + 1).drop_last() =~= d@.subrange(start as int, i as int));
        acc = acc * 10 + (d[i] - 48) as u32;
        i = i + 1;
    }
    assert(forall|m: int| 0 <= m < digits.len() ==> is_ascii_digit(#[trigger] digits[m]));
    if i == start || acc > 0xffff {
        assert(u16_text_value(d@) is None);
        if valid {
            return Err(ParseError::ParseIntError);
        } else {
            return Err(ParseError::Utf8);
        }
    }
    assert(forall|m: int| 0 <= m < d@.len() ==> d@[m] < 128);
    Ok(acc as u16)
}

/// The DTServiceHub port named in the services reply: the five digits that
/// stand `PORT_DIGITS_OFFSET` bytes after the first `Port` at or after the
/// first `com.apple.instruments.dtservicehub`. `MatchError` where either
/// text is missing or the digits would run past the end of the frame.
pub fn get_dvt_port(frame: &[u8]) -> (r: Result<u16, ParseError>)
    ensures
        absent_from(frame@, service_marker(), 0) ==> r matches Err(ParseError::MatchError(_)),
        forall|si: int|
            #![trigger first_from(frame@, service_marker(), 0, si)]
            first_from(frame@, service_marker(), 0, si) && absent_from(frame@, port_marker(), si)
                ==> r matches Err(ParseError::MatchError(_)),
        forall|si: int, pi: int|
            #![trigger first_from(frame@, service_marker(), 0, si), first_from(frame@, port_marker(), si, pi)]
            first_from(frame@, service_marker(), 0, si) && first_from(frame@, port_marker(), si, pi)
                ==> if pi + 21 <= frame@.len() {
                r == digits_result(frame@.subrange(pi + 16, pi + 21))
            } else {
                r matches Err(ParseError::MatchError(_))
            },
{
    let service: Vec<u8> = vec![
        99u8, 111, 109, 46, 97, 112, 112, 108, 101, 46, 105, 110, 115, 116, 114, 117, 109, 101,
        110, 116, 115, 46, 100, 116, 115, 101, 114, 118, 105, 99, 101, 104, 117, 98,
    ];
    assert(service@ =~= service_marker());
    let port: Vec<u8> = vec![80u8, 111, 114, 116];
    assert(port@ =~= port_marker());
    let si = match find_from(frame, service.as_slice(), 0) {
        Some(i) => i,
        None => {
            return Err(ParseError::MatchError("services in response frame".to_owned()));
        },
    };
    assert forall|k: int| first_from(frame@, service_marker(), 0, k) implies k == si by {
        lemma_first_unique(frame@, service_marker(), 0, k, si as int);
    }
    let pi = match find_from(frame, port.as_slice(), si) {
        Some(i) => i,
        None => {
            return Err(ParseError::MatchError("port in service".to_owned()));
        },
    };
    assert forall|k: int| first_from(frame@, port_marker(), si as int, k) implies k == pi by {
        lemma_first_unique(frame@, port_marker(), si as int, k, pi as int);
    }
    if pi > frame.len() || frame.len() - pi < 21 {
        return Err(ParseError::MatchError("port digits".to_owned()));
    }
    let digits = crate::bytes::copy_range(frame, pi + 16, pi + 21);
    parse_port_digits(digits.as_slice())
}

} // verus!
