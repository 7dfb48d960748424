use rusty_loc_sim::cdp::{
    cdp_handshake_request, cdp_reply_body_length, encode_cdp_envelope, parse_cdp_reply,
};
use rusty_loc_sim::dtservice::{
    channel_request_message, create_locationsm_message, dxt_frame_length, dxt_payload_length,
    handshake_message, location_service_name, LATITUDE_OFFSET, LONGITUDE_OFFSET,
};
use rusty_loc_sim::json::{from_json, JsonValue};
use rusty_loc_sim::tunnel::{assemble_net_packet, net_payload_length, tun_to_net};
use rusty_loc_sim::usbmux::errors::UsbmuxOperationError;
use rusty_loc_sim::xpc::errors::{ParseError, SendFrameError};
use rusty_loc_sim::xpc::{
    get_dvt_port, h2_payload_length, is_response_frame, parse_port_digits, xpc_request_bytes,
};

fn le32(b: &[u8], i: usize) -> u32 {
    u32::from_le_bytes([b[i], b[i + 1], b[i + 2], b[i + 3]])
}

fn le64(b: &[u8], i: usize) -> u64 {
    let mut a = [0u8; 8];
    a.copy_from_slice(&b[i..i + 8]);
    u64::from_le_bytes(a)
}

fn ipv6_header(payload_len: u16) -> Vec<u8> {
    let mut h = vec![0u8; 40];
    h[0] = 0x60;
    h[4..6].copy_from_slice(&payload_len.to_be_bytes());
    h[6] = 58;
    h[7] = 64;
    h
}

#[test]
fn cdp_request_envelope() {
    let bytes = cdp_handshake_request();
    assert_eq!(&bytes[..8], b"CDTunnel");
    assert_eq!(&bytes[8..10], &[0x00, 0x2d]);
    assert_eq!(&bytes[10..], br#"{"type":"clientHandshakeRequest","mtu":16000}"#);
    let len = u16::from_be_bytes([bytes[8], bytes[9]]) as usize;
    assert_eq!(len, bytes.len() - 10);
    let body = from_json(&bytes[10..]).unwrap();
    assert!(matches!(body.get("type"), Some(JsonValue::String(s)) if s == "clientHandshakeRequest"));
    assert!(matches!(body.get("mtu"), Some(JsonValue::Unsigned(16000))));
}

#[test]
fn cdp_handshake_parse() {
    let body = br#"{"clientParameters":{"address":"fd00::1","mtu":1420,"netmask":"ffff:ffff:ffff:ffff::"},"serverAddress":"fd00::2","serverRSDPort":58123,"type":"serverHandshakeResponse"}"#;
    let envelope = encode_cdp_envelope(body);
    let n = cdp_reply_body_length(&envelope[..10]).unwrap() as usize;
    assert_eq!(n, body.len());
    let reply = parse_cdp_reply(&envelope[10..10 + n]).unwrap();
    assert_eq!(reply.address, "fd00::1");
    assert_eq!(reply.mtu, 1420);
    assert_eq!(reply.netmask, "ffff:ffff:ffff:ffff::");
    assert_eq!(reply.server_address, "fd00::2");
    assert_eq!(reply.server_rsd_port, 58123);
    assert_eq!(reply.rsd_port(), 58123);
    assert_eq!(reply.reply_type, "serverHandshakeResponse");
}

#[test]
fn cdp_reply_without_magic_is_rejected() {
    let mut header = b"CDTunnel".to_vec();
    header.extend_from_slice(&[0, 5]);
    assert_eq!(cdp_reply_body_length(&header).unwrap(), 5);
    header[0] = b'X';
    assert!(matches!(cdp_reply_body_length(&header), Err(UsbmuxOperationError::ParseError)));
}

#[test]
fn cdp_reply_with_missing_or_bad_members() {
    assert!(matches!(parse_cdp_reply(b"{not json"), Err(UsbmuxOperationError::JsonError(_))));
    let no_port = br#"{"clientParameters":{"address":"fd00::1","mtu":1420,"netmask":"m"},"serverAddress":"fd00::2","type":"t"}"#;
    assert!(matches!(parse_cdp_reply(no_port), Err(UsbmuxOperationError::ParseError)));
    let negative_mtu = br#"{"clientParameters":{"address":"a","mtu":-1,"netmask":"m"},"serverAddress":"s","serverRSDPort":1,"type":"t"}"#;
    assert!(matches!(parse_cdp_reply(negative_mtu), Err(UsbmuxOperationError::ParseError)));
}

#[test]
fn ipv6_splice() {
    let n: u16 = 12;
    let header = ipv6_header(n);
    let body: Vec<u8> = (0..n as u8).collect();
    assert_eq!(net_payload_length(&header), Some(n));
    let packet = assemble_net_packet(&header, &body);
    assert_eq!(packet.len(), 40 + n as usize);
    assert_eq!(&packet[..40], &header[..]);
    assert_eq!(&packet[40..], &body[..]);

    let forwarded = tun_to_net(&packet).unwrap();
    assert_eq!(forwarded, packet);
    assert_eq!(forwarded[0] >> 4, 6);

    let mut ipv4 = packet.clone();
    ipv4[0] = 0x45;
    assert!(tun_to_net(&ipv4).is_none());
    assert!(tun_to_net(&[]).is_none());
    assert_eq!(net_payload_length(&ipv4[..40]), None);
}

#[test]
fn xpc_request_script() {
    let bytes = xpc_request_bytes().unwrap();
    assert_eq!(&bytes[..24], b"PRI * HTTP/2.0\r\n\r\nSM\r\n\r\n");
    let settings = &bytes[24..24 + 9 + 12];
    assert_eq!(&settings[..9], &[0, 0, 12, 4, 0, 0, 0, 0, 0]);
    assert_eq!(&settings[9..], &[0, 3, 0, 0, 0, 100, 0, 4, 0, 0x10, 0, 0]);
    let window = &bytes[45..45 + 13];
    assert_eq!(window, &[0, 0, 4, 8, 0, 0, 0, 0, 0, 0, 0x0f, 0, 1]);
    let headers1 = &bytes[58..67];
    assert_eq!(headers1, &[0, 0, 0, 1, 4, 0, 0, 0, 1]);
    let data1 = &bytes[67..67 + 9 + 44];
    assert_eq!(&data1[..9], &[0, 0, 0x2c, 0, 0, 0, 0, 0, 1]);
    assert_eq!(&data1[9..18], &[0x92, 0x0b, 0xb0, 0x29, 0x01, 0x00, 0x00, 0x00, 0x14]);
    assert_eq!(&data1[9 + 24..9 + 32], &[0x42, 0x37, 0x13, 0x42, 0x05, 0, 0, 0]);
    let data2 = &bytes[120..120 + 33];
    assert_eq!(&data2[..9], &[0, 0, 0x18, 0, 0, 0, 0, 0, 1]);
    assert_eq!(&data2[9..17], &[0x92, 0x0b, 0xb0, 0x29, 0x01, 0x02, 0, 0]);
    let headers3 = &bytes[153..162];
    assert_eq!(headers3, &[0, 0, 0, 1, 4, 0, 0, 0, 3]);
    let data3 = &bytes[162..];
    assert_eq!(data3.len(), 33);
    assert_eq!(&data3[..9], &[0, 0, 0x18, 0, 0, 0, 0, 0, 3]);
    assert_eq!(&data3[9..17], &[0x92, 0x0b, 0xb0, 0x29, 0x01, 0x00, 0x40, 0]);
    let _unused: Option<SendFrameError> = None;
}

#[test]
fn http2_frames_at_most_8000_bytes_are_skipped() {
    assert_eq!(h2_payload_length(&[0x00, 0x23, 0x28, 0, 0, 0, 0, 0, 1]), 9000);
    assert_eq!(h2_payload_length(&[0x01, 0x00, 0x00, 0, 0, 0, 0, 0, 1]), 65536);
    assert!(!is_response_frame(8000));
    assert!(is_response_frame(8001));
    assert!(is_response_frame(9000));
    assert!(!is_response_frame(0));
}

fn response_frame(with_service: bool, with_port: bool) -> Vec<u8> {
    let mut f = vec![b'.'; 9000];
    let mut at = 1000;
    if with_service {
        let s = b"com.apple.instruments.dtservicehub";
        f[at..at + s.len()].copy_from_slice(s);
        at += s.len() + 8;
    }
    if with_port {
        f[at..at + 4].copy_from_slice(b"Port");
        f[at + 16..at + 21].copy_from_slice(b"12345");
    }
    f
}

#[test]
fn port_extraction() {
    assert_eq!(get_dvt_port(&response_frame(true, true)).unwrap(), 12345);
    assert!(matches!(
        get_dvt_port(&response_frame(false, true)),
        Err(ParseError::MatchError(_))
    ));
    assert!(matches!(
        get_dvt_port(&response_frame(true, false)),
        Err(ParseError::MatchError(_))
    ));
}

#[test]
fn port_extraction_ignores_port_before_service() {
    let mut f = response_frame(true, true);
    f[10..14].copy_from_slice(b"Port");
    f[26..31].copy_from_slice(b"99999");
    assert_eq!(get_dvt_port(&f).unwrap(), 12345);
    let mut short = b"com.apple.instruments.dtservicehubPort".to_vec();
    short.extend_from_slice(b"....");
    assert!(matches!(get_dvt_port(&short), Err(ParseError::MatchError(_))));
}

#[test]
fn port_digits() {
    assert_eq!(parse_port_digits(b"12345").unwrap(), 12345);
    assert_eq!(parse_port_digits(b"00080").unwrap(), 80);
    assert_eq!(parse_port_digits(b"+1234").unwrap(), 1234);
    assert_eq!(parse_port_digits(b"65535").unwrap(), 65535);
    assert!(matches!(parse_port_digits(b"65536"), Err(ParseError::ParseIntError)));
    assert!(matches!(parse_port_digits(b"12a45"), Err(ParseError::ParseIntError)));
    assert!(matches!(parse_port_digits(b"-1234"), Err(ParseError::ParseIntError)));
    assert!(matches!(parse_port_digits(&[0x31, 0xff, 0x32, 0x33, 0x34]), Err(ParseError::Utf8)));
}

#[test]
fn location_encoding() {
    let lat: f64 = 19.25010;
    let lng: f64 = -99.57864;
    let m = create_locationsm_message(lat.to_bits(), lng.to_bits());
    assert_eq!(f64::from_bits(le64(&m, LATITUDE_OFFSET)), 19.25010);
    assert_eq!(f64::from_bits(le64(&m, LONGITUDE_OFFSET)), -99.57864);
    assert_eq!(le32(&m, 0), 0x1F3D5B79);
    assert_eq!(le32(&m, 12) as usize, m.len() - 32);
    assert!(m.ends_with(b"simulateLocationWithLatitude:longitude:"));
}

#[test]
fn dxt_frames_consume_header_and_payload() {
    let h = handshake_message();
    assert_eq!(dxt_payload_length(&h[..32]) as usize, h.len() - 32);
    assert_eq!(dxt_frame_length(&h[..32]) as usize, h.len());
    let mut header = vec![0u8; 32];
    header[12..16].copy_from_slice(&300u32.to_le_bytes());
    assert_eq!(dxt_payload_length(&header), 300);
    assert_eq!(dxt_frame_length(&header), 332);
    let c = channel_request_message(&location_service_name());
    assert_eq!(dxt_frame_length(&c[..32]) as usize, c.len());
    assert!(c.windows(56).any(|w| w == b"com.apple.instruments.server.services.LocationSimulation"));
}
