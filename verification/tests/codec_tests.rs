use mux::codec::{
    gen_frame_header, gen_setting, gen_u32, parse_frame_header, parse_settings_payload,
    parse_window_update, preface_bytes, starts_with_preface, FrameHeader, FrameType, Setting,
};
use mux::settings::H2Settings;
use mux::headers::extract_header_fragment;

#[test]
fn frame_header_gen_exact_bytes() {
    let h = FrameHeader {
        payload_len: 4,
        frame_type: FrameType::Settings,
        flags: 1,
        stream_id: 0,
    };
    assert_eq!(gen_frame_header(&h), vec![0, 0, 4, 4, 1, 0, 0, 0, 0]);
}

#[test]
fn frame_header_round_trip() {
    let h = FrameHeader {
        payload_len: 0x123456,
        frame_type: FrameType::Headers,
        flags: 0x25,
        stream_id: 0x7abc_def0,
    };
    let bytes = gen_frame_header(&h);
    assert_eq!(bytes.len(), 9);
    let back = parse_frame_header(&bytes).unwrap();
    assert_eq!(back, h);
}

#[test]
fn frame_header_parse_exact_fields() {
    let b = vec![0x00, 0x40, 0x01, 0x00, 0x09, 0x80, 0x00, 0x00, 0x05];
    let h = parse_frame_header(&b).unwrap();
    assert_eq!(h.payload_len, 0x4001);
    assert_eq!(h.frame_type, FrameType::Data);
    assert_eq!(h.flags, 9);
    // the reserved high bit of the stream id is masked off
    assert_eq!(h.stream_id, 5);
}

#[test]
fn frame_header_parse_rejects_short_and_unknown() {
    assert!(parse_frame_header(&[0, 0, 0, 4, 0, 0, 0, 0]).is_none());
    assert!(parse_frame_header(&[0, 0, 0, 10, 0, 0, 0, 0, 0]).is_none());
    assert!(parse_frame_header(&[0, 0, 0, 255, 0, 0, 0, 0, 0]).is_none());
}

#[test]
fn preface_bytes_are_canonical() {
    assert_eq!(preface_bytes(), b"PRI * HTTP/2.0\r\n\r\nSM\r\n\r\n".to_vec());
    assert!(starts_with_preface(b"PRI * HTTP/2.0\r\n\r\nSM\r\n\r\nmore"));
    assert!(!starts_with_preface(b"PRI * HTTP/2.0\r\n\r\nSM\r\n\r"));
    assert!(!starts_with_preface(b"GET * HTTP/2.0\r\n\r\nSM\r\n\r\n"));
}

#[test]
fn settings_payload_parses_entries_in_order() {
    let b = vec![0, 4, 0, 1, 0, 0, 0, 2, 0, 0, 0, 0];
    let entries = parse_settings_payload(&b).unwrap();
    assert_eq!(entries.len(), 2);
    assert_eq!(entries[0], Setting { identifier: 4, value: 0x10000 });
    assert_eq!(entries[1], Setting { identifier: 2, value: 0 });
}

#[test]
fn settings_payload_rejects_ragged_length() {
    assert!(parse_settings_payload(&[0, 4, 0, 1, 0]).is_none());
    assert!(parse_settings_payload(&[1]).is_none());
    assert!(parse_settings_payload(&[]).unwrap().is_empty());
}

#[test]
fn gen_setting_round_trip() {
    let s = Setting { identifier: 5, value: 0xdead_beef };
    let b = gen_setting(&s);
    assert_eq!(b, vec![0, 5, 0xde, 0xad, 0xbe, 0xef]);
    let back = parse_settings_payload(&b).unwrap();
    assert_eq!(back, vec![s]);
}

#[test]
fn window_update_parses_increment() {
    assert_eq!(parse_window_update(&[0, 0, 0xff, 0xff]), Some(65535));
    // the reserved bit is masked off
    assert_eq!(parse_window_update(&[0x80, 0, 0, 1]), Some(1));
    assert_eq!(parse_window_update(&[0, 0, 1]), None);
    assert_eq!(parse_window_update(&[0, 0, 0, 1, 2]), None);
}

#[test]
fn gen_u32_big_endian() {
    assert_eq!(gen_u32(7), vec![0, 0, 0, 7]);
    assert_eq!(gen_u32(0x0102_0304), vec![1, 2, 3, 4]);
}

#[test]
fn settings_defaults() {
    let s = H2Settings::default();
    assert_eq!(s.settings_header_table_size, 4096);
    assert!(s.settings_enable_push);
    assert_eq!(s.settings_max_concurrent_streams, u32::MAX);
    assert_eq!(s.settings_initial_window_size, 65535);
    assert_eq!(s.settings_max_frame_size, 16384);
    assert_eq!(s.settings_max_header_list_size, u32::MAX);
}

#[test]
fn settings_apply_twice_is_idempotent() {
    let payload = vec![
        Setting { identifier: 1, value: 8192 },
        Setting { identifier: 4, value: 1 },
        Setting { identifier: 4, value: 123 },
        Setting { identifier: 99, value: 7 },
    ];
    let mut once = H2Settings::default();
    once.apply_settings(&payload);
    let mut twice = once;
    twice.apply_settings(&payload);
    assert_eq!(once, twice);
    assert_eq!(once.settings_header_table_size, 8192);
    // the later entry for the same identifier wins
    assert_eq!(once.settings_initial_window_size, 123);
    // unknown identifiers are ignored
    assert_eq!(once.settings_max_frame_size, 16384);
}

#[test]
fn header_fragment_extraction() {
    // no flags: the whole payload is the fragment
    assert_eq!(extract_header_fragment(&vec![1, 2, 3], 0), Some(vec![1, 2, 3]));
    // padded (0x08): one pad-length octet, padding trimmed from the end
    assert_eq!(extract_header_fragment(&vec![2, 9, 9, 0, 0], 0x08), Some(vec![9, 9]));
    // priority (0x20): five octets of dependency and weight are skipped
    assert_eq!(
        extract_header_fragment(&vec![0, 0, 0, 1, 16, 7, 8], 0x20),
        Some(vec![7, 8])
    );
    // padding longer than the payload is malformed
    assert_eq!(extract_header_fragment(&vec![9], 0x08), None);
}

#[test]
fn hpack_decode_static_entry() {
    let mut d = mux::headers::decoder_new();
    // 0x82 is the indexed static-table entry ":method: GET"
    let pairs = mux::headers::decode_header_block(&mut d, &vec![0x82]).unwrap();
    assert_eq!(pairs, vec![(b":method".to_vec(), b"GET".to_vec())]);
    // a truncated literal is a decoder error
    let mut d2 = mux::headers::decoder_new();
    assert!(mux::headers::decode_header_block(&mut d2, &vec![0x40, 0x0a]).is_err());
}
