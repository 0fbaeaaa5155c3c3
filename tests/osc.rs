use osc_chatbox::osc::{encode_chatbox_message, encode_typing_indicator, truncate_for_chatbox};
use rosc::{OscPacket, OscType};

fn decode(bytes: &[u8]) -> (String, Vec<OscType>) {
    let (rest, packet) = rosc::decoder::decode_udp(bytes).expect("datagram decodes");
    assert!(rest.is_empty());
    match packet {
        OscPacket::Message(m) => (m.addr, m.args),
        OscPacket::Bundle(_) => panic!("expected a message"),
    }
}

#[test]
fn truncates_long_text_to_142_scalars_then_suffix() {
    let input: String = std::iter::repeat('é').take(500).collect();
    let out = truncate_for_chatbox(&input);
    let chars: Vec<char> = out.chars().collect();
    assert_eq!(chars.len(), 144);
    assert!(chars[..142].iter().all(|c| *c == 'é'));
    assert_eq!(chars[142], '\u{3}');
    assert_eq!(chars[143], '\u{1F}');
}

#[test]
fn short_text_is_kept_whole() {
    assert_eq!(truncate_for_chatbox("hi"), "hi\u{3}\u{1F}");
    assert_eq!(truncate_for_chatbox(""), "\u{3}\u{1F}");
}

#[test]
fn exactly_142_scalars_are_kept() {
    let input: String = std::iter::repeat('a').take(142).collect();
    let out = truncate_for_chatbox(&input);
    assert_eq!(out, format!("{input}\u{3}\u{1F}"));
}

#[test]
fn chatbox_datagram_bytes() {
    let bytes = encode_chatbox_message("hi", true, false).unwrap();
    let mut expected: Vec<u8> = Vec::new();
    expected.extend_from_slice(b"/chatbox/input\0\0");
    expected.extend_from_slice(b",sTF\0\0\0\0");
    expected.extend_from_slice(b"hi\x03\x1f\0\0\0\0");
    assert_eq!(bytes, expected);
}

#[test]
fn typing_datagram_bytes() {
    let on = encode_typing_indicator(true).unwrap();
    let mut expected: Vec<u8> = Vec::new();
    expected.extend_from_slice(b"/chatbox/typing\0");
    expected.extend_from_slice(b",T\0\0");
    assert_eq!(on, expected);
    let off = encode_typing_indicator(false).unwrap();
    assert_eq!(&off[16..18], b",F");
}

#[test]
fn long_message_round_trips_through_decoder() {
    let input: String = (0..500).map(|i| char::from(b'a' + (i % 26) as u8)).collect();
    let bytes = encode_chatbox_message(&input, true, true).unwrap();
    assert_eq!(bytes.len() % 4, 0);
    let (addr, args) = decode(&bytes);
    assert_eq!(addr, "/chatbox/input");
    let expected: String = input.chars().take(142).chain(['\u{3}', '\u{1F}']).collect();
    assert_eq!(args, vec![OscType::String(expected), OscType::Bool(true), OscType::Bool(true)]);
}

#[test]
fn typing_round_trips_through_decoder() {
    let bytes = encode_typing_indicator(false).unwrap();
    let (addr, args) = decode(&bytes);
    assert_eq!(addr, "/chatbox/typing");
    assert_eq!(args, vec![OscType::Bool(false)]);
}
