use modkit::protocol::{
    parse_message_content, FileMeta, Message, MessageHeader, MessageType, ParsedContent,
    HEADER_SIZE,
};

#[test]
fn header_round_trip_every_type_and_length() {
    let types = [
        MessageType::String,
        MessageType::Bytes,
        MessageType::File,
        MessageType::Image,
        MessageType::VideoStream,
    ];
    for t in types {
        for len in 0u64..64 {
            let header = MessageHeader::new(t, len);
            let bytes = header.to_bytes();
            assert_eq!(bytes.len(), HEADER_SIZE);
            let decoded = MessageHeader::from_bytes(&bytes).expect("decodes");
            assert_eq!(decoded, header);
        }
        for len in [255u64, 256, 65535, 65536, 1 << 32, u64::MAX] {
            let header = MessageHeader::new(t, len);
            let decoded = MessageHeader::from_bytes(&header.to_bytes()).expect("decodes");
            assert_eq!(decoded, header);
        }
    }
}

#[test]
fn bad_tag_is_rejected_whatever_follows() {
    for tag in 0u8..=255 {
        if (1..=5).contains(&tag) {
            continue;
        }
        let mut bytes = vec![tag];
        bytes.extend_from_slice(&[0xab, 0xcd, 0, 1, 2, 3, 4, 5]);
        assert!(MessageHeader::from_bytes(&bytes).is_none());
    }
}

#[test]
fn short_and_long_headers_are_rejected() {
    assert!(MessageHeader::from_bytes(&[1, 0, 0, 0]).is_none());
    assert!(MessageHeader::from_bytes(&[1, 0, 0, 0, 0, 0, 0, 0, 0, 0]).is_none());
}

#[test]
fn length_field_equals_payload_length() {
    let msg = Message::file("a.txt", b"some content".to_vec());
    assert_eq!(msg.header.data_len, msg.data.len() as u64);
    let encoded = msg.to_bytes();
    assert_eq!(encoded.len(), HEADER_SIZE + msg.data.len());
}

#[test]
fn receiver_rejects_payload_one_byte_short() {
    let msg = Message::string("hello");
    let encoded = msg.to_bytes();
    let header = MessageHeader::from_bytes(&encoded[..HEADER_SIZE]).expect("decodes");
    let short_payload = encoded[HEADER_SIZE..encoded.len() - 1].to_vec();
    assert!(Message::from_parts(header, short_payload).is_none());
    let full_payload = encoded[HEADER_SIZE..].to_vec();
    let rebuilt = Message::from_parts(header, full_payload).expect("assembles");
    assert_eq!(rebuilt.data, msg.data);
}

#[test]
fn file_meta_round_trip() {
    let meta = FileMeta::new("photo.jpg");
    let bytes = meta.to_bytes();
    let (decoded, consumed) = FileMeta::from_bytes(&bytes).expect("decodes");
    assert_eq!(decoded.filename, "photo.jpg");
    assert_eq!(consumed, 2 + "photo.jpg".len());
}

#[test]
fn file_meta_rejects_truncation_and_bad_utf8() {
    assert!(FileMeta::from_bytes(&[]).is_none());
    assert!(FileMeta::from_bytes(&[0]).is_none());
    // Declared length 5, only 3 name bytes available.
    assert!(FileMeta::from_bytes(&[0, 5, b'a', b'b', b'c']).is_none());
    // Invalid UTF-8 name bytes.
    assert!(FileMeta::from_bytes(&[0, 2, 0xff, 0xfe]).is_none());
}

#[test]
fn string_message_bytes() {
    let encoded = Message::string("hi").to_bytes();
    assert_eq!(encoded, vec![1, 0, 0, 0, 0, 0, 0, 0, 2, b'h', b'i']);
    assert_eq!(encoded.len(), 11);
}

#[test]
fn bytes_header_bytes() {
    let header = MessageHeader::new(MessageType::Bytes, 10);
    assert_eq!(header.to_bytes(), vec![2, 0, 0, 0, 0, 0, 0, 0, 10]);
}

#[test]
fn file_message_bytes() {
    let msg = Message::file("a.txt", b"hi".to_vec());
    assert_eq!(msg.data, vec![0, 5, b'a', b'.', b't', b'x', b't', b'h', b'i']);
    assert_eq!(msg.header.data_len, 9);
    assert_eq!(msg.header.msg_type.to_u8(), 3);
}

#[test]
fn type_tags_round_trip() {
    for tag in 1u8..=5 {
        let t = MessageType::from_u8(tag).expect("valid tag");
        assert_eq!(t.to_u8(), tag);
    }
    assert!(MessageType::from_u8(0).is_none());
    assert!(MessageType::from_u8(6).is_none());
}

#[test]
fn parse_content_string() {
    let msg = Message::string("héllo");
    match parse_message_content(&msg) {
        ParsedContent::String(s) => assert_eq!(s, "héllo"),
        other => panic!("wrong variant: {:?}", other),
    }
}

#[test]
fn parse_content_string_lossy_replaces_invalid() {
    let msg = Message {
        header: MessageHeader::new(MessageType::String, 3),
        data: vec![b'h', 0xff, b'i'],
    };
    match parse_message_content(&msg) {
        ParsedContent::String(s) => assert_eq!(s, "h\u{fffd}i"),
        other => panic!("wrong variant: {:?}", other),
    }
}

#[test]
fn parse_content_bytes_and_video() {
    let msg = Message::bytes(vec![9, 8, 7]);
    match parse_message_content(&msg) {
        ParsedContent::Bytes(b) => assert_eq!(b, vec![9, 8, 7]),
        other => panic!("wrong variant: {:?}", other),
    }
    let msg = Message::video_frame(vec![1, 2]);
    match parse_message_content(&msg) {
        ParsedContent::VideoFrame(b) => assert_eq!(b, vec![1, 2]),
        other => panic!("wrong variant: {:?}", other),
    }
}

#[test]
fn parse_content_file_and_image() {
    let msg = Message::file("f.bin", vec![1, 2, 3]);
    match parse_message_content(&msg) {
        ParsedContent::File { filename, data } => {
            assert_eq!(filename, "f.bin");
            assert_eq!(data, vec![1, 2, 3]);
        },
        other => panic!("wrong variant: {:?}", other),
    }
    let msg = Message::image("p.png", vec![4, 5]);
    match parse_message_content(&msg) {
        ParsedContent::Image { filename, data } => {
            assert_eq!(filename, "p.png");
            assert_eq!(data, vec![4, 5]);
        },
        other => panic!("wrong variant: {:?}", other),
    }
}

#[test]
fn parse_content_malformed_meta_degrades_to_bytes() {
    // Declared name length exceeds the payload: fall back to opaque bytes.
    let msg = Message {
        header: MessageHeader::new(MessageType::File, 3),
        data: vec![0, 9, b'x'],
    };
    match parse_message_content(&msg) {
        ParsedContent::Bytes(b) => assert_eq!(b, vec![0, 9, b'x']),
        other => panic!("wrong variant: {:?}", other),
    }
}
