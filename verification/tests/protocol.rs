use esp_wroom_32_slave::master::protocol::{
    crc16_ccitt, decode_packet, encode_packet, pop_next_valid_frame, MessageType, PacketError,
    MAX_PAYLOAD_SIZE,
};

#[test]
fn crc_of_check_string() {
    assert_eq!(crc16_ccitt(b"123456789"), 0x29B1);
    assert_eq!(crc16_ccitt(&[]), 0xFFFF);
}

#[test]
fn frame_round_trip() {
    let frame = encode_packet(7, 2, &[1, 2, 3]).unwrap();
    assert_eq!(frame, vec![0xAA, 3, 0, 7, 2, 1, 2, 3, 0xA4, 0x15]);
    let packet = decode_packet(&frame).unwrap();
    assert_eq!(packet.cmd, 7);
    assert_eq!(packet.parameter, 2);
    assert_eq!(packet.payload, &[1, 2, 3]);
}

#[test]
fn longest_payload_fits_and_one_more_byte_does_not() {
    let payload = vec![0x55u8; MAX_PAYLOAD_SIZE];
    let frame = encode_packet(7, 0, &payload).unwrap();
    assert_eq!(frame.len(), 1507);
    assert_eq!(&frame[1..3], &[0xDC, 0x05]);
    assert_eq!(decode_packet(&frame).unwrap().payload, &payload[..]);
    let longer = vec![0x55u8; MAX_PAYLOAD_SIZE + 1];
    assert_eq!(encode_packet(7, 0, &longer), Err(PacketError::PayloadTooLarge { len: 1501 }));
}

#[test]
fn message_types_have_their_numbers() {
    let all = [
        MessageType::Undefined,
        MessageType::Ready,
        MessageType::InterfaceSettings,
        MessageType::InterfaceState,
        MessageType::ServiceSettings,
        MessageType::ServiceState,
        MessageType::TcpCommand,
        MessageType::TcpData,
        MessageType::WifiScan,
    ];
    for (code, kind) in all.iter().enumerate() {
        assert_eq!(kind.as_u8() as usize, code);
        assert_eq!(MessageType::try_from(code as u8), Ok(*kind));
    }
    assert_eq!(MessageType::try_from(9), Err(PacketError::UnknownMessageType(9)));
}

#[test]
fn faults_of_a_frame_are_named() {
    let frame = encode_packet(6, 1, &[9]).unwrap();
    let fault = |bytes: &[u8]| decode_packet(bytes).err().unwrap();
    assert_eq!(fault(&frame[..6]), PacketError::FrameTooShort { len: 6 });

    let mut bad = frame.clone();
    bad[0] = 0x55;
    assert_eq!(fault(&bad), PacketError::InvalidSof(0x55));

    let mut bad = frame.clone();
    bad[1] = 0xDD;
    bad[2] = 0x05;
    assert_eq!(fault(&bad), PacketError::DeclaredPayloadTooLarge { len: 1501 });

    let mut bad = frame.clone();
    bad[1] = 2;
    assert_eq!(fault(&bad), PacketError::InvalidFrameLength { got: 8, expected: 9 });

    let mut bad = frame.clone();
    bad[5] = 8;
    let calculated = crc16_ccitt(&bad[..6]);
    let received = frame[6] as u16 + 256 * frame[7] as u16;
    assert_eq!(fault(&bad), PacketError::CrcMismatch { received, calculated });
}

#[test]
fn any_damaged_byte_is_noticed() {
    let frame = encode_packet(3, 1, &[10, 20, 30, 40]).unwrap();
    for i in 0..frame.len() {
        for flip in [1u8, 0x80, 0xFF] {
            let mut bad = frame.clone();
            bad[i] ^= flip;
            assert!(decode_packet(&bad).is_err());
        }
    }
}

#[test]
fn noise_in_front_of_a_frame_is_dropped() {
    let frame = encode_packet(1, 1, &[]).unwrap();
    let mut buf = vec![1u8, 2, 3];
    buf.extend_from_slice(&frame);
    buf.push(0xAA);
    assert_eq!(pop_next_valid_frame(&mut buf), Some(frame));
    assert_eq!(buf, vec![0xAA]);
    assert_eq!(pop_next_valid_frame(&mut buf), None);
    assert_eq!(buf, vec![0xAA]);
}

#[test]
fn impossible_length_drops_the_mark_alone() {
    let frame = encode_packet(1, 1, &[]).unwrap();
    let mut buf = vec![0xAAu8, 0xFF, 0xFF, 0, 0];
    buf.extend_from_slice(&frame);
    assert_eq!(pop_next_valid_frame(&mut buf), Some(frame));
    assert!(buf.is_empty());
}

#[test]
fn frame_that_does_not_check_is_dropped_whole() {
    let good = encode_packet(7, 3, &[1]).unwrap();
    let mut bad = encode_packet(7, 3, &[0xAA, 0xAA]).unwrap();
    let last = bad.len() - 1;
    bad[last] ^= 1;
    let mut buf = bad;
    buf.extend_from_slice(&good);
    assert_eq!(pop_next_valid_frame(&mut buf), Some(good));
    assert!(buf.is_empty());
}
