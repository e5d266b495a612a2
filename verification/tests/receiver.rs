use esp_wroom_32_slave::master::protocol::encode_packet;
use esp_wroom_32_slave::master::receiver::receive;

#[test]
fn frames_arrive_in_order_however_the_stream_is_cut() {
    let frames = vec![
        encode_packet(1, 1, &[]).unwrap(),
        encode_packet(7, 0, &[0xAA, 1, 0xAA]).unwrap(),
        encode_packet(8, 0, &[0x81, 0xA5]).unwrap(),
    ];
    let stream: Vec<u8> = frames.concat();

    let mut buf = Vec::new();
    assert_eq!(receive(&mut buf, &stream), frames);
    assert!(buf.is_empty());

    for cut in 0..=stream.len() {
        let mut buf = Vec::new();
        let mut got = receive(&mut buf, &stream[..cut]);
        got.extend(receive(&mut buf, &stream[cut..]));
        assert_eq!(got, frames);
        assert!(buf.is_empty());
    }

    let mut buf = Vec::new();
    let mut got = Vec::new();
    for byte in &stream {
        got.extend(receive(&mut buf, &[*byte]));
    }
    assert_eq!(got, frames);
}

#[test]
fn incomplete_frame_is_kept() {
    let frame = encode_packet(7, 0, &[1, 2, 3, 4]).unwrap();
    let mut buf = Vec::new();
    assert!(receive(&mut buf, &frame[..frame.len() - 1]).is_empty());
    assert_eq!(buf, &frame[..frame.len() - 1]);
    assert_eq!(receive(&mut buf, &frame[frame.len() - 1..]), vec![frame]);
}
