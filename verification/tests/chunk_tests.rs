use bytes::Bytes;
use msir::chunk::error::ChunkError;
use msir::chunk::transport::Transport;
use msir::chunk::{get_perfer_cid, ChunkCodec, MessageHeader};
use msir::message::{Decoded, RtmpMessage, RtmpPayload};

fn video(timestamp: u32, stream_id: u32, len: usize) -> RtmpPayload {
    let mut data = Vec::with_capacity(len);
    let mut i: usize = 0;
    while i < len {
        data.push((i % 251) as u8);
        i += 1;
    }
    RtmpPayload { message_type: 9, csid: stream_id, timestamp, raw_data: Bytes::from(data) }
}

fn feed_and_receive(codec: &mut ChunkCodec, bytes: &[u8]) -> Vec<Decoded> {
    let mut out = Vec::new();
    let mut at = 0;
    loop {
        while at < bytes.len() {
            let room = 4096.min(bytes.len() - at);
            if codec.fill(&bytes[at..at + room]).is_err() {
                break;
            }
            at += room;
        }
        let mut progressed = false;
        loop {
            match codec.recv_rtmp_message().unwrap() {
                Some(d) => {
                    out.push(d);
                    progressed = true;
                }
                None => break,
            }
        }
        if at >= bytes.len() && !progressed {
            break;
        }
        if at >= bytes.len() {
            match codec.recv_rtmp_message().unwrap() {
                Some(d) => out.push(d),
                None => break,
            }
        }
    }
    out
}

fn round_trip(chunk_size: usize, len: usize, timestamp: u32) {
    let mut sender = ChunkCodec::new(Transport::new());
    sender.set_out_chunk_size(chunk_size);
    let sent = video(timestamp, 1, len);
    let expected = sent.raw_data.clone();
    let bytes = sender.send_rtmp_message(sent).unwrap();
    let chunks = (len + chunk_size - 1) / chunk_size;
    let extended = if timestamp >= 0xffffff { 4 } else { 0 };
    assert_eq!(bytes.len(), len + 12 + extended + (chunks - 1) * (1 + extended));
    assert_eq!(sender.get_send_bytes(), bytes.len() as u64);

    let mut receiver = ChunkCodec::new(Transport::new());
    receiver.set_in_chunk_size(chunk_size);
    let got = feed_and_receive(&mut receiver, &bytes);
    assert_eq!(got.len(), 1);
    match &got[0] {
        Decoded::Message(RtmpMessage::VideoData { stream_id, timestamp: ts, payload }) => {
            assert_eq!(*stream_id, 1);
            assert_eq!(*ts, timestamp);
            assert_eq!(payload.len(), len);
            assert!(payload == &expected);
        }
        other => panic!("unexpected {:?}", other),
    }
    assert_eq!(receiver.get_recv_bytes(), bytes.len() as u64);
}

#[test]
fn chunks_reassemble_at_chunk_size_128() {
    for len in [1usize, 127, 128, 129, 1280] {
        round_trip(128, len, 40);
    }
}

#[test]
fn chunks_reassemble_at_chunk_size_4096() {
    for len in [1usize, 4095, 4096, 4097, 40960] {
        round_trip(4096, len, 1000);
    }
}

#[test]
fn chunks_reassemble_at_chunk_size_60000() {
    for len in [1usize, 59999, 60000, 60001, 600000] {
        round_trip(60000, len, 0);
    }
}

#[test]
fn the_longest_payload_reassembles() {
    round_trip(60000, (1 << 24) - 1, 7);
}

#[test]
fn the_longest_payload_reassembles_in_small_chunks() {
    round_trip(4096, (1 << 24) - 1, 7);
}

#[test]
fn extended_timestamps_reassemble() {
    round_trip(128, 1000, 0xffffff);
    round_trip(128, 1000, 0x1000000);
    round_trip(4096, 5000, 0x7fffffff);
    round_trip(128, 1, 0x7fffffff);
}

#[test]
fn a_payload_of_two_to_the_24_is_refused() {
    let mut codec = ChunkCodec::new(Transport::new());
    match codec.send_rtmp_message(video(0, 1, 1 << 24)) {
        Err(ChunkError::EncodeMessageFailed(_)) => {}
        other => panic!("unexpected {:?}", other.map(|b| b.len())),
    }
    assert_eq!(codec.get_send_bytes(), 0);
}

#[test]
fn an_empty_payload_is_left_out() {
    let mut codec = ChunkCodec::new(Transport::new());
    let msgs = vec![video(0, 1, 0), video(0, 1, 3)];
    let bytes = codec.send_rtmp_messages(&msgs).unwrap();
    assert_eq!(bytes, vec![6, 0, 0, 0, 0, 0, 3, 9, 1, 0, 0, 0, 0, 1, 2]);
}

#[test]
fn first_chunk_header_layout() {
    let mut codec = ChunkCodec::new(Transport::new());
    let p = RtmpPayload {
        message_type: 8,
        csid: 0x01020304,
        timestamp: 0x0a0b0c,
        raw_data: Bytes::from(vec![0xaf, 0x01]),
    };
    let bytes = codec.send_rtmp_message(p).unwrap();
    assert_eq!(bytes, vec![7, 0x0a, 0x0b, 0x0c, 0, 0, 2, 8, 4, 3, 2, 1, 0xaf, 0x01]);
}

#[test]
fn continuation_chunks_use_format_3() {
    let mut codec = ChunkCodec::new(Transport::new());
    let bytes = codec.send_rtmp_message(video(1, 1, 130)).unwrap();
    assert_eq!(bytes.len(), 12 + 128 + 1 + 2);
    assert_eq!(bytes[0], 6);
    assert_eq!(bytes[12 + 128], 0xc0 | 6);
}

#[test]
fn extended_timestamp_is_sent_in_every_chunk() {
    let mut codec = ChunkCodec::new(Transport::new());
    let bytes = codec.send_rtmp_message(video(0x01020304, 1, 129)).unwrap();
    assert_eq!(&bytes[1..4], &[0xff, 0xff, 0xff]);
    assert_eq!(&bytes[12..16], &[1, 2, 3, 4]);
    assert_eq!(bytes[16 + 128], 0xc6);
    assert_eq!(&bytes[16 + 128 + 1..16 + 128 + 5], &[1, 2, 3, 4]);
    assert_eq!(bytes.len(), 16 + 128 + 5 + 1);
}

#[test]
fn preferred_chunk_streams() {
    for t in [1u8, 2, 3, 4, 5, 6] {
        assert_eq!(get_perfer_cid(t), 2);
    }
    for t in [15u8, 16, 17, 18, 19, 20] {
        assert_eq!(get_perfer_cid(t), 3);
    }
    assert_eq!(get_perfer_cid(8), 7);
    assert_eq!(get_perfer_cid(9), 6);
    assert_eq!(get_perfer_cid(22), 2);
    assert_eq!(get_perfer_cid(0), 2);
}

#[test]
fn default_message_header() {
    let h = MessageHeader::default();
    assert_eq!(h.timestamp_delta, 0);
    assert_eq!(h.payload_length, 0);
    assert_eq!(h.message_type, 0);
    assert_eq!(h.stream_id, 0);
    assert_eq!(h.timestamp, 0);
    assert_eq!(h.perfer_cid, 2);
}

fn receive_error(bytes: &[u8]) -> ChunkError {
    let mut codec = ChunkCodec::new(Transport::new());
    codec.fill(bytes).unwrap();
    match codec.recv_rtmp_message() {
        Err(e) => e,
        Ok(d) => panic!("unexpected {:?}", d),
    }
}

#[test]
fn a_large_chunk_stream_id_is_refused() {
    assert!(matches!(receive_error(&[0x00, 0x00]), ChunkError::LargeCsid(64)));
    assert!(matches!(receive_error(&[0x00, 0x05]), ChunkError::LargeCsid(69)));
    assert!(matches!(receive_error(&[0x01, 0x02, 0x01]), ChunkError::LargeCsid(322)));
    assert!(matches!(receive_error(&[0xc0, 0xff]), ChunkError::LargeCsid(319)));
}

#[test]
fn a_first_chunk_of_format_2_or_3_is_refused() {
    assert!(matches!(receive_error(&[0x80 | 5, 0, 0, 0]), ChunkError::InvalidFmtRule1(2, 5)));
    assert!(matches!(receive_error(&[0xc0 | 9]), ChunkError::InvalidFmtRule1(3, 9)));
}

#[test]
fn a_first_chunk_of_format_1_is_taken() {
    let mut codec = ChunkCodec::new(Transport::new());
    codec.fill(&[0x40 | 2, 0, 0, 10, 0, 0, 4, 1, 0, 0, 0, 200]).unwrap();
    match codec.recv_rtmp_message().unwrap() {
        Some(Decoded::Message(RtmpMessage::SetChunkSize { chunk_size: 200 })) => {}
        other => panic!("unexpected {:?}", other),
    }
}

#[test]
fn format_0_in_the_middle_of_a_message_is_refused() {
    let mut codec = ChunkCodec::new(Transport::new());
    let mut bytes = vec![0x06, 0, 0, 0, 0, 0, 200, 9, 1, 0, 0, 0];
    bytes.extend(std::iter::repeat(1u8).take(128));
    bytes.extend_from_slice(&[0x06, 0, 0, 0, 0, 0, 200, 9, 1, 0, 0, 0]);
    codec.fill(&bytes).unwrap();
    match codec.recv_rtmp_message() {
        Err(ChunkError::InvalidFmtRule2(0, 6)) => {}
        other => panic!("unexpected {:?}", other),
    }
}

#[test]
fn another_length_in_the_middle_of_a_message_is_refused() {
    let mut codec = ChunkCodec::new(Transport::new());
    let mut bytes = vec![0x06, 0, 0, 0, 0, 0, 200, 9, 1, 0, 0, 0];
    bytes.extend(std::iter::repeat(1u8).take(128));
    bytes.extend_from_slice(&[0x46, 0, 0, 0, 0, 0, 201, 9]);
    codec.fill(&bytes).unwrap();
    match codec.recv_rtmp_message() {
        Err(ChunkError::InvalidMsgLengthRule1(200, 201)) => {}
        other => panic!("unexpected {:?}", other),
    }
}

#[test]
fn another_extended_timestamp_in_a_continuation_is_refused() {
    let mut codec = ChunkCodec::new(Transport::new());
    let mut bytes = vec![0x06, 0xff, 0xff, 0xff, 0, 0, 200, 9, 1, 0, 0, 0, 0, 0, 0, 50];
    bytes.extend(std::iter::repeat(1u8).take(128));
    bytes.extend_from_slice(&[0xc6, 0, 0, 0, 51]);
    bytes.extend(std::iter::repeat(1u8).take(72));
    codec.fill(&bytes).unwrap();
    match codec.recv_rtmp_message() {
        Err(ChunkError::InvalidExTimestamp) => {}
        other => panic!("unexpected {:?}", other),
    }
}

#[test]
fn an_extended_timestamp_with_the_top_bit_set_may_be_sent_again() {
    let mut codec = ChunkCodec::new(Transport::new());
    let mut bytes = vec![0x06, 0xff, 0xff, 0xff, 0, 0, 200, 9, 1, 0, 0, 0, 0x80, 0, 0, 5];
    bytes.extend(std::iter::repeat(1u8).take(128));
    bytes.extend_from_slice(&[0xc6, 0x80, 0, 0, 5]);
    bytes.extend(std::iter::repeat(2u8).take(72));
    codec.fill(&bytes).unwrap();
    match codec.recv_rtmp_message().unwrap() {
        Some(Decoded::Message(RtmpMessage::VideoData { timestamp, stream_id, payload })) => {
            assert_eq!(timestamp, 5);
            assert_eq!(stream_id, 1);
            assert_eq!(payload.len(), 200);
            assert_eq!(payload[127], 1);
            assert_eq!(payload[128], 2);
        }
        other => panic!("unexpected {:?}", other),
    }
}

#[test]
fn the_lower_31_bits_alone_do_not_repeat_an_extended_timestamp() {
    let mut codec = ChunkCodec::new(Transport::new());
    let mut bytes = vec![0x06, 0xff, 0xff, 0xff, 0, 0, 200, 9, 1, 0, 0, 0, 0x80, 0, 0, 5];
    bytes.extend(std::iter::repeat(1u8).take(128));
    bytes.extend_from_slice(&[0xc6, 0, 0, 0, 5]);
    bytes.extend(std::iter::repeat(2u8).take(72));
    codec.fill(&bytes).unwrap();
    match codec.recv_rtmp_message() {
        Err(ChunkError::InvalidExTimestamp) => {}
        other => panic!("unexpected {:?}", other),
    }
}

#[test]
fn an_extended_timestamp_of_zero_is_held_to_as_well() {
    let mut codec = ChunkCodec::new(Transport::new());
    let mut bytes = vec![0x06, 0xff, 0xff, 0xff, 0, 0, 200, 9, 1, 0, 0, 0, 0, 0, 0, 0];
    bytes.extend(std::iter::repeat(1u8).take(128));
    bytes.extend_from_slice(&[0xc6, 0, 0, 0, 9]);
    bytes.extend(std::iter::repeat(2u8).take(72));
    codec.fill(&bytes).unwrap();
    match codec.recv_rtmp_message() {
        Err(ChunkError::InvalidExTimestamp) => {}
        other => panic!("unexpected {:?}", other),
    }
}

#[test]
fn an_extended_timestamp_is_cut_to_31_bits() {
    let mut codec = ChunkCodec::new(Transport::new());
    codec.fill(&[0x06, 0xff, 0xff, 0xff, 0, 0, 2, 9, 1, 0, 0, 0, 0x80, 0, 0, 5, 0x27, 1]).unwrap();
    match codec.recv_rtmp_message().unwrap() {
        Some(Decoded::Message(RtmpMessage::VideoData { timestamp, stream_id, payload })) => {
            assert_eq!(timestamp, 5);
            assert_eq!(stream_id, 1);
            assert_eq!(&payload[..], &[0x27, 1]);
        }
        other => panic!("unexpected {:?}", other),
    }
}

#[test]
fn timestamps_follow_the_deltas() {
    let mut codec = ChunkCodec::new(Transport::new());
    let mut bytes = vec![0x07, 0, 0, 100, 0, 0, 1, 8, 1, 0, 0, 0, 0xaa];
    bytes.extend_from_slice(&[0x47, 0, 0, 20, 0, 0, 2, 8, 0xab, 0xac]);
    bytes.extend_from_slice(&[0x87, 0, 0, 30, 0xad, 0xae]);
    bytes.extend_from_slice(&[0xc7, 0xaf, 0xb0]);
    codec.fill(&bytes).unwrap();
    let mut seen = Vec::new();
    while let Some(d) = codec.recv_rtmp_message().unwrap() {
        match d {
            Decoded::Message(RtmpMessage::AudioData { timestamp, payload, stream_id }) => {
                assert_eq!(stream_id, 1);
                seen.push((timestamp, payload.to_vec()));
            }
            other => panic!("unexpected {:?}", other),
        }
    }
    assert_eq!(
        seen,
        vec![
            (100, vec![0xaa]),
            (120, vec![0xab, 0xac]),
            (150, vec![0xad, 0xae]),
            (180, vec![0xaf, 0xb0]),
        ]
    );
}

#[test]
fn interleaved_chunk_streams_are_told_apart() {
    let mut sender = ChunkCodec::new(Transport::new());
    let a = sender.send_rtmp_message(video(10, 1, 200)).unwrap();
    let audio = RtmpPayload {
        message_type: 8,
        csid: 1,
        timestamp: 11,
        raw_data: Bytes::from(vec![0xaf, 1, 2, 3]),
    };
    let b = sender.send_rtmp_message(audio).unwrap();
    let mut bytes = Vec::new();
    bytes.extend_from_slice(&a[..12 + 128]);
    bytes.extend_from_slice(&b);
    bytes.extend_from_slice(&a[12 + 128..]);
    let mut receiver = ChunkCodec::new(Transport::new());
    let got = feed_and_receive(&mut receiver, &bytes);
    assert_eq!(got.len(), 2);
    assert!(matches!(&got[0], Decoded::Message(RtmpMessage::AudioData { timestamp: 11, .. })));
    match &got[1] {
        Decoded::Message(RtmpMessage::VideoData { timestamp: 10, payload, .. }) => {
            assert_eq!(payload.len(), 200)
        }
        other => panic!("unexpected {:?}", other),
    }
}

#[test]
fn a_chunk_is_read_only_when_all_of_it_has_arrived() {
    let mut sender = ChunkCodec::new(Transport::new());
    let bytes = sender.send_rtmp_message(video(10, 1, 100)).unwrap();
    let mut receiver = ChunkCodec::new(Transport::new());
    let mut i = 0;
    while i + 1 < bytes.len() {
        receiver.fill(&bytes[i..i + 1]).unwrap();
        assert!(receiver.recv_rtmp_message().unwrap().is_none());
        assert_eq!(receiver.get_recv_bytes(), 0);
        i += 1;
    }
    receiver.fill(&bytes[i..]).unwrap();
    match receiver.recv_rtmp_message().unwrap() {
        Some(Decoded::Message(RtmpMessage::VideoData { payload, .. })) => {
            assert_eq!(payload.len(), 100)
        }
        other => panic!("unexpected {:?}", other),
    }
    assert_eq!(receiver.get_recv_bytes(), bytes.len() as u64);
}

#[test]
fn a_short_control_body_fails_to_decode() {
    let mut codec = ChunkCodec::new(Transport::new());
    codec.fill(&[0x02, 0, 0, 0, 0, 0, 2, 1, 0, 0, 0, 0, 0, 1]).unwrap();
    match codec.recv_rtmp_message() {
        Err(ChunkError::DecodeMessageFailed(_)) => {}
        other => panic!("unexpected {:?}", other),
    }
}

#[test]
fn more_than_the_buffer_holds_is_refused() {
    let mut codec = ChunkCodec::new(Transport::new());
    let big = vec![0u8; 131072];
    codec.fill(&big[..131071]).unwrap();
    assert!(matches!(codec.fill(&big[..2]), Err(ChunkError::TransportIO(_))));
    codec.fill(&big[..1]).unwrap();
}

#[test]
fn a_message_reassembles_wherever_its_bytes_are_split() {
    let mut sender = ChunkCodec::new(Transport::new());
    let sent = video(0x0100_0000, 1, 300);
    let expected = sent.raw_data.clone();
    let bytes = sender.send_rtmp_message(sent).unwrap();
    assert_eq!(bytes.len(), 300 + 16 + 2 * 5);
    let mut k = 1;
    while k < bytes.len() {
        let mut receiver = ChunkCodec::new(Transport::new());
        receiver.fill(&bytes[..k]).unwrap();
        assert!(receiver.recv_rtmp_message().unwrap().is_none(), "split at {}", k);
        assert!(receiver.get_recv_bytes() <= k as u64);
        assert!(receiver.room() > 131072 - 18 - 128, "split at {}", k);
        receiver.fill(&bytes[k..]).unwrap();
        match receiver.recv_rtmp_message().unwrap() {
            Some(Decoded::Message(RtmpMessage::VideoData { timestamp, payload, .. })) => {
                assert_eq!(timestamp, 0x0100_0000);
                assert!(payload == expected, "split at {}", k);
            }
            other => panic!("unexpected {:?} at {}", other, k),
        }
        assert_eq!(receiver.get_recv_bytes(), bytes.len() as u64);
        assert!(receiver.recv_rtmp_message().unwrap().is_none());
        k += 1;
    }
}

#[test]
fn a_chunk_that_breaks_a_rule_is_left_unread() {
    let mut codec = ChunkCodec::new(Transport::new());
    let mut bytes = vec![0x06, 0, 0, 0, 0, 0, 200, 9, 1, 0, 0, 0];
    bytes.extend(std::iter::repeat(1u8).take(128));
    bytes.extend_from_slice(&[0x06, 0, 0, 0, 0, 0, 200, 9, 1, 0, 0, 0]);
    codec.fill(&bytes).unwrap();
    match codec.recv_rtmp_message() {
        Err(ChunkError::InvalidFmtRule2(0, 6)) => {}
        other => panic!("unexpected {:?}", other),
    }
    assert_eq!(codec.get_recv_bytes(), 140);
    assert_eq!(codec.room(), 131072 - 12);
    match codec.recv_rtmp_message() {
        Err(ChunkError::InvalidFmtRule2(0, 6)) => {}
        other => panic!("unexpected {:?}", other),
    }
    assert_eq!(codec.get_recv_bytes(), 140);
}
