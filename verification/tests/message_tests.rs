use bytes::Bytes;
use msir::amf::Amf0Value;
use msir::message::error::MessageDecodeError;
use msir::message::{
    clone_messages, decode, decode_amf, encode, same_text, AmfKind, Decoded, Encoded, RtmpMessage,
    RtmpPayload,
};

fn payload(message_type: u8, csid: u32, timestamp: u32, data: Vec<u8>) -> RtmpPayload {
    RtmpPayload { message_type, csid, timestamp, raw_data: Bytes::from(data) }
}

fn encoded_payload(msg: RtmpMessage, timestamp: u32, csid: u32) -> RtmpPayload {
    match encode(msg, timestamp, csid).unwrap() {
        Encoded::Payload(p) => p,
        other => panic!("unexpected {:?}", other),
    }
}

fn decoded_message(p: RtmpPayload) -> RtmpMessage {
    match decode(p).unwrap() {
        Decoded::Message(m) => m,
        other => panic!("unexpected {:?}", other),
    }
}

#[test]
fn set_chunk_size_encodes_as_one_big_endian_number() {
    let p = encoded_payload(RtmpMessage::SetChunkSize { chunk_size: 60000 }, 5, 9);
    assert_eq!(p.message_type, 1);
    assert_eq!(p.csid, 9);
    assert_eq!(p.timestamp, 5);
    assert_eq!(&p.raw_data[..], &[0x00, 0x00, 0xea, 0x60]);
    assert!(matches!(decoded_message(p), RtmpMessage::SetChunkSize { chunk_size: 60000 }));
}

#[test]
fn one_number_messages_round_trip() {
    let p = encoded_payload(RtmpMessage::Abort { stream_id: 0x01020304 }, 0, 0);
    assert_eq!(p.message_type, 2);
    assert_eq!(&p.raw_data[..], &[1, 2, 3, 4]);
    assert!(matches!(decoded_message(p), RtmpMessage::Abort { stream_id: 0x01020304 }));
    let p = encoded_payload(RtmpMessage::Acknowledgement { sequence_number: 0xfffffffe }, 0, 0);
    assert_eq!(p.message_type, 3);
    assert!(matches!(
        decoded_message(p),
        RtmpMessage::Acknowledgement { sequence_number: 0xfffffffe }
    ));
    let p = encoded_payload(RtmpMessage::SetWindowAckSize { ack_window_size: 2500000 }, 0, 0);
    assert_eq!(p.message_type, 5);
    assert_eq!(&p.raw_data[..], &[0x00, 0x26, 0x25, 0xa0]);
    assert!(matches!(
        decoded_message(p),
        RtmpMessage::SetWindowAckSize { ack_window_size: 2500000 }
    ));
}

#[test]
fn set_peer_bandwidth_round_trips() {
    let p = encoded_payload(RtmpMessage::SetPeerBandwidth { size: 2500000, limit_type: 2 }, 0, 0);
    assert_eq!(p.message_type, 6);
    assert_eq!(&p.raw_data[..], &[0x00, 0x26, 0x25, 0xa0, 0x02]);
    assert!(matches!(
        decoded_message(p),
        RtmpMessage::SetPeerBandwidth { size: 2500000, limit_type: 2 }
    ));
}

#[test]
fn user_control_holds_its_extra_number_only_for_set_buffer_length() {
    let p = encoded_payload(
        RtmpMessage::UserControl { event_type: 3, event_data: 1, extra_data: 1000 },
        0,
        0,
    );
    assert_eq!(p.message_type, 4);
    assert_eq!(&p.raw_data[..], &[0, 3, 0, 0, 0, 1, 0, 0, 0x03, 0xe8]);
    assert!(matches!(
        decoded_message(p),
        RtmpMessage::UserControl { event_type: 3, event_data: 1, extra_data: 1000 }
    ));
    let p = encoded_payload(
        RtmpMessage::UserControl { event_type: 6, event_data: 0x0a0b0c0d, extra_data: 77 },
        0,
        0,
    );
    assert_eq!(&p.raw_data[..], &[0, 6, 0x0a, 0x0b, 0x0c, 0x0d]);
    assert!(matches!(
        decoded_message(p),
        RtmpMessage::UserControl { event_type: 6, event_data: 0x0a0b0c0d, extra_data: 0 }
    ));
}

#[test]
fn audio_and_video_keep_their_own_timestamp_and_stream() {
    let msg = RtmpMessage::AudioData {
        stream_id: 1,
        timestamp: 20,
        payload: Bytes::from(vec![0xaf, 0x01, 9]),
    };
    let p = encoded_payload(msg, 999, 888);
    assert_eq!((p.message_type, p.csid, p.timestamp), (8, 1, 20));
    match decoded_message(p) {
        RtmpMessage::AudioData { stream_id, timestamp, payload } => {
            assert_eq!((stream_id, timestamp), (1, 20));
            assert_eq!(&payload[..], &[0xaf, 0x01, 9]);
        }
        other => panic!("unexpected {:?}", other),
    }
    let msg = RtmpMessage::VideoData {
        stream_id: 7,
        timestamp: 40,
        payload: Bytes::from(vec![0x27, 1, 2, 3]),
    };
    let p = encoded_payload(msg, 0, 0);
    assert_eq!((p.message_type, p.csid, p.timestamp), (9, 7, 40));
    match decoded_message(p) {
        RtmpMessage::VideoData { stream_id, timestamp, payload } => {
            assert_eq!((stream_id, timestamp), (7, 40));
            assert_eq!(&payload[..], &[0x27, 1, 2, 3]);
        }
        other => panic!("unexpected {:?}", other),
    }
}

#[test]
fn unknown_types_are_kept_whole() {
    for t in [0u8, 7, 16, 19, 22, 200] {
        match decoded_message(payload(t, 3, 4, vec![1, 2, 3])) {
            RtmpMessage::Unknown { type_id, data } => {
                assert_eq!(type_id, t);
                assert_eq!(&data[..], &[1, 2, 3]);
            }
            other => panic!("unexpected {:?}", other),
        }
    }
    let p = encoded_payload(RtmpMessage::Unknown { type_id: 22, data: Bytes::from(vec![5]) }, 1, 2);
    assert_eq!((p.message_type, p.csid, p.timestamp), (22, 2, 1));
    assert_eq!(&p.raw_data[..], &[5]);
}

#[test]
fn short_bodies_fail_with_io() {
    let cases: Vec<(u8, Vec<u8>)> = vec![
        (1, vec![0, 0, 1]),
        (2, vec![]),
        (3, vec![1, 2, 3]),
        (5, vec![9]),
        (4, vec![0, 1, 0, 0, 0]),
        (4, vec![0, 3, 0, 0, 0, 1, 0, 0, 0]),
        (6, vec![0, 0, 0, 1]),
        (15, vec![]),
        (17, vec![]),
    ];
    for (t, data) in cases {
        match decode(payload(t, 0, 0, data)) {
            Err(MessageDecodeError::Io) => {}
            other => panic!("type {}: unexpected {:?}", t, other),
        }
    }
}

#[test]
fn amf_bodies_are_handed_out_with_the_amf3_byte_skipped() {
    match decode(payload(20, 0, 0, vec![2, 0, 1, 97])).unwrap() {
        Decoded::Amf { kind, body } => {
            assert_eq!(kind, AmfKind::Command);
            assert_eq!(&body[..], &[2, 0, 1, 97]);
        }
        other => panic!("unexpected {:?}", other),
    }
    match decode(payload(18, 0, 0, vec![5])).unwrap() {
        Decoded::Amf { kind, body } => {
            assert_eq!(kind, AmfKind::Data);
            assert_eq!(&body[..], &[5]);
        }
        other => panic!("unexpected {:?}", other),
    }
    match decode(payload(17, 0, 0, vec![0, 2, 0, 1, 97])).unwrap() {
        Decoded::Amf { kind, body } => {
            assert_eq!(kind, AmfKind::Command);
            assert_eq!(&body[..], &[2, 0, 1, 97]);
        }
        other => panic!("unexpected {:?}", other),
    }
    match decode(payload(15, 0, 0, vec![0, 5, 6])).unwrap() {
        Decoded::Amf { kind, body } => {
            assert_eq!(kind, AmfKind::Data);
            assert_eq!(&body[..], &[5, 6]);
        }
        other => panic!("unexpected {:?}", other),
    }
}

#[test]
fn command_values_make_a_command() {
    let values = vec![
        Amf0Value::Utf8String("pause".to_string()),
        Amf0Value::Number(4.0f64.to_bits()),
        Amf0Value::Null,
        Amf0Value::Boolean(true),
        Amf0Value::Number(1234.0f64.to_bits()),
    ];
    match decode_amf(AmfKind::Command, values).unwrap() {
        RtmpMessage::Amf0Command {
            command_name,
            transaction_id,
            command_object,
            additional_arguments,
        } => {
            assert_eq!(command_name, "pause");
            assert_eq!(f64::from_bits(transaction_id), 4.0);
            assert!(matches!(command_object, Amf0Value::Null));
            assert_eq!(additional_arguments.len(), 2);
            assert!(matches!(additional_arguments[0], Amf0Value::Boolean(true)));
            assert!(matches!(additional_arguments[1], Amf0Value::Number(n) if f64::from_bits(n) == 1234.0));
        }
        other => panic!("unexpected {:?}", other),
    }
}

fn invalid_field(kind: AmfKind, values: Vec<Amf0Value>) -> String {
    match decode_amf(kind, values) {
        Err(MessageDecodeError::InvalidFormat(field)) => field,
        other => panic!("unexpected {:?}", other),
    }
}

#[test]
fn command_values_with_a_wrong_lead_name_the_field() {
    assert_eq!(invalid_field(AmfKind::Command, vec![]), "command");
    assert_eq!(invalid_field(AmfKind::Command, vec![Amf0Value::Null]), "command");
    assert_eq!(
        invalid_field(AmfKind::Command, vec![Amf0Value::Utf8String("x".to_string())]),
        "transcation_id"
    );
    assert_eq!(
        invalid_field(
            AmfKind::Command,
            vec![Amf0Value::Utf8String("x".to_string()), Amf0Value::Boolean(true)]
        ),
        "transcation_id"
    );
    assert_eq!(
        invalid_field(
            AmfKind::Command,
            vec![Amf0Value::Utf8String("x".to_string()), Amf0Value::Number(0)]
        ),
        "command_obj"
    );
    assert_eq!(invalid_field(AmfKind::Data, vec![]), "command");
    assert_eq!(invalid_field(AmfKind::Data, vec![Amf0Value::Number(1)]), "command");
    assert_eq!(
        invalid_field(AmfKind::Data, vec![Amf0Value::Utf8String("@setDataFrame".to_string())]),
        "command"
    );
    assert_eq!(
        invalid_field(
            AmfKind::Data,
            vec![Amf0Value::Utf8String("@setDataFrame".to_string()), Amf0Value::Null]
        ),
        "command"
    );
}

#[test]
fn data_values_unwrap_set_data_frame() {
    let values = vec![
        Amf0Value::Utf8String("@setDataFrame".to_string()),
        Amf0Value::Utf8String("onMetaData".to_string()),
        Amf0Value::object(vec![("width", Amf0Value::Number(1920.0f64.to_bits()))]),
    ];
    match decode_amf(AmfKind::Data, values).unwrap() {
        RtmpMessage::Amf0Data { command_name, values } => {
            assert_eq!(command_name, "onMetaData");
            assert_eq!(values.len(), 1);
            assert!(matches!(values[0], Amf0Value::Object(_)));
        }
        other => panic!("unexpected {:?}", other),
    }
    let values = vec![Amf0Value::Utf8String("onMetaData".to_string()), Amf0Value::Null];
    let msg = decode_amf(AmfKind::Data, values).unwrap();
    assert!(msg.is_metadata());
    match msg {
        RtmpMessage::Amf0Data { command_name, values } => {
            assert_eq!(command_name, "onMetaData");
            assert_eq!(values.len(), 1);
        }
        other => panic!("unexpected {:?}", other),
    }
}

#[test]
fn command_encodes_to_its_values_and_back() {
    let msg = RtmpMessage::Amf0Command {
        command_name: "play".to_string(),
        transaction_id: 2.0f64.to_bits(),
        command_object: Amf0Value::Null,
        additional_arguments: vec![Amf0Value::Utf8String("s".to_string())],
    };
    match encode(msg, 11, 12).unwrap() {
        Encoded::Amf { message_type, csid, timestamp, values } => {
            assert_eq!((message_type, csid, timestamp), (20, 12, 11));
            assert_eq!(values.len(), 4);
            assert!(matches!(&values[0], Amf0Value::Utf8String(s) if s == "play"));
            assert!(matches!(values[1], Amf0Value::Number(n) if f64::from_bits(n) == 2.0));
            assert!(matches!(values[2], Amf0Value::Null));
            match decode_amf(AmfKind::Command, values).unwrap() {
                RtmpMessage::Amf0Command { command_name, additional_arguments, .. } => {
                    assert_eq!(command_name, "play");
                    assert_eq!(additional_arguments.len(), 1);
                }
                other => panic!("unexpected {:?}", other),
            }
        }
        other => panic!("unexpected {:?}", other),
    }
}

#[test]
fn an_empty_name_is_sent_as_null() {
    match encode(RtmpMessage::new_null(5.0f64.to_bits()), 0, 0).unwrap() {
        Encoded::Amf { message_type, values, .. } => {
            assert_eq!(message_type, 20);
            assert_eq!(values.len(), 3);
            assert!(matches!(values[0], Amf0Value::Null));
            assert!(matches!(values[1], Amf0Value::Number(n) if f64::from_bits(n) == 5.0));
            assert!(matches!(values[2], Amf0Value::Null));
        }
        other => panic!("unexpected {:?}", other),
    }
    let data = RtmpMessage::Amf0Data { command_name: String::new(), values: vec![Amf0Value::Boolean(true)] };
    match encode(data, 0, 0).unwrap() {
        Encoded::Amf { message_type, values, .. } => {
            assert_eq!(message_type, 18);
            assert_eq!(values.len(), 2);
            assert!(matches!(values[0], Amf0Value::Null));
        }
        other => panic!("unexpected {:?}", other),
    }
}

#[test]
fn message_queries() {
    let key = RtmpMessage::VideoData { stream_id: 1, timestamp: 9, payload: Bytes::from(vec![0x17, 1, 0]) };
    let header = RtmpMessage::VideoData { stream_id: 1, timestamp: 0, payload: Bytes::from(vec![0x17, 0]) };
    let audio = RtmpMessage::AudioData { stream_id: 1, timestamp: 20, payload: Bytes::from(vec![0xaf, 1]) };
    let ack = RtmpMessage::Acknowledgement { sequence_number: 1 };
    assert!(key.is_key_frame());
    assert!(!header.is_key_frame());
    assert!(!audio.is_key_frame());
    assert_eq!(key.timestamp(), Some(9));
    assert_eq!(audio.timestamp(), Some(20));
    assert_eq!(ack.timestamp(), None);
    assert_eq!(key.len(), Some(3));
    assert_eq!(audio.len(), Some(2));
    assert_eq!(ack.len(), None);
    assert!(!ack.is_metadata());
    let cmd = RtmpMessage::new_create_stream();
    assert!(cmd.expect_amf(&[]));
    assert!(cmd.expect_amf(&["play", "createStream"]));
    assert!(!cmd.expect_amf(&["play"]));
    assert!(!ack.expect_amf(&[]));
    assert!(same_text("a", "a"));
    assert!(!same_text("a", "b"));
    let copies = clone_messages(&vec![key, audio]);
    assert_eq!(copies.len(), 2);
    assert_eq!(copies[0].timestamp(), Some(9));
    assert_eq!(copies[1].len(), Some(2));
}

fn status_code(msg: &RtmpMessage) -> String {
    let args = match msg {
        RtmpMessage::Amf0Command { additional_arguments, .. } => additional_arguments,
        RtmpMessage::Amf0Data { values, .. } => values,
        other => panic!("unexpected {:?}", other),
    };
    match args[0].get("code") {
        Some(Amf0Value::Utf8String(s)) => s.clone(),
        other => panic!("unexpected {:?}", other),
    }
}

#[test]
fn status_messages_carry_their_codes() {
    assert_eq!(status_code(&RtmpMessage::new_on_status_play_reset()), "NetStream.Play.Reset");
    assert_eq!(status_code(&RtmpMessage::new_on_status_play_start()), "NetStream.Play.Start");
    assert_eq!(status_code(&RtmpMessage::new_on_status_pause()), "NetStream.Pause.Notify");
    assert_eq!(status_code(&RtmpMessage::new_on_status_unpause()), "NetStream.Unpause.Notify");
    assert_eq!(status_code(&RtmpMessage::new_on_status_publish_start()), "NetStream.Publish.Start");
    assert_eq!(status_code(&RtmpMessage::new_on_status_unpublish()), "NetStream.Unpublish.Success");
    assert_eq!(status_code(&RtmpMessage::new_on_status_data_start()), "NetStream.Data.Start");
    assert_eq!(status_code(&RtmpMessage::new_on_fcpublish()), "NetStream.Publish.Start");
    assert_eq!(status_code(&RtmpMessage::new_on_fcunpublish()), "NetStream.Unpublish.Success");
    assert_eq!(status_code(&RtmpMessage::new_connect_app_res(0)), "NetConnection.Connect.Success");
}

#[test]
fn connect_result_echoes_the_object_encoding() {
    match RtmpMessage::new_connect_app_res(3.0f64.to_bits()) {
        RtmpMessage::Amf0Command {
            command_name,
            transaction_id,
            command_object,
            additional_arguments,
        } => {
            assert_eq!(command_name, "_result");
            assert_eq!(f64::from_bits(transaction_id), 1.0);
            assert!(matches!(command_object.get("fmsVer"), Some(Amf0Value::Utf8String(s)) if s == "FMS/3,5,3,888"));
            assert!(matches!(command_object.get("capabilities"), Some(Amf0Value::Number(n)) if f64::from_bits(*n) == 127.0));
            assert!(matches!(command_object.get("mode"), Some(Amf0Value::Number(n)) if f64::from_bits(*n) == 1.0));
            assert_eq!(additional_arguments.len(), 1);
            let status = &additional_arguments[0];
            assert!(matches!(status.get("level"), Some(Amf0Value::Utf8String(s)) if s == "status"));
            assert!(matches!(status.get("objectEncoding"), Some(Amf0Value::Number(n)) if f64::from_bits(*n) == 3.0));
            assert!(matches!(status.get("data"), Some(Amf0Value::Object(_))));
        }
        other => panic!("unexpected {:?}", other),
    }
}

#[test]
fn simple_results() {
    match RtmpMessage::new_create_stream_res(5.0f64.to_bits()) {
        RtmpMessage::Amf0Command { command_name, transaction_id, additional_arguments, .. } => {
            assert_eq!(command_name, "_result");
            assert_eq!(f64::from_bits(transaction_id), 5.0);
            assert!(matches!(additional_arguments[0], Amf0Value::Number(n) if f64::from_bits(n) == 1.0));
        }
        other => panic!("unexpected {:?}", other),
    }
    match RtmpMessage::new_release_stream_res(2.0f64.to_bits()) {
        RtmpMessage::Amf0Command { command_name, additional_arguments, .. } => {
            assert_eq!(command_name, "_result");
            assert!(matches!(additional_arguments[0], Amf0Value::Undefined));
        }
        other => panic!("unexpected {:?}", other),
    }
    match RtmpMessage::new_sample_access() {
        RtmpMessage::Amf0Data { command_name, values } => {
            assert_eq!(command_name, "|RtmpSampleAccess");
            assert_eq!(values.len(), 2);
            assert!(matches!(values[0], Amf0Value::Boolean(true)));
            assert!(matches!(values[1], Amf0Value::Boolean(true)));
        }
        other => panic!("unexpected {:?}", other),
    }
    match RtmpMessage::new_on_bw_done() {
        RtmpMessage::Amf0Command { command_name, additional_arguments, .. } => {
            assert_eq!(command_name, "onBWDone");
            assert!(additional_arguments.is_empty());
        }
        other => panic!("unexpected {:?}", other),
    }
    match RtmpMessage::new_play_stream("abc".to_string()) {
        RtmpMessage::Amf0Command { command_name, additional_arguments, .. } => {
            assert_eq!(command_name, "play");
            assert!(matches!(&additional_arguments[0], Amf0Value::Utf8String(s) if s == "abc"));
        }
        other => panic!("unexpected {:?}", other),
    }
}
