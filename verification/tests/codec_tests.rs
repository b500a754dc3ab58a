use bytes::Bytes;
use msir::codec::{is_audio_sequence_header, is_video_keyframe, is_video_sequence_header};

#[test]
fn video_sequence_header_is_17_00() {
    assert!(is_video_sequence_header(&Bytes::from(vec![0x17, 0x00, 1, 2])));
    assert!(is_video_sequence_header(&Bytes::from(vec![0x17, 0x00])));
    assert!(!is_video_sequence_header(&Bytes::from(vec![0x17, 0x01])));
    assert!(!is_video_sequence_header(&Bytes::from(vec![0x27, 0x00])));
    assert!(!is_video_sequence_header(&Bytes::from(vec![0x17])));
    assert!(!is_video_sequence_header(&Bytes::from(Vec::new())));
}

#[test]
fn audio_sequence_header_is_af_00() {
    assert!(is_audio_sequence_header(&Bytes::from(vec![0xaf, 0x00, 9])));
    assert!(!is_audio_sequence_header(&Bytes::from(vec![0xaf, 0x01])));
    assert!(!is_audio_sequence_header(&Bytes::from(vec![0x17, 0x00])));
    assert!(!is_audio_sequence_header(&Bytes::from(vec![0xaf])));
}

#[test]
fn video_keyframe_is_17_and_not_00() {
    assert!(is_video_keyframe(&Bytes::from(vec![0x17, 0x01, 5])));
    assert!(is_video_keyframe(&Bytes::from(vec![0x17, 0xff])));
    assert!(!is_video_keyframe(&Bytes::from(vec![0x17, 0x00])));
    assert!(!is_video_keyframe(&Bytes::from(vec![0x27, 0x01])));
    assert!(!is_video_keyframe(&Bytes::from(vec![0x17])));
}
