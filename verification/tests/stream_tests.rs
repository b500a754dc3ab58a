use bytes::Bytes;
use msir::amf::Amf0Value;
use msir::message::RtmpMessage;
use msir::stream::error::StreamError;
use msir::stream::gop::GopCache;
use msir::stream::hub::{Hub, HubEvent};
use msir::stream::{Action, Manager, RegisterEv, RoleType, StreamEvent, Token, UnregisterEv};

fn video(timestamp: u32, head: [u8; 2]) -> RtmpMessage {
    RtmpMessage::VideoData { stream_id: 1, timestamp, payload: Bytes::from(vec![head[0], head[1], 9]) }
}

fn audio(timestamp: u32, head: [u8; 2]) -> RtmpMessage {
    RtmpMessage::AudioData { stream_id: 1, timestamp, payload: Bytes::from(vec![head[0], head[1], 9]) }
}

fn metadata() -> RtmpMessage {
    RtmpMessage::Amf0Data {
        command_name: "onMetaData".to_string(),
        values: vec![Amf0Value::object(vec![
            ("width", Amf0Value::Number(1920.0f64.to_bits())),
            ("height", Amf0Value::Number(1080.0f64.to_bits())),
        ])],
    }
}

fn register(uid: &str, key: &str, role: RoleType) -> RegisterEv {
    RegisterEv { uid: uid.to_string(), role, stream_key: key.to_string() }
}

fn unregister(uid: &str, key: &str, role: RoleType) -> UnregisterEv {
    UnregisterEv { uid: uid.to_string(), role, stream_key: key.to_string() }
}

fn kind(msg: &RtmpMessage) -> (char, u32, u8) {
    match msg {
        RtmpMessage::VideoData { timestamp, payload, .. } => ('v', *timestamp, payload[1]),
        RtmpMessage::AudioData { timestamp, payload, .. } => ('a', *timestamp, payload[1]),
        RtmpMessage::Amf0Data { .. } => ('m', 0, 0),
        other => panic!("unexpected {:?}", other),
    }
}

#[test]
fn publish_then_a_subscriber_without_traffic() {
    let mut broker = Manager::new("rtmp://127.0.0.1".to_string());
    let reply = broker.register(register("pub", "/live/s", RoleType::Publisher));
    assert!(reply.pull.is_none() && reply.join.is_none());
    let mut hub = match reply.token {
        Token::PublisherToken(hub) => hub,
        other => panic!("unexpected {:?}", other),
    };
    assert_eq!(broker.publisher("/live/s").map(|s| s.as_str()), Some("pub"));

    let reply = broker.register(register("sub", "/live/s", RoleType::Subscriber));
    assert!(matches!(reply.token, Token::SubscriberToken));
    assert!(reply.pull.is_none());
    let join = reply.join.unwrap();
    assert!(matches!(&join, HubEvent::SubscriberJoin(uid) if uid == "sub"));
    let answer = hub.process_hub_ev(Some(join)).unwrap();
    let (who, primer) = answer.primer.unwrap();
    assert_eq!(who, "sub");
    assert!(primer.is_empty());
    assert_eq!(answer.subscribers, 1);
    assert_eq!(hub.subscribers(), &vec!["sub".to_string()]);

    match broker.unregister(unregister("pub", "/live/s", RoleType::Publisher)) {
        Action::Close(key) => assert_eq!(key, "/live/s"),
        other => panic!("unexpected {:?}", other),
    }
    assert!(broker.publisher("/live/s").is_none());
    assert_eq!(hub.process_hub_ev(None).unwrap_err(), StreamError::HubClosed);
}

#[test]
fn a_subscriber_is_primed_with_metadata_headers_and_gop() {
    let mut hub = Hub::new();
    hub.on_metadata(metadata()).unwrap();
    hub.on_frame(video(0, [0x17, 0x00])).unwrap();
    hub.on_frame(audio(0, [0xaf, 0x00])).unwrap();
    hub.on_frame(video(0, [0x17, 0x01])).unwrap();
    hub.on_frame(audio(20, [0xaf, 0x01])).unwrap();
    hub.on_frame(video(40, [0x27, 0x01])).unwrap();
    let answer = hub.process_hub_ev(Some(HubEvent::SubscriberJoin("sub".to_string()))).unwrap();
    let (_, primer) = answer.primer.unwrap();
    let kinds: Vec<(char, u32, u8)> = primer.iter().map(kind).collect();
    assert_eq!(
        kinds,
        vec![('m', 0, 0), ('a', 0, 0), ('v', 0, 0), ('v', 0, 1), ('a', 20, 1), ('v', 40, 1)]
    );
    assert!(primer[0].is_metadata());
    assert!(primer[3].is_key_frame());
    assert_eq!(hub.gop().caches().len(), 3);
    assert_eq!(hub.gop().duration(), 40);
}

#[test]
fn a_primer_leaves_out_what_the_hub_does_not_have() {
    let mut hub = Hub::new();
    hub.on_frame(video(0, [0x17, 0x00])).unwrap();
    hub.on_frame(video(5, [0x17, 0x02])).unwrap();
    let answer = hub.process_hub_ev(Some(HubEvent::SubscriberJoin("a".to_string()))).unwrap();
    let kinds: Vec<(char, u32, u8)> = answer.primer.unwrap().1.iter().map(kind).collect();
    assert_eq!(kinds, vec![('v', 0, 0), ('v', 5, 2)]);
    let mut other = Hub::new();
    other.on_frame(audio(0, [0xaf, 0x00])).unwrap();
    let answer = other.process_hub_ev(Some(HubEvent::SubscriberJoin("a".to_string()))).unwrap();
    let kinds: Vec<(char, u32, u8)> = answer.primer.unwrap().1.iter().map(kind).collect();
    assert_eq!(kinds, vec![('a', 0, 0)]);
}

#[test]
fn a_second_publisher_is_refused() {
    let mut broker = Manager::new("rtmp://127.0.0.1".to_string());
    let first = broker.register(register("one", "/live/s", RoleType::Publisher));
    assert!(matches!(first.token, Token::PublisherToken(_)));
    let second = broker.register(register("two", "/live/s", RoleType::Publisher));
    assert!(matches!(second.token, Token::Failure(StreamError::DuplicatePublish)));
    assert!(second.pull.is_none() && second.join.is_none());
    assert_eq!(broker.publisher("/live/s").map(|s| s.as_str()), Some("one"));
    let elsewhere = broker.register(register("two", "/live/t", RoleType::Publisher));
    assert!(matches!(elsewhere.token, Token::PublisherToken(_)));
    assert_eq!(broker.publisher("/live/t").map(|s| s.as_str()), Some("two"));
    assert_eq!(broker.publisher("/live/s").map(|s| s.as_str()), Some("one"));
    assert_eq!(StreamError::DuplicatePublish.message(), "Stream has been published");
}

#[test]
fn a_subscriber_without_publisher_starts_an_origin_pull() {
    let mut broker = Manager::new("rtmp://127.0.0.1".to_string());
    let reply = broker.register_with(
        register("sub", "/live/s", RoleType::Subscriber),
        "puller".to_string(),
    );
    assert!(matches!(reply.token, Token::SubscriberToken));
    let task = reply.pull.unwrap();
    assert_eq!(task.uid, "puller");
    assert_eq!(task.tc_url, "rtmp://127.0.0.1/live");
    assert_eq!(task.stream, "s");
    assert_eq!(task.stream_key, "/live/s");
    assert!(task.hub.subscribers().is_empty());
    assert!(matches!(reply.join, Some(HubEvent::SubscriberJoin(uid)) if uid == "sub"));
    assert_eq!(broker.publisher("/live/s").map(|s| s.as_str()), Some("puller"));

    let second = broker.register(register("sub2", "/live/s", RoleType::Subscriber));
    assert!(second.pull.is_none());
    assert!(matches!(second.join, Some(HubEvent::SubscriberJoin(uid)) if uid == "sub2"));
    let late = broker.register(register("pub", "/live/s", RoleType::Publisher));
    assert!(matches!(late.token, Token::Failure(StreamError::DuplicatePublish)));

    let mut hub = task.hub;
    hub.process_hub_ev(Some(HubEvent::SubscriberJoin("sub".to_string()))).unwrap();
    let batch = hub.on_frame(video(0, [0x17, 0x01])).unwrap().unwrap();
    assert_eq!(batch.len(), 1);
    match broker.unregister(unregister("puller", "/live/s", RoleType::Publisher)) {
        Action::Close(key) => assert_eq!(key, "/live/s"),
        other => panic!("unexpected {:?}", other),
    }
    assert!(broker.publisher("/live/s").is_none());
}

#[test]
fn an_origin_pull_gets_a_fresh_identity() {
    let mut broker = Manager::new("rtmp://up".to_string());
    let reply = broker.register(register("sub", "/app/name/more", RoleType::Subscriber));
    let task = reply.pull.unwrap();
    assert!(!task.uid.is_empty());
    assert_ne!(task.uid, "sub");
    assert_eq!(task.tc_url, "rtmp://up/app");
    assert_eq!(task.stream, "name");
    assert_eq!(broker.publisher("/app/name/more"), Some(&task.uid));
}

#[test]
fn a_key_that_names_no_stream_cannot_be_pulled() {
    let mut broker = Manager::new("rtmp://127.0.0.1".to_string());
    for key in ["", "live", "/live", "live/s"] {
        let reply = broker.register(register("sub", key, RoleType::Subscriber));
        assert!(matches!(reply.token, Token::Failure(StreamError::NoPublish)), "{}", key);
        assert!(reply.pull.is_none() && reply.join.is_none());
        assert!(broker.publisher(key).is_none());
    }
}

#[test]
fn unregistering() {
    let mut broker = Manager::new("rtmp://127.0.0.1".to_string());
    assert!(matches!(
        broker.unregister(unregister("x", "/live/s", RoleType::Subscriber)),
        Action::Ignore
    ));
    assert!(matches!(
        broker.unregister(unregister("x", "/live/s", RoleType::Publisher)),
        Action::Ignore
    ));
    broker.register(register("pub", "/live/s", RoleType::Publisher));
    match broker.run(StreamEvent::Unregister(unregister("sub", "/live/s", RoleType::Subscriber))) {
        Action::Forward(key, HubEvent::SubscriberLeave(uid)) => {
            assert_eq!(key, "/live/s");
            assert_eq!(uid, "sub");
        }
        other => panic!("unexpected {:?}", other),
    }
    assert!(broker.publisher("/live/s").is_some());
    match broker.run(StreamEvent::Register(register("pub2", "/live/s", RoleType::Publisher))) {
        Action::Reply(r) => assert!(matches!(r.token, Token::Failure(StreamError::DuplicatePublish))),
        other => panic!("unexpected {:?}", other),
    }
    assert!(matches!(
        broker.run(StreamEvent::Unregister(unregister("pub", "/live/s", RoleType::Publisher))),
        Action::Close(_)
    ));
    match broker.run(StreamEvent::Register(register("pub2", "/live/s", RoleType::Publisher))) {
        Action::Reply(r) => assert!(matches!(r.token, Token::PublisherToken(_))),
        other => panic!("unexpected {:?}", other),
    }
}

#[test]
fn subscribers_join_once_and_leave() {
    let mut hub = Hub::new();
    let a = hub.process_hub_ev(Some(HubEvent::SubscriberJoin("a".to_string()))).unwrap();
    assert_eq!(a.subscribers, 1);
    let b = hub.process_hub_ev(Some(HubEvent::SubscriberJoin("b".to_string()))).unwrap();
    assert_eq!(b.subscribers, 2);
    let again = hub.process_hub_ev(Some(HubEvent::SubscriberJoin("a".to_string()))).unwrap();
    assert_eq!(again.subscribers, 2);
    assert!(again.primer.is_some());
    let gone = hub.process_hub_ev(Some(HubEvent::SubscriberLeave("a".to_string()))).unwrap();
    assert!(gone.primer.is_none());
    assert_eq!(gone.subscribers, 1);
    assert_eq!(hub.subscribers(), &vec!["b".to_string()]);
    let nobody = hub.process_hub_ev(Some(HubEvent::SubscriberLeave("zz".to_string()))).unwrap();
    assert_eq!(nobody.subscribers, 1);
}

#[test]
fn metadata_goes_out_at_once() {
    let mut hub = Hub::new();
    let batch = hub.on_metadata(metadata()).unwrap();
    assert_eq!(batch.len(), 1);
    assert!(batch[0].is_metadata());
}

#[test]
fn frames_go_out_in_batches() {
    let mut hub = Hub::new();
    let first = hub.on_frame(audio(0, [0xaf, 0x01])).unwrap().unwrap();
    assert_eq!(first.len(), 1);
    assert!(hub.on_frame(audio(20, [0xaf, 0x01])).unwrap().is_none());
    assert!(hub.on_frame(video(40, [0x27, 0x01])).unwrap().is_none());
    assert!(hub.on_frame(audio(169, [0xaf, 0x01])).unwrap().is_none());
    let batch = hub.on_frame(audio(170, [0xaf, 0x01])).unwrap().unwrap();
    assert_eq!(batch.iter().map(kind).collect::<Vec<_>>(), vec![
        ('a', 20, 1),
        ('v', 40, 1),
        ('a', 169, 1),
        ('a', 170, 1)
    ]);
    assert!(hub.on_frame(video(339, [0x27, 0x01])).unwrap().is_none());
    let key = hub.on_frame(video(200, [0x17, 0x01])).unwrap().unwrap();
    assert_eq!(key.len(), 2);
    assert!(hub.on_frame(audio(210, [0xaf, 0x01])).unwrap().is_none());
    let back = hub.on_frame(audio(199, [0xaf, 0x01])).unwrap().unwrap();
    assert_eq!(back.len(), 2);
    assert!(hub.on_frame(audio(368, [0xaf, 0x01])).unwrap().is_none());
    let past = hub.on_frame(audio(369, [0xaf, 0x01])).unwrap().unwrap();
    assert_eq!(past.len(), 2);
}

#[test]
fn sequence_headers_do_not_enter_the_gop() {
    let mut hub = Hub::new();
    hub.on_frame(video(0, [0x17, 0x01])).unwrap();
    hub.on_frame(video(10, [0x17, 0x00])).unwrap();
    hub.on_frame(audio(10, [0xaf, 0x00])).unwrap();
    hub.on_frame(audio(20, [0xaf, 0x01])).unwrap();
    let kinds: Vec<(char, u32, u8)> = hub.gop().caches().iter().map(kind).collect();
    assert_eq!(kinds, vec![('v', 0, 1), ('a', 20, 1)]);
}

#[test]
fn the_gop_starts_at_a_keyframe() {
    let mut gop = GopCache::new();
    gop.cache(audio(1, [0xaf, 0x01]));
    gop.cache(video(2, [0x27, 0x01]));
    gop.cache(RtmpMessage::Acknowledgement { sequence_number: 1 });
    assert!(gop.caches().is_empty());
    assert_eq!(gop.duration(), 0);
    gop.cache(video(100, [0x17, 0x01]));
    gop.cache(audio(110, [0xaf, 0x01]));
    gop.cache(video(120, [0x27, 0x01]));
    assert_eq!(gop.caches().len(), 3);
    assert_eq!(gop.duration(), 20);
    gop.cache(RtmpMessage::Acknowledgement { sequence_number: 1 });
    assert_eq!(gop.caches().len(), 3);
    gop.cache(video(200, [0x17, 0x01]));
    assert_eq!(gop.caches().len(), 1);
    assert_eq!(gop.caches()[0].timestamp(), Some(200));
    assert_eq!(gop.duration(), 0);
    gop.cache(video(150, [0x27, 0x01]));
    assert_eq!(gop.duration(), 0);
}

#[test]
fn the_gop_is_given_up_after_2048_frames() {
    let mut gop = GopCache::new();
    gop.cache(video(0, [0x17, 0x01]));
    let mut i: u32 = 1;
    while i < 2048 {
        gop.cache(video(i, [0x27, 0x01]));
        assert!(gop.caches().len() <= 2048);
        i += 1;
    }
    assert_eq!(gop.caches().len(), 2048);
    gop.cache(video(3000, [0x27, 0x01]));
    assert!(gop.caches().is_empty());
    gop.cache(video(3001, [0x27, 0x01]));
    gop.cache(audio(3002, [0xaf, 0x01]));
    assert!(gop.caches().is_empty());
    gop.cache(video(3003, [0x17, 0x01]));
    gop.cache(video(3004, [0x27, 0x01]));
    assert_eq!(gop.caches().len(), 2);
}

#[test]
fn the_gop_is_given_up_after_100_audio_frames_in_a_row() {
    let mut gop = GopCache::new();
    gop.cache(video(0, [0x17, 0x01]));
    let mut i: u32 = 1;
    while i <= 100 {
        gop.cache(audio(i, [0xaf, 0x01]));
        i += 1;
    }
    assert_eq!(gop.caches().len(), 101);
    gop.cache(audio(101, [0xaf, 0x01]));
    assert!(gop.caches().is_empty());

    let mut gop = GopCache::new();
    gop.cache(video(0, [0x17, 0x01]));
    let mut i: u32 = 1;
    while i <= 300 {
        gop.cache(audio(i, [0xaf, 0x01]));
        if i % 100 == 0 {
            gop.cache(video(i, [0x27, 0x01]));
        }
        i += 1;
    }
    assert_eq!(gop.caches().len(), 304);
}

#[test]
fn a_join_sends_the_waiting_frames_to_the_earlier_subscribers_only() {
    let mut hub = Hub::new();
    hub.process_hub_ev(Some(HubEvent::SubscriberJoin("a".to_string()))).unwrap();
    let first = hub.on_frame(video(1000, [0x17, 0x01])).unwrap().unwrap();
    assert_eq!(first.len(), 1);
    assert!(hub.on_frame(video(1040, [0x27, 0x01])).unwrap().is_none());
    assert!(hub.on_frame(audio(1050, [0xaf, 0x01])).unwrap().is_none());

    let joined = hub.process_hub_ev(Some(HubEvent::SubscriberJoin("b".to_string()))).unwrap();
    let (who, primer) = joined.primer.unwrap();
    assert_eq!(who, "b");
    let primed: Vec<Option<u32>> = primer.iter().map(|m| m.timestamp()).collect();
    assert_eq!(primed, vec![Some(1000), Some(1040), Some(1050)]);
    let (earlier, waiting) = joined.pending.unwrap();
    assert_eq!(earlier, vec!["a".to_string()]);
    let waited: Vec<Option<u32>> = waiting.iter().map(|m| m.timestamp()).collect();
    assert_eq!(waited, vec![Some(1040), Some(1050)]);
    assert_eq!(joined.subscribers, 2);

    assert!(hub.on_frame(video(1080, [0x27, 0x01])).unwrap().is_none());
    let live = hub.on_frame(video(1170, [0x27, 0x01])).unwrap().unwrap();
    let sent: Vec<Option<u32>> = live.iter().map(|m| m.timestamp()).collect();
    assert_eq!(sent, vec![Some(1080), Some(1170)]);

    let next = hub.process_hub_ev(Some(HubEvent::SubscriberJoin("c".to_string()))).unwrap();
    assert!(next.pending.is_none());
    let gone = hub.process_hub_ev(Some(HubEvent::SubscriberLeave("a".to_string()))).unwrap();
    assert!(gone.pending.is_none());
}
