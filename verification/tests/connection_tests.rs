use bytes::Bytes;
use msir::amf::Amf0Value;
use msir::chunk::transport::Transport;
use msir::chunk::ChunkCodec;
use msir::connection::client::{Client, ClientPhase};
use msir::connection::context::{Context, Incoming, Outgoing};
use msir::connection::error::ConnectionError;
use msir::connection::server::{Phase, Server};
use msir::connection::{RtmpConnType, RtmpCtrlAction};
use msir::message::{AmfKind, Encoded, RtmpMessage};

fn number(x: f64) -> Amf0Value {
    Amf0Value::Number(x.to_bits())
}

fn text(s: &str) -> Amf0Value {
    Amf0Value::Utf8String(s.to_string())
}

fn command(name: &str, tid: f64, object: Amf0Value, args: Vec<Amf0Value>) -> RtmpMessage {
    RtmpMessage::Amf0Command {
        command_name: name.to_string(),
        transaction_id: tid.to_bits(),
        command_object: object,
        additional_arguments: args,
    }
}

fn connect(tc_url: &str) -> RtmpMessage {
    command(
        "connect",
        1.0,
        Amf0Value::object(vec![
            ("app", text("live")),
            ("tcUrl", text(tc_url)),
            ("objectEncoding", number(3.0)),
        ]),
        vec![],
    )
}

fn server() -> Server {
    Server::new(Context::new(ChunkCodec::new(Transport::new())))
}

fn connected() -> Server {
    let mut s = server();
    let step = s.identify_client(connect("rtmp://h/live")).unwrap();
    assert_eq!(step.replies.len(), 5);
    assert!(step.request.is_none());
    assert_eq!(s.phase(), Phase::AwaitRole);
    s
}

fn name_of(msg: &RtmpMessage) -> String {
    match msg {
        RtmpMessage::Amf0Command { command_name, .. } => command_name.clone(),
        RtmpMessage::Amf0Data { command_name, .. } => command_name.clone(),
        other => panic!("unexpected {:?}", other),
    }
}

fn tid_of(msg: &RtmpMessage) -> f64 {
    match msg {
        RtmpMessage::Amf0Command { transaction_id, .. } => f64::from_bits(*transaction_id),
        other => panic!("unexpected {:?}", other),
    }
}

fn code_of(msg: &RtmpMessage) -> String {
    let args = match msg {
        RtmpMessage::Amf0Command { additional_arguments, .. } => additional_arguments,
        RtmpMessage::Amf0Data { values, .. } => values,
        other => panic!("unexpected {:?}", other),
    };
    match args[0].get("code") {
        Some(Amf0Value::Utf8String(s)) => s.clone(),
        other => panic!("unexpected {:?}", other),
    }
}

#[test]
fn connect_is_answered_with_the_servers_settings() {
    let mut s = server();
    let step = s.identify_client(connect("rtmp://h/live")).unwrap();
    assert_eq!(step.replies.len(), 5);
    assert!(matches!(step.replies[0], RtmpMessage::SetWindowAckSize { ack_window_size: 2500000 }));
    assert!(matches!(
        step.replies[1],
        RtmpMessage::SetPeerBandwidth { size: 2500000, limit_type: 2 }
    ));
    assert!(matches!(step.replies[2], RtmpMessage::SetChunkSize { chunk_size: 60000 }));
    assert_eq!(name_of(&step.replies[3]), "_result");
    assert_eq!(tid_of(&step.replies[3]), 1.0);
    assert_eq!(code_of(&step.replies[3]), "NetConnection.Connect.Success");
    match &step.replies[3] {
        RtmpMessage::Amf0Command { additional_arguments, command_object, .. } => {
            assert!(matches!(
                additional_arguments[0].get("objectEncoding"),
                Some(Amf0Value::Number(n)) if f64::from_bits(*n) == 3.0
            ));
            assert!(matches!(command_object.get("fmsVer"), Some(Amf0Value::Utf8String(_))));
        }
        other => panic!("unexpected {:?}", other),
    }
    assert_eq!(name_of(&step.replies[4]), "onBWDone");
}

#[test]
fn messages_before_connect_are_passed_over() {
    let mut s = server();
    let step = s.identify_client(RtmpMessage::Acknowledgement { sequence_number: 1 }).unwrap();
    assert!(step.replies.is_empty());
    let data = RtmpMessage::Amf0Data { command_name: "connect".to_string(), values: vec![] };
    let step = s.identify_client(data).unwrap();
    assert!(step.replies.is_empty());
    assert!(step.request.is_none());
    assert_eq!(s.phase(), Phase::AwaitConnect);
}

#[test]
fn another_command_than_the_one_awaited_is_refused() {
    let mut s = server();
    assert!(matches!(
        s.identify_client(command("play", 1.0, Amf0Value::Null, vec![text("s")])),
        Err(ConnectionError::UnexpectedMessage)
    ));
    assert_eq!(s.phase(), Phase::AwaitConnect);
    let mut s = connected();
    s.identify_client(command("createStream", 2.0, Amf0Value::Null, vec![])).unwrap();
    assert!(matches!(
        s.identify_client(command("getStreamLength", 3.0, Amf0Value::Null, vec![])),
        Err(ConnectionError::UnexpectedMessage)
    ));
    assert_eq!(s.phase(), Phase::CreateStream(1));
    let mut s = connected();
    s.identify_client(command("releaseStream", 2.0, Amf0Value::Null, vec![text("abc")])).unwrap();
    assert!(matches!(
        s.start_fmle_publish(command("publish", 3.0, Amf0Value::Null, vec![text("abc")])),
        Err(ConnectionError::UnexpectedMessage)
    ));
    assert_eq!(s.phase(), Phase::AwaitFcPublish);
    let passed = s.start_fmle_publish(RtmpMessage::SetChunkSize { chunk_size: 4096 }).unwrap();
    assert!(passed.replies.is_empty() && !passed.done);
}

#[test]
fn connect_without_tc_url_is_refused() {
    let mut s = server();
    let r = s.identify_client(command("connect", 1.0, Amf0Value::Null, vec![]));
    assert!(matches!(r, Err(ConnectionError::InvalidConnectApp)));
    let r = s.identify_client(command(
        "connect",
        1.0,
        Amf0Value::object(vec![("app", text("live"))]),
        vec![],
    ));
    assert!(matches!(r, Err(ConnectionError::InvalidConnectApp)));
    let r = s.identify_client(command(
        "connect",
        1.0,
        Amf0Value::object(vec![("tcUrl", number(1.0))]),
        vec![],
    ));
    assert!(matches!(r, Err(ConnectionError::InvalidConnectApp)));
    assert_eq!(s.phase(), Phase::AwaitConnect);
}

#[test]
fn connect_with_a_tc_url_that_is_no_url_is_refused() {
    let mut s = server();
    let r = s.identify_client(connect("no url at all"));
    assert!(matches!(r, Err(ConnectionError::InvalidTcurl(_))));
    assert_eq!(s.phase(), Phase::AwaitConnect);
}

#[test]
fn play_makes_a_player() {
    let mut s = connected();
    let step = s
        .identify_client(command(
            "play",
            4.0,
            Amf0Value::Null,
            vec![text("s"), number(-2.0), number(1500.9)],
        ))
        .unwrap();
    assert!(step.replies.is_empty());
    let req = step.request.unwrap();
    assert_eq!(req.conn_type, RtmpConnType::Play);
    assert_eq!(req.stream.as_deref(), Some("s"));
    assert_eq!(req.duration, 1500);
    assert_eq!(req.path, "/live");
    assert_eq!(req.app_stream(), "/live/s");
    assert_eq!(s.conn_type(), RtmpConnType::Play);
    assert_eq!(s.phase(), Phase::Identified);
    let start = s.start_play().unwrap();
    assert_eq!(start.len(), 5);
    assert!(matches!(
        start[0],
        RtmpMessage::UserControl { event_type: 0, event_data: 1, extra_data: 0 }
    ));
    assert_eq!(code_of(&start[1]), "NetStream.Play.Reset");
    assert_eq!(code_of(&start[2]), "NetStream.Play.Start");
    assert_eq!(name_of(&start[3]), "|RtmpSampleAccess");
    assert!(matches!(start[4], RtmpMessage::Amf0Data { .. }));
    assert_eq!(code_of(&start[4]), "NetStream.Data.Start");
    assert_eq!(s.phase(), Phase::Steady);
    assert!(matches!(s.start_play(), Err(ConnectionError::UnexpectedMessage)));
}

#[test]
fn play_without_a_stream_name_is_refused() {
    let mut s = connected();
    assert!(matches!(
        s.identify_client(command("play", 4.0, Amf0Value::Null, vec![])),
        Err(ConnectionError::InvalidPlay)
    ));
    assert!(matches!(
        s.identify_client(command("play", 4.0, Amf0Value::Null, vec![number(1.0)])),
        Err(ConnectionError::InvalidPlay)
    ));
    assert!(matches!(
        s.identify_client(command(
            "play",
            4.0,
            Amf0Value::Null,
            vec![text("s"), number(0.0), text("long")]
        )),
        Err(ConnectionError::InvalidPlay)
    ));
    assert_eq!(s.phase(), Phase::AwaitRole);
}

#[test]
fn other_calls_are_answered_with_a_null_result() {
    let mut s = connected();
    let step = s.identify_client(command("_checkbw", 7.0, Amf0Value::Null, vec![])).unwrap();
    assert_eq!(step.replies.len(), 1);
    assert_eq!(name_of(&step.replies[0]), "");
    assert_eq!(tid_of(&step.replies[0]), 7.0);
    assert!(step.request.is_none());
    assert_eq!(s.phase(), Phase::AwaitRole);
}

#[test]
fn create_stream_depth_is_three() {
    let mut s = connected();
    let mut depth: u8 = 1;
    while depth <= 3 {
        let step = s
            .identify_client(command("createStream", depth as f64 + 1.0, Amf0Value::Null, vec![]))
            .unwrap();
        assert_eq!(step.replies.len(), 1);
        assert_eq!(name_of(&step.replies[0]), "_result");
        assert_eq!(tid_of(&step.replies[0]), depth as f64 + 1.0);
        match &step.replies[0] {
            RtmpMessage::Amf0Command { additional_arguments, .. } => {
                assert!(matches!(additional_arguments[0], Amf0Value::Number(n) if f64::from_bits(n) == 1.0))
            }
            other => panic!("unexpected {:?}", other),
        }
        assert_eq!(s.phase(), Phase::CreateStream(depth));
        depth += 1;
    }
    let r = s.identify_client(command("createStream", 9.0, Amf0Value::Null, vec![]));
    assert!(matches!(r, Err(ConnectionError::CreateStreamDepth)));
    assert_eq!(s.phase(), Phase::CreateStream(3));
}

#[test]
fn publish_after_create_stream_makes_a_flash_publisher() {
    let mut s = connected();
    s.identify_client(command("createStream", 2.0, Amf0Value::Null, vec![])).unwrap();
    let skipped = s.identify_client(RtmpMessage::Acknowledgement { sequence_number: 9 }).unwrap();
    assert!(skipped.replies.is_empty());
    assert!(matches!(
        s.identify_client(command("publish", 3.0, Amf0Value::Null, vec![])),
        Err(ConnectionError::InvalidPublish)
    ));
    let step = s
        .identify_client(command("publish", 3.0, Amf0Value::Null, vec![text("abc"), text("live")]))
        .unwrap();
    assert!(step.replies.is_empty());
    let req = step.request.unwrap();
    assert_eq!(req.conn_type, RtmpConnType::FlashPublish);
    assert_eq!(req.stream.as_deref(), Some("abc"));
    let start = s.start_flash_publish().unwrap();
    assert_eq!(start.len(), 1);
    assert_eq!(code_of(&start[0]), "NetStream.Publish.Start");
    let c = s.process_amf_command(command("anything", 0.0, Amf0Value::Null, vec![])).unwrap();
    assert_eq!(c.action, Some(RtmpCtrlAction::Republish));
    assert!(c.replies.is_empty());
    assert_eq!(s.phase(), Phase::AwaitConnect);
}

#[test]
fn fc_publish_after_create_stream_makes_a_haivision_publisher() {
    let mut s = connected();
    s.identify_client(command("createStream", 2.0, Amf0Value::Null, vec![])).unwrap();
    assert!(matches!(
        s.identify_client(command("FCPublish", 3.0, Amf0Value::Null, vec![Amf0Value::Null])),
        Err(ConnectionError::InvalidPublish)
    ));
    let step = s
        .identify_client(command("FCPublish", 3.0, Amf0Value::Null, vec![text("abc")]))
        .unwrap();
    assert_eq!(step.replies.len(), 1);
    assert_eq!(name_of(&step.replies[0]), "_result");
    assert_eq!(tid_of(&step.replies[0]), 3.0);
    assert_eq!(step.request.unwrap().conn_type, RtmpConnType::HaivisionPublish);
    assert!(matches!(
        s.start_fmle_publish(command("publish", 4.0, Amf0Value::Null, vec![text("abc")])),
        Err(ConnectionError::UnexpectedMessage)
    ));
    let passed = s.start_haivision_publish(RtmpMessage::Acknowledgement { sequence_number: 0 }).unwrap();
    assert!(passed.replies.is_empty());
    assert!(!passed.done);
    let start = s
        .start_haivision_publish(command("publish", 4.0, Amf0Value::Null, vec![text("abc")]))
        .unwrap();
    assert!(start.done);
    assert_eq!(start.replies.len(), 2);
    assert_eq!(name_of(&start.replies[0]), "onFCPublish");
    assert_eq!(name_of(&start.replies[1]), "onStatus");
    assert_eq!(s.phase(), Phase::Steady);
}

#[test]
fn fmle_publish_setup() {
    let mut s = server();
    let step = s
        .identify_client(command(
            "connect",
            1.0,
            Amf0Value::object(vec![("app", text("live")), ("tcUrl", text("rtmp://h/live"))]),
            vec![],
        ))
        .unwrap();
    assert_eq!(name_of(&step.replies[3]), "_result");
    assert_eq!(code_of(&step.replies[3]), "NetConnection.Connect.Success");
    match &step.replies[3] {
        RtmpMessage::Amf0Command { command_object, additional_arguments, .. } => {
            assert!(matches!(command_object.get("fmsVer"), Some(Amf0Value::Utf8String(_))));
            assert!(matches!(command_object.get("capabilities"), Some(Amf0Value::Number(_))));
            assert!(matches!(command_object.get("mode"), Some(Amf0Value::Number(_))));
            assert!(matches!(
                additional_arguments[0].get("objectEncoding"),
                Some(Amf0Value::Number(0))
            ));
        }
        other => panic!("unexpected {:?}", other),
    }

    let step = s
        .identify_client(command("releaseStream", 2.0, Amf0Value::Null, vec![text("abc")]))
        .unwrap();
    assert_eq!(step.replies.len(), 1);
    assert_eq!(name_of(&step.replies[0]), "_result");
    assert_eq!(tid_of(&step.replies[0]), 2.0);
    match &step.replies[0] {
        RtmpMessage::Amf0Command { additional_arguments, .. } => {
            assert_eq!(additional_arguments.len(), 1);
            assert!(matches!(additional_arguments[0], Amf0Value::Undefined));
        }
        other => panic!("unexpected {:?}", other),
    }
    let req = step.request.unwrap();
    assert_eq!(req.conn_type, RtmpConnType::FmlePublish);
    assert_eq!(req.stream.as_deref(), Some("abc"));
    assert_eq!(req.app_stream(), "/live/abc");
    assert_eq!(s.phase(), Phase::AwaitFcPublish);
    assert!(matches!(
        s.identify_client(command("FCPublish", 3.0, Amf0Value::Null, vec![text("abc")])),
        Err(ConnectionError::UnexpectedMessage)
    ));

    let start = s
        .start_fmle_publish(command("FCPublish", 3.0, Amf0Value::Null, vec![text("abc")]))
        .unwrap();
    assert!(!start.done);
    assert_eq!(start.replies.len(), 1);
    assert_eq!(name_of(&start.replies[0]), "_result");
    assert_eq!(tid_of(&start.replies[0]), 3.0);

    let start = s
        .start_fmle_publish(command("createStream", 5.0, Amf0Value::Null, vec![]))
        .unwrap();
    assert!(!start.done);
    assert_eq!(start.replies.len(), 1);
    assert_eq!(name_of(&start.replies[0]), "_result");
    assert_eq!(tid_of(&start.replies[0]), 5.0);
    match &start.replies[0] {
        RtmpMessage::Amf0Command { additional_arguments, .. } => {
            assert!(matches!(additional_arguments[0], Amf0Value::Number(n) if f64::from_bits(n) == 1.0))
        }
        other => panic!("unexpected {:?}", other),
    }

    let start = s
        .start_fmle_publish(command(
            "publish",
            6.0,
            Amf0Value::Null,
            vec![text("abc"), text("live")],
        ))
        .unwrap();
    assert!(start.done);
    assert_eq!(start.replies.len(), 2);
    assert_eq!(name_of(&start.replies[0]), "onFCPublish");
    assert_eq!(code_of(&start.replies[0]), "NetStream.Publish.Start");
    assert_eq!(name_of(&start.replies[1]), "onStatus");
    assert_eq!(code_of(&start.replies[1]), "NetStream.Publish.Start");
    assert_eq!(s.phase(), Phase::Steady);

    let c = s.process_amf_command(command("FCUnpublish", 7.0, Amf0Value::Null, vec![text("abc")])).unwrap();
    assert_eq!(c.action, Some(RtmpCtrlAction::Republish));
    assert_eq!(c.replies.len(), 3);
    assert_eq!(name_of(&c.replies[0]), "onFCUnpublish");
    assert_eq!(name_of(&c.replies[1]), "_result");
    assert_eq!(tid_of(&c.replies[1]), 7.0);
    assert_eq!(code_of(&c.replies[2]), "NetStream.Unpublish.Success");
}

#[test]
fn release_stream_without_a_stream_is_refused() {
    let mut s = connected();
    assert!(matches!(
        s.identify_client(command("releaseStream", 2.0, Amf0Value::Null, vec![])),
        Err(ConnectionError::ReleaseStreamWithoutStream)
    ));
    assert!(matches!(
        s.identify_client(command("releaseStream", 2.0, Amf0Value::Null, vec![number(3.0)])),
        Err(ConnectionError::ReleaseStreamWithoutStream)
    ));
}

fn player() -> Server {
    let mut s = connected();
    s.identify_client(command("play", 4.0, Amf0Value::Null, vec![text("s")])).unwrap();
    s.start_play().unwrap();
    s
}

#[test]
fn pause_and_unpause_round_trip() {
    let mut s = player();
    let c = s
        .process_amf_command(command(
            "pause",
            4.0,
            Amf0Value::Null,
            vec![Amf0Value::Boolean(true), number(1234.0)],
        ))
        .unwrap();
    assert_eq!(c.action, Some(RtmpCtrlAction::Pause(true)));
    assert_eq!(c.replies.len(), 2);
    assert_eq!(name_of(&c.replies[0]), "onStatus");
    assert_eq!(tid_of(&c.replies[0]), 0.0);
    assert_eq!(code_of(&c.replies[0]), "NetStream.Pause.Notify");
    match &c.replies[0] {
        RtmpMessage::Amf0Command { command_object, .. } => {
            assert!(matches!(command_object, Amf0Value::Null))
        }
        other => panic!("unexpected {:?}", other),
    }
    assert!(matches!(
        c.replies[1],
        RtmpMessage::UserControl { event_type: 1, event_data: 1, extra_data: 0 }
    ));

    let c = s
        .process_amf_command(command(
            "pause",
            5.0,
            Amf0Value::Null,
            vec![Amf0Value::Boolean(false), number(0.0)],
        ))
        .unwrap();
    assert_eq!(c.action, Some(RtmpCtrlAction::Pause(false)));
    assert_eq!(c.replies.len(), 2);
    assert_eq!(code_of(&c.replies[0]), "NetStream.Unpause.Notify");
    assert!(matches!(
        c.replies[1],
        RtmpMessage::UserControl { event_type: 0, event_data: 1, extra_data: 0 }
    ));
    assert_eq!(s.phase(), Phase::Steady);
}

#[test]
fn a_players_commands() {
    let mut s = player();
    let c = s.process_amf_command(command("pause", 4.0, Amf0Value::Null, vec![])).unwrap();
    assert!(c.action.is_none() && c.replies.is_empty());
    let c = s.process_amf_command(command("pause", 4.0, Amf0Value::Null, vec![number(1.0)])).unwrap();
    assert!(c.action.is_none() && c.replies.is_empty());
    let c = s.process_amf_command(command("getStreamLength", 8.0, Amf0Value::Null, vec![])).unwrap();
    assert!(c.action.is_none());
    assert_eq!(c.replies.len(), 1);
    assert_eq!(name_of(&c.replies[0]), "");
    assert_eq!(tid_of(&c.replies[0]), 8.0);
    let c = s.process_amf_command(command("getStreamLength", 0.0, Amf0Value::Null, vec![])).unwrap();
    assert!(c.action.is_none() && c.replies.is_empty());
    let c = s.process_amf_command(command("getStreamLength", 0.9, Amf0Value::Null, vec![])).unwrap();
    assert!(c.replies.is_empty());
    let c = s.process_amf_command(RtmpMessage::Acknowledgement { sequence_number: 3 }).unwrap();
    assert!(c.action.is_none() && c.replies.is_empty());
    let c = s.process_amf_command(command("closeStream", 9.0, Amf0Value::Null, vec![])).unwrap();
    assert_eq!(c.action, Some(RtmpCtrlAction::Close));
    assert!(c.replies.is_empty());
    assert_eq!(s.phase(), Phase::AwaitConnect);
}

#[test]
fn a_chunk_size_outside_of_its_bounds_is_refused() {
    for bad in [0u32, 1, 127, 65537, 1 << 20, u32::MAX] {
        let mut ctx = Context::new(ChunkCodec::new(Transport::new()));
        match ctx.on_recv_message(&RtmpMessage::SetChunkSize { chunk_size: bad }) {
            Err(ConnectionError::InvalidChunkSize(n)) => assert_eq!(n, bad as usize),
            other => panic!("unexpected {:?}", other),
        }
    }
    for good in [128u32, 129, 4096, 60000, 65536] {
        let mut ctx = Context::new(ChunkCodec::new(Transport::new()));
        assert!(ctx.on_recv_message(&RtmpMessage::SetChunkSize { chunk_size: good }).unwrap().is_none());
    }
}

#[test]
fn a_received_chunk_size_is_applied() {
    let mut sender = Context::new(ChunkCodec::new(Transport::new()));
    let mut receiver = Context::new(ChunkCodec::new(Transport::new()));
    let mut wire = Vec::new();
    for msg in [
        RtmpMessage::SetChunkSize { chunk_size: 4096 },
        RtmpMessage::VideoData { stream_id: 1, timestamp: 3, payload: Bytes::from(vec![0x27; 5000]) },
    ] {
        match sender.send_message(msg, 0, 0).unwrap() {
            Outgoing::Chunks(b) => wire.extend_from_slice(&b),
            other => panic!("unexpected {:?}", other),
        }
    }
    assert_eq!(wire.len(), 12 + 4 + 12 + 5000 + 1);
    assert_eq!(sender.get_send_bytes(), wire.len() as u64);
    assert_eq!(sender.get_out_video_count(), 1);
    receiver.fill(&wire).unwrap();
    match receiver.recv_message().unwrap() {
        Incoming::Message { msg: RtmpMessage::SetChunkSize { chunk_size: 4096 }, reply: None } => {}
        other => panic!("unexpected {:?}", other),
    }
    match receiver.recv_message().unwrap() {
        Incoming::Message { msg: RtmpMessage::VideoData { payload, .. }, reply: None } => {
            assert_eq!(payload.len(), 5000)
        }
        other => panic!("unexpected {:?}", other),
    }
    assert!(matches!(receiver.recv_message().unwrap(), Incoming::Pending));
    assert_eq!(receiver.get_in_video_count(), 1);
    assert_eq!(receiver.get_in_audio_count(), 0);
    assert_eq!(receiver.get_recv_bytes(), wire.len() as u64);
}

#[test]
fn an_invalid_chunk_size_from_the_wire_is_refused() {
    let mut receiver = Context::new(ChunkCodec::new(Transport::new()));
    receiver.fill(&[0x02, 0, 0, 0, 0, 0, 4, 1, 0, 0, 0, 0, 0, 0, 0, 127]).unwrap();
    assert!(matches!(receiver.recv_message(), Err(ConnectionError::InvalidChunkSize(127))));
}

#[test]
fn a_ping_request_is_answered() {
    let mut ctx = Context::new(ChunkCodec::new(Transport::new()));
    let reply = ctx
        .on_recv_message(&RtmpMessage::UserControl { event_type: 6, event_data: 77, extra_data: 5 })
        .unwrap();
    assert!(matches!(
        reply,
        Some(RtmpMessage::UserControl { event_type: 7, event_data: 77, extra_data: 0 })
    ));
    let none = ctx
        .on_recv_message(&RtmpMessage::UserControl { event_type: 3, event_data: 1, extra_data: 1000 })
        .unwrap();
    assert!(none.is_none());
    let none = ctx
        .on_recv_message(&RtmpMessage::UserControl { event_type: 0, event_data: 1, extra_data: 0 })
        .unwrap();
    assert!(none.is_none());
}

#[test]
fn sending_keeps_account() {
    let mut ctx = Context::new(ChunkCodec::new(Transport::new()));
    assert!(matches!(
        ctx.on_send_message(&RtmpMessage::SetChunkSize { chunk_size: 0 }),
        Err(ConnectionError::InvalidChunkSize(0))
    ));
    let audio = RtmpMessage::AudioData { stream_id: 1, timestamp: 0, payload: Bytes::from(vec![0xaf, 1]) };
    let video = RtmpMessage::VideoData { stream_id: 1, timestamp: 0, payload: Bytes::from(vec![0x27, 1]) };
    let list = ctx
        .send_messages(&[audio, video, RtmpMessage::new_sample_access()], 0, 0)
        .unwrap();
    assert_eq!(list.len(), 3);
    assert_eq!(ctx.get_out_audio_count(), 1);
    assert_eq!(ctx.get_out_video_count(), 1);
    let mut payloads = Vec::new();
    for e in list {
        match e {
            Encoded::Payload(p) => payloads.push(p),
            Encoded::Amf { message_type, values, .. } => {
                assert_eq!(message_type, 18);
                assert_eq!(values.len(), 3);
            }
        }
    }
    let bytes = ctx.send_payloads(&payloads).unwrap();
    assert_eq!(bytes.len(), 2 * (12 + 2));
    assert_eq!(ctx.get_send_bytes(), bytes.len() as u64);
    assert!(matches!(
        ctx.send_messages(&[RtmpMessage::SetChunkSize { chunk_size: 0 }], 0, 0),
        Err(ConnectionError::InvalidChunkSize(0))
    ));
}

#[test]
fn amf_bodies_go_on_from_their_values() {
    let mut ctx = Context::new(ChunkCodec::new(Transport::new()));
    ctx.fill(&[0x03, 0, 0, 0, 0, 0, 3, 20, 0, 0, 0, 0, 5, 5, 5]).unwrap();
    match ctx.recv_message().unwrap() {
        Incoming::Amf { kind, body } => {
            assert_eq!(kind, AmfKind::Command);
            assert_eq!(&body[..], &[5, 5, 5]);
        }
        other => panic!("unexpected {:?}", other),
    }
    let msg = ctx
        .recv_amf(AmfKind::Command, vec![text("play"), number(1.0), Amf0Value::Null, text("s")])
        .unwrap();
    assert!(msg.expect_amf(&["play"]));
    assert!(matches!(ctx.recv_amf(AmfKind::Command, vec![]), Err(ConnectionError::ChunkIo(_))));
    assert!(Context::expect_amf_command(RtmpMessage::new_create_stream(), &["play"]).is_none());
    assert!(Context::expect_amf_command(RtmpMessage::new_create_stream(), &[]).is_some());
}

#[test]
fn the_client_connects_creates_a_stream_and_plays() {
    let mut client = Client::new(
        Context::new(ChunkCodec::new(Transport::new())),
        "rtmp://127.0.0.1/live".to_string(),
        "s".to_string(),
    )
    .unwrap();
    assert_eq!(client.req.stream.as_deref(), Some("s"));
    assert_eq!(client.req.app(), "live");
    let first = client.connect("me".to_string());
    assert_eq!(first.len(), 1);
    match &first[0] {
        RtmpMessage::Amf0Command { command_name, transaction_id, command_object, additional_arguments } => {
            assert_eq!(command_name, "connect");
            assert_eq!(f64::from_bits(*transaction_id), 1.0);
            assert!(matches!(command_object.get("app"), Some(Amf0Value::Utf8String(s)) if s == "live"));
            assert!(matches!(command_object.get("tcUrl"), Some(Amf0Value::Utf8String(s)) if s == "rtmp://127.0.0.1/live"));
            assert!(matches!(command_object.get("flashVer"), Some(Amf0Value::Utf8String(_))));
            assert!(matches!(command_object.get("fpad"), Some(Amf0Value::Boolean(false))));
            assert!(matches!(command_object.get("audioCodecs"), Some(Amf0Value::Number(n)) if f64::from_bits(*n) == 3575.0));
            assert!(matches!(command_object.get("videoCodecs"), Some(Amf0Value::Number(n)) if f64::from_bits(*n) == 252.0));
            assert!(matches!(command_object.get("videoFunction"), Some(Amf0Value::Number(n)) if f64::from_bits(*n) == 1.0));
            assert!(matches!(command_object.get("objectEncoding"), Some(Amf0Value::Number(0))));
            assert!(matches!(additional_arguments[0].get("msir_uid"), Some(Amf0Value::Utf8String(s)) if s == "me"));
        }
        other => panic!("unexpected {:?}", other),
    }
    let passed = client.on_message(&RtmpMessage::new_on_bw_done());
    assert!(passed.replies.is_empty() && passed.stream_id.is_none());
    let step = client.on_message(&RtmpMessage::new_connect_app_res(0));
    assert!(step.stream_id.is_none());
    assert_eq!(step.replies.len(), 2);
    assert!(matches!(step.replies[0], RtmpMessage::SetWindowAckSize { ack_window_size: 2500000 }));
    assert_eq!(name_of(&step.replies[1]), "createStream");
    let result = command("_result", 2.0, Amf0Value::Null, vec![number(5.0)]);
    let step = client.on_message(&result);
    assert!(step.replies.is_empty());
    assert_eq!(step.stream_id, Some(5));
    let play = client.play(5);
    assert_eq!(play.len(), 3);
    match &play[0] {
        RtmpMessage::Amf0Command { command_name, additional_arguments, .. } => {
            assert_eq!(command_name, "play");
            assert!(matches!(&additional_arguments[0], Amf0Value::Utf8String(s) if s == "s"));
        }
        other => panic!("unexpected {:?}", other),
    }
    assert!(matches!(
        play[1],
        RtmpMessage::UserControl { event_type: 3, event_data: 5, extra_data: 1000 }
    ));
    assert!(matches!(play[2], RtmpMessage::SetChunkSize { chunk_size: 60000 }));
    let later = client.on_message(&result);
    assert!(later.replies.is_empty() && later.stream_id.is_none());
    assert_eq!(ClientPhase::Ready, ClientPhase::Ready);
}

#[test]
fn the_stream_id_defaults_to_one() {
    let mut client = Client::new(
        Context::new(ChunkCodec::new(Transport::new())),
        "rtmp://127.0.0.1/live".to_string(),
        "s".to_string(),
    )
    .unwrap();
    client.connect("me".to_string());
    client.on_message(&RtmpMessage::new_connect_app_res(0));
    let step = client.on_message(&command("_result", 2.0, Amf0Value::Null, vec![]));
    assert_eq!(step.stream_id, Some(1));
    assert!(matches!(
        Client::new(Context::new(ChunkCodec::new(Transport::new())), "::".to_string(), "s".to_string()),
        Err(ConnectionError::InvalidTcurl(_))
    ));
}

#[test]
fn a_failed_send_keeps_account_of_what_came_before() {
    let mut ctx = Context::new(ChunkCodec::new(Transport::new()));
    let audio = RtmpMessage::AudioData { stream_id: 1, timestamp: 0, payload: Bytes::from(vec![0xaf, 1]) };
    let video = RtmpMessage::VideoData { stream_id: 1, timestamp: 0, payload: Bytes::from(vec![0x27, 1]) };
    let later = RtmpMessage::VideoData { stream_id: 1, timestamp: 9, payload: Bytes::from(vec![0x27, 1]) };
    let r = ctx.send_messages(
        &[audio, video, RtmpMessage::SetChunkSize { chunk_size: 0 }, later],
        0,
        0,
    );
    assert!(matches!(r, Err(ConnectionError::InvalidChunkSize(0))));
    assert_eq!(ctx.get_out_audio_count(), 1);
    assert_eq!(ctx.get_out_video_count(), 1);
    assert_eq!(ctx.get_send_bytes(), 0);
}

#[test]
fn a_refused_message_is_read_and_gone() {
    let mut receiver = Context::new(ChunkCodec::new(Transport::new()));
    let mut wire = vec![0x02, 0, 0, 0, 0, 0, 4, 1, 0, 0, 0, 0, 0, 0, 0, 127];
    wire.extend_from_slice(&[0x02, 0, 0, 0, 0, 0, 4, 1, 0, 0, 0, 0, 0, 0, 1, 0]);
    receiver.fill(&wire).unwrap();
    assert!(matches!(receiver.recv_message(), Err(ConnectionError::InvalidChunkSize(127))));
    assert_eq!(receiver.get_recv_bytes(), 16);
    match receiver.recv_message().unwrap() {
        Incoming::Message { msg: RtmpMessage::SetChunkSize { chunk_size }, reply } => {
            assert_eq!(chunk_size, 256);
            assert!(reply.is_none());
        }
        other => panic!("unexpected {:?}", other),
    }
    assert_eq!(receiver.get_recv_bytes(), 32);
}

#[test]
fn a_chunk_that_breaks_a_rule_stays_the_next_to_be_read() {
    let mut receiver = Context::new(ChunkCodec::new(Transport::new()));
    let mut wire = vec![0x02, 0, 0, 0, 0, 0, 4, 1, 0, 0, 0, 0, 0, 0, 1, 0];
    wire.extend_from_slice(&[0x00, 0x05, 1, 2, 3]);
    receiver.fill(&wire).unwrap();
    assert!(matches!(receiver.recv_message(), Ok(Incoming::Message { .. })));
    assert_eq!(receiver.get_recv_bytes(), 16);
    assert!(matches!(
        receiver.recv_message(),
        Err(ConnectionError::ChunkIo(msir::chunk::error::ChunkError::LargeCsid(69)))
    ));
    assert_eq!(receiver.get_recv_bytes(), 16);
    assert_eq!(receiver.room(), 131072 - 5);
    assert!(matches!(
        receiver.recv_message(),
        Err(ConnectionError::ChunkIo(msir::chunk::error::ChunkError::LargeCsid(69)))
    ));
}
