//! The server's side of a connection, one message at a time.
//!
//! A connection is first identified: the client connects to an application
//! and then takes a role in a stream, as a player or as one of three kinds of
//! publisher. The role is then started, and after that the client's commands
//! are served. Every step takes a message that arrived and says what is to
//! be sent in answer. While a step waits for certain commands, any other
//! command is refused, and what is no command is passed over.

use crate::amf::{number_as_u32, number_to_u32, values_view, Amf0Value, Amf0View};
use crate::connection::context::{Context, ContextView};
use crate::connection::error::ConnectionError;
use crate::connection::{RtmpConnType, RtmpCtrlAction};
use crate::message::error::ReuquestError;
use crate::message::request::{optional_text, Request, RequestView};
use crate::message::types::amf0_command_type::{
    COMMAND_CLOSE_STREAM, COMMAND_CONNECT, COMMAND_CREATE_STREAM, COMMAND_FC_PUBLISH,
    COMMAND_PAUSE, COMMAND_PLAY, COMMAND_PUBLISH, COMMAND_RELEASE_STREAM, COMMAND_UNPUBLISH,
};
use crate::message::types::peer_bw_limit_type::DYNAMIC;
use crate::message::types::rtmp_sig::RTMP_SIG_AMF0_VER;
use crate::message::types::user_ctrl_ev_type::{STREAM_BEGIN, STREAM_EOF};
use crate::message::types::DEFAULT_SID;
use crate::message::{messages_view, same_text, MessageView, RtmpMessage};
use vstd::prelude::*;

verus! {

/// The acknowledgement window and the peer bandwidth that the server sets.
pub const WINDOW_ACK_SIZE: u32 = 2500000;

/// The chunk size that the server sends with.
pub const OUT_CHUNK_SIZE: u32 = 60000;

/// How often `createStream` may be answered before a role is taken.
pub const MAX_CREATE_STREAM: u8 = 3;

/// Where a connection stands.
#[derive(Debug, Clone, Copy, PartialEq, Eq, Structural)]
pub enum Phase {
    /// Waiting for `connect`.
    AwaitConnect,
    /// Connected; waiting for the command that tells the role.
    AwaitRole,
    /// `createStream` was answered this many times; waiting for `play`,
    /// `publish`, `FCPublish` or another `createStream`.
    CreateStream(u8),
    /// The role is known, and is started without a further message.
    Identified,
    /// A publisher's start: waiting for `FCPublish`.
    AwaitFcPublish,
    /// A publisher's start: waiting for `createStream`.
    AwaitCreateStream,
    /// A publisher's start: waiting for `publish`.
    AwaitPublish,
    /// The role is started.
    Steady,
}

pub struct Server {
    ctx: Context,
    conn_type: RtmpConnType,
    phase: Phase,
    request: Option<Request>,
}

/// What a [`Server`] stands for.
pub struct ServerView {
    pub ctx: ContextView,
    pub conn_type: RtmpConnType,
    pub phase: Phase,
    /// The request as far as it is known, while the role is not.
    pub request: Option<RequestView>,
}

/// The view of a request that may be missing.
pub open spec fn optional_request(r: Option<Request>) -> Option<RequestView> {
    match r {
        Some(x) => Some(x@),
        None => None,
    }
}

impl View for Server {
    type V = ServerView;

    closed spec fn view(&self) -> ServerView {
        ServerView {
            ctx: self.ctx@,
            conn_type: self.conn_type,
            phase: self.phase,
            request: optional_request(self.request),
        }
    }
}

/// The message is an AMF0 command of this name.
pub open spec fn named(msg: MessageView, name: &str) -> bool {
    msg matches MessageView::Amf0Command { command_name, .. } && command_name == name@
}

/// What the server sends when a client has connected.
pub open spec fn connect_replies(object_encoding: u64) -> Seq<MessageView> {
    seq![
        MessageView::SetWindowAckSize { ack_window_size: WINDOW_ACK_SIZE },
        MessageView::SetPeerBandwidth { size: WINDOW_ACK_SIZE, limit_type: DYNAMIC },
        MessageView::SetChunkSize { chunk_size: OUT_CHUNK_SIZE },
        MessageView::connect_app_res(object_encoding),
        MessageView::on_bw_done(),
    ]
}

/// What the server sends to start a player.
pub open spec fn play_replies() -> Seq<MessageView> {
    seq![
        MessageView::UserControl { event_type: STREAM_BEGIN, event_data: DEFAULT_SID, extra_data: 0 },
        MessageView::on_status_play_reset(),
        MessageView::on_status_play_start(),
        MessageView::sample_access(),
        MessageView::on_status_data_start(),
    ]
}

/// What the server sends when a publisher has sent `publish`.
pub open spec fn publish_replies() -> Seq<MessageView> {
    seq![MessageView::on_fcpublish(), MessageView::on_status_publish_start()]
}

/// The stream name that the arguments of a command begin with.
pub open spec fn stream_name(args: Seq<Amf0View>) -> Option<Seq<char>> {
    if args.len() >= 1 && args[0] is Utf8String {
        Some(args[0]->Utf8String_0)
    } else {
        None
    }
}

/// The request of a client that sent `play` with these arguments: the
/// stream's name comes first, and a third argument is the duration.
pub open spec fn play_request(req: RequestView, args: Seq<Amf0View>) -> Option<RequestView> {
    match stream_name(args) {
        None => None,
        Some(name) => if args.len() < 3 {
            Some(RequestView { stream: Some(name), conn_type: RtmpConnType::Play, ..req })
        } else if args[2] is Number {
            Some(
                RequestView {
                    stream: Some(name),
                    conn_type: RtmpConnType::Play,
                    duration: number_to_u32(args[2]->Number_0),
                    ..req
                },
            )
        } else {
            None
        },
    }
}

/// A step of the identification.
pub struct IdentifyView {
    /// The server afterwards.
    pub server: ServerView,
    /// What is to be sent.
    pub replies: Seq<MessageView>,
    /// The request, once the role is known.
    pub request: Option<RequestView>,
}

impl ServerView {
    /// The message changes nothing and is not answered.
    pub open spec fn passed_over(self) -> IdentifyView {
        IdentifyView { server: self, replies: Seq::empty(), request: None }
    }

    /// The role is known: the connection takes the request's type, and the
    /// request is handed out.
    pub open spec fn identified(self, req: RequestView, phase: Phase, replies: Seq<MessageView>) -> IdentifyView {
        IdentifyView {
            server: ServerView { conn_type: req.conn_type, phase, request: None, ..self },
            replies,
            request: Some(req),
        }
    }

    /// A step while waiting for `connect`.
    ///
    /// `connect` must bring an object that holds the text `tcUrl`, which
    /// must be a URL. The inbound acknowledgement window is set to 0, and the
    /// client's object encoding is echoed in the answer. Any other command
    /// is refused.
    pub open spec fn connect_app(self, msg: MessageView) -> Result<IdentifyView, ConnectionError> {
        if !(msg is Amf0Command) {
            Ok(self.passed_over())
        } else if !named(msg, COMMAND_CONNECT) {
            Err(ConnectionError::UnexpectedMessage)
        } else {
            let object = msg->Amf0Command_command_object;
            if !(object is Object) {
                Err(ConnectionError::InvalidConnectApp)
            } else if !(object.get("tcUrl"@) matches Some(Amf0View::Utf8String(_))) {
                Err(ConnectionError::InvalidConnectApp)
            } else {
                let tc_url = object.get("tcUrl"@)->Some_0->Utf8String_0;
                let encoding = match object.get("objectEncoding"@) {
                    Some(Amf0View::Number(n)) => n,
                    _ => RTMP_SIG_AMF0_VER,
                };
                match RequestView::parsed(tc_url) {
                    None => Err(ConnectionError::InvalidTcurl(ReuquestError::ParseUrl)),
                    Some(req) => Ok(
                        IdentifyView {
                            server: ServerView {
                                ctx: ContextView { in_window: 0, ..self.ctx },
                                phase: Phase::AwaitRole,
                                request: Some(req),
                                ..self
                            },
                            replies: connect_replies(encoding),
                            request: None,
                        },
                    ),
                }
            }
        }
    }

    /// A step while waiting for the command that tells the role.
    ///
    /// `play` makes a player, `releaseStream` a publisher that is yet to send
    /// `FCPublish`, `createStream` and `publish`; `createStream` is answered
    /// and leaves the role open. Any other command is answered with a null
    /// result.
    pub open spec fn await_role(self, msg: MessageView) -> Result<IdentifyView, ConnectionError> {
        if !(msg is Amf0Command) || self.request is None {
            Ok(self.passed_over())
        } else {
            let req = self.request->Some_0;
            let tid = msg->Amf0Command_transaction_id;
            let args = msg->Amf0Command_additional_arguments;
            if named(msg, COMMAND_PLAY) {
                match play_request(req, args) {
                    Some(r) => Ok(self.identified(r, Phase::Identified, Seq::empty())),
                    None => Err(ConnectionError::InvalidPlay),
                }
            } else if named(msg, COMMAND_CREATE_STREAM) {
                Ok(
                    IdentifyView {
                        server: ServerView { phase: Phase::CreateStream(1), ..self },
                        replies: seq![MessageView::create_stream_res(tid)],
                        request: None,
                    },
                )
            } else if named(msg, COMMAND_RELEASE_STREAM) {
                match stream_name(args) {
                    Some(name) => Ok(
                        self.identified(
                            RequestView {
                                stream: Some(name),
                                conn_type: RtmpConnType::FmlePublish,
                                ..req
                            },
                            Phase::AwaitFcPublish,
                            seq![MessageView::release_stream_res(tid)],
                        ),
                    ),
                    None => Err(ConnectionError::ReleaseStreamWithoutStream),
                }
            } else {
                Ok(
                    IdentifyView {
                        server: self,
                        replies: seq![MessageView::null(tid)],
                        request: None,
                    },
                )
            }
        }
    }

    /// A step after `createStream` was answered `depth` times.
    ///
    /// `play` makes a player, `publish` a publisher that is started at once,
    /// `FCPublish` a publisher that is yet to send `publish`. Another
    /// `createStream` is answered, but the fourth is refused, and so is every
    /// other command.
    pub open spec fn create_stream(self, msg: MessageView, depth: u8) -> Result<
        IdentifyView,
        ConnectionError,
    > {
        if self.request is None || !(msg is Amf0Command) {
            Ok(self.passed_over())
        } else {
            let req = self.request->Some_0;
            let tid = msg->Amf0Command_transaction_id;
            let args = msg->Amf0Command_additional_arguments;
            if named(msg, COMMAND_PLAY) {
                match play_request(req, args) {
                    Some(r) => Ok(self.identified(r, Phase::Identified, Seq::empty())),
                    None => Err(ConnectionError::InvalidPlay),
                }
            } else if named(msg, COMMAND_PUBLISH) {
                match stream_name(args) {
                    Some(name) => Ok(
                        self.identified(
                            RequestView {
                                stream: Some(name),
                                conn_type: RtmpConnType::FlashPublish,
                                ..req
                            },
                            Phase::Identified,
                            Seq::empty(),
                        ),
                    ),
                    None => Err(ConnectionError::InvalidPublish),
                }
            } else if named(msg, COMMAND_FC_PUBLISH) {
                match stream_name(args) {
                    Some(name) => Ok(
                        self.identified(
                            RequestView {
                                stream: Some(name),
                                conn_type: RtmpConnType::HaivisionPublish,
                                ..req
                            },
                            Phase::AwaitPublish,
                            seq![MessageView::fcpublish_res(tid)],
                        ),
                    ),
                    None => Err(ConnectionError::InvalidPublish),
                }
            } else if named(msg, COMMAND_CREATE_STREAM) {
                if depth >= MAX_CREATE_STREAM {
                    Err(ConnectionError::CreateStreamDepth)
                } else {
                    Ok(
                        IdentifyView {
                            server: ServerView {
                                phase: Phase::CreateStream((depth + 1) as u8),
                                ..self
                            },
                            replies: seq![MessageView::create_stream_res(tid)],
                            request: None,
                        },
                    )
                }
            } else {
                Err(ConnectionError::UnexpectedMessage)
            }
        }
    }

    /// A step of the identification. Once the role is known, a further
    /// message is refused with `UnexpectedMessage`.
    pub open spec fn identify(self, msg: MessageView) -> Result<IdentifyView, ConnectionError> {
        match self.phase {
            Phase::AwaitConnect => self.connect_app(msg),
            Phase::AwaitRole => self.await_role(msg),
            Phase::CreateStream(depth) => self.create_stream(msg, depth),
            _ => Err(ConnectionError::UnexpectedMessage),
        }
    }

    /// The command that a publisher's start waits for.
    pub open spec fn awaited(self) -> Option<&'static str> {
        match self.phase {
            Phase::AwaitFcPublish => Some(COMMAND_FC_PUBLISH),
            Phase::AwaitCreateStream => Some(COMMAND_CREATE_STREAM),
            Phase::AwaitPublish => Some(COMMAND_PUBLISH),
            _ => None,
        }
    }

    /// A step of a publisher's start: what is sent, and the phase
    /// afterwards; `None` where the connection is not in a publisher's
    /// start, and where the message is another command than the start waits
    /// for.
    ///
    /// `FCPublish` and `createStream` are answered with a result each, and
    /// `publish` with `onFCPublish` and the status `NetStream.Publish.Start`.
    /// What is no command is passed over.
    pub open spec fn publish_step(self, msg: MessageView) -> Option<(Seq<MessageView>, Phase)> {
        let tid = msg->Amf0Command_transaction_id;
        match self.awaited() {
            None => None,
            Some(wanted) => if !(msg is Amf0Command) {
                Some((Seq::empty(), self.phase))
            } else if !named(msg, wanted) {
                None
            } else {
                match self.phase {
                    Phase::AwaitFcPublish => Some(
                        (seq![MessageView::fcpublish_res(tid)], Phase::AwaitCreateStream),
                    ),
                    Phase::AwaitCreateStream => Some(
                        (seq![MessageView::create_stream_res(tid)], Phase::AwaitPublish),
                    ),
                    _ => Some((publish_replies(), Phase::Steady)),
                }
            },
        }
    }

    /// What a command of the client asks for once the role is started: what
    /// is sent in answer, and what the supervisor is asked to do.
    ///
    /// A player may close the stream, and pause or resume it, which is
    /// confirmed with a status and with `StreamEOF` or `StreamBegin`; any
    /// other call of a player with a transaction id is answered with a null
    /// result. A publisher that began with `releaseStream` or `FCPublish`
    /// ends the stream with `FCUnpublish`; for one that began with `publish`
    /// every command ends it.
    pub open spec fn control(self, msg: MessageView) -> (Seq<MessageView>, Option<RtmpCtrlAction>) {
        if !(msg is Amf0Command) {
            (Seq::empty(), None)
        } else {
            let tid = msg->Amf0Command_transaction_id;
            let args = msg->Amf0Command_additional_arguments;
            match self.conn_type {
                RtmpConnType::Play => if named(msg, COMMAND_CLOSE_STREAM) {
                    (Seq::empty(), Some(RtmpCtrlAction::Close))
                } else if named(msg, COMMAND_PAUSE) {
                    if args.len() >= 1 && args[0] is Boolean {
                        if args[0]->Boolean_0 {
                            (
                                seq![
                                    MessageView::on_status_pause(),
                                    MessageView::UserControl {
                                        event_type: STREAM_EOF,
                                        event_data: DEFAULT_SID,
                                        extra_data: 0,
                                    },
                                ],
                                Some(RtmpCtrlAction::Pause(true)),
                            )
                        } else {
                            (
                                seq![
                                    MessageView::on_status_unpause(),
                                    MessageView::UserControl {
                                        event_type: STREAM_BEGIN,
                                        event_data: DEFAULT_SID,
                                        extra_data: 0,
                                    },
                                ],
                                Some(RtmpCtrlAction::Pause(false)),
                            )
                        }
                    } else {
                        (Seq::empty(), None)
                    }
                } else if number_to_u32(tid) > 0 {
                    (seq![MessageView::null(tid)], None)
                } else {
                    (Seq::empty(), None)
                },
                RtmpConnType::FmlePublish | RtmpConnType::HaivisionPublish => if named(
                    msg,
                    COMMAND_UNPUBLISH,
                ) {
                    (
                        seq![
                            MessageView::on_fcunpublish(),
                            MessageView::fcpublish_res(tid),
                            MessageView::on_status_unpublish(),
                        ],
                        Some(RtmpCtrlAction::Republish),
                    )
                } else {
                    (Seq::empty(), None)
                },
                RtmpConnType::FlashPublish => (Seq::empty(), Some(RtmpCtrlAction::Republish)),
                _ => (Seq::empty(), None),
            }
        }
    }

    /// The server after a command was served: where the stream ends, the
    /// connection waits for `connect` again.
    pub open spec fn controlled(self, msg: MessageView) -> ServerView {
        match self.control(msg).1 {
            Some(RtmpCtrlAction::Republish) | Some(RtmpCtrlAction::Close) => ServerView {
                phase: Phase::AwaitConnect,
                request: None,
                ..self
            },
            _ => self,
        }
    }
}

/// The fourth `createStream` before a role is taken is refused with
/// `CreateStreamDepth`.
pub proof fn lemma_create_stream_depth(s: ServerView, msg: MessageView)
    requires
        s.phase == Phase::CreateStream(MAX_CREATE_STREAM),
        s.request is Some,
        named(msg, COMMAND_CREATE_STREAM),
    ensures
        s.identify(msg) == Err::<IdentifyView, ConnectionError>(ConnectionError::CreateStreamDepth),
{
    reveal_strlit("createStream");
    reveal_strlit("play");
    reveal_strlit("publish");
    reveal_strlit("FCPublish");
    assert(COMMAND_CREATE_STREAM@.len() == 12);
    assert(COMMAND_PLAY@.len() == 4);
    assert(COMMAND_PUBLISH@.len() == 7);
    assert(COMMAND_FC_PUBLISH@.len() == 9);
}

/// Of four `createStream` in a row, before a role is taken, the first three
/// are answered, each with a result for its transaction, and the fourth is
/// refused with `CreateStreamDepth`.
pub proof fn lemma_fourth_create_stream(
    s: ServerView,
    c1: MessageView,
    c2: MessageView,
    c3: MessageView,
    c4: MessageView,
)
    requires
        s.phase == Phase::AwaitRole,
        s.request is Some,
        named(c1, COMMAND_CREATE_STREAM),
        named(c2, COMMAND_CREATE_STREAM),
        named(c3, COMMAND_CREATE_STREAM),
        named(c4, COMMAND_CREATE_STREAM),
    ensures
        ({
            &&& s.identify(c1) matches Ok(first)
            &&& first.replies == seq![
                MessageView::create_stream_res(c1->Amf0Command_transaction_id),
            ]
            &&& first.request is None
            &&& first.server.identify(c2) matches Ok(second)
            &&& second.replies == seq![
                MessageView::create_stream_res(c2->Amf0Command_transaction_id),
            ]
            &&& second.request is None
            &&& second.server.identify(c3) matches Ok(third)
            &&& third.replies == seq![
                MessageView::create_stream_res(c3->Amf0Command_transaction_id),
            ]
            &&& third.request is None
            &&& third.server.identify(c4) == Err::<IdentifyView, ConnectionError>(
                ConnectionError::CreateStreamDepth,
            )
        }),
{
    reveal_strlit("createStream");
    reveal_strlit("play");
    reveal_strlit("publish");
    reveal_strlit("FCPublish");
    assert(COMMAND_CREATE_STREAM@.len() == 12);
    assert(COMMAND_PLAY@.len() == 4);
    assert(COMMAND_PUBLISH@.len() == 7);
    assert(COMMAND_FC_PUBLISH@.len() == 9);
    let first = s.identify(c1)->Ok_0;
    assert(first.server.phase == Phase::CreateStream(1));
    let second = first.server.identify(c2)->Ok_0;
    assert(second.server.phase == Phase::CreateStream(2));
    let third = second.server.identify(c3)->Ok_0;
    assert(third.server.phase == Phase::CreateStream(3));
    lemma_create_stream_depth(third.server, c4);
}

/// What a step of the identification gives.
#[derive(Debug)]
pub struct Identify {
    /// What is to be sent.
    pub replies: Vec<RtmpMessage>,
    /// The request, once the role is known.
    pub request: Option<Request>,
}

/// What a step of a publisher's start gives.
#[derive(Debug)]
pub struct Start {
    /// What is to be sent.
    pub replies: Vec<RtmpMessage>,
    /// Whether the role is started.
    pub done: bool,
}

/// What serving a command gives.
#[derive(Debug)]
pub struct Control {
    /// What is to be sent.
    pub replies: Vec<RtmpMessage>,
    /// What the supervisor is asked to do.
    pub action: Option<RtmpCtrlAction>,
}

/// No messages.
fn no_replies() -> (r: Vec<RtmpMessage>)
    ensures
        messages_view(r@) == Seq::<MessageView>::empty(),
{
    let r: Vec<RtmpMessage> = Vec::new();
    assert(messages_view(r@) =~= Seq::<MessageView>::empty());
    r
}

/// One message.
fn one_reply(msg: RtmpMessage) -> (r: Vec<RtmpMessage>)
    ensures
        messages_view(r@) == seq![msg@],
{
    let mut r: Vec<RtmpMessage> = Vec::new();
    r.push(msg);
    assert(messages_view(r@) =~= seq![msg@]);
    r
}

/// Two messages.
fn two_replies(first: RtmpMessage, second: RtmpMessage) -> (r: Vec<RtmpMessage>)
    ensures
        messages_view(r@) == seq![first@, second@],
{
    let mut r: Vec<RtmpMessage> = Vec::new();
    r.push(first);
    r.push(second);
    assert(messages_view(r@) =~= seq![first@, second@]);
    r
}

/// A copy of a text that may be missing.
fn clone_text(s: &Option<String>) -> (r: Option<String>)
    ensures
        optional_text(r) == optional_text(*s),
{
    match s {
        Some(x) => Some(x.clone()),
        None => None,
    }
}

/// The stream name that the arguments of a command begin with.
fn first_name(args: &Vec<Amf0Value>) -> (r: Option<String>)
    ensures
        optional_text(r) == stream_name(values_view(args@)),
{
    if args.len() < 1 {
        return None;
    }
    assert(values_view(args@)[0] == args@[0]@);
    match &args[0] {
        Amf0Value::Utf8String(stream) => Some(stream.clone()),
        _ => None,
    }
}

/// `req` for another stream and type.
fn with_stream(req: &Request, stream: String, conn_type: RtmpConnType, duration: u32) -> (r:
    Request)
    ensures
        r@ == (RequestView { stream: Some(stream@), conn_type, duration, ..req@ }),
{
    Request {
        ip: clone_text(&req.ip),
        tc_url: req.tc_url.clone(),
        path: req.path.clone(),
        query: clone_text(&req.query),
        stream: Some(stream),
        conn_type,
        duration,
    }
}

/// The request of a client that sent `play`.
fn process_play(req: &Request, additional_arguments: &Vec<Amf0Value>) -> (r: Result<
    Request,
    ConnectionError,
>)
    ensures
        match r {
            Ok(played) => play_request(req@, values_view(additional_arguments@)) == Some(played@),
            Err(e) => e is InvalidPlay && play_request(req@, values_view(additional_arguments@))
                is None,
        },
{
    let stream = match first_name(additional_arguments) {
        Some(s) => s,
        None => {
            return Err(ConnectionError::InvalidPlay);
        },
    };
    let mut duration = req.duration;
    if additional_arguments.len() >= 3 {
        assert(values_view(additional_arguments@)[2] == additional_arguments@[2]@);
        match &additional_arguments[2] {
            Amf0Value::Number(n) => {
                duration = number_as_u32(*n);
            },
            _ => {
                return Err(ConnectionError::InvalidPlay);
            },
        }
    }
    Ok(with_stream(req, stream, RtmpConnType::Play, duration))
}

impl Server {
    pub closed spec fn wf(&self) -> bool {
        self.ctx.wf()
    }

    /// A server for a connection whose handshake is done.
    pub fn new(ctx: Context) -> (r: Self)
        requires
            ctx.wf(),
        ensures
            r.wf(),
            r@ == (ServerView {
                ctx: ctx@,
                conn_type: RtmpConnType::Unknow,
                phase: Phase::AwaitConnect,
                request: None,
            }),
    {
        Server { ctx, conn_type: RtmpConnType::Unknow, phase: Phase::AwaitConnect, request: None }
    }

    /// The connection's bookkeeping, for receiving and sending.
    pub fn ctx(&mut self) -> (r: &mut Context)
        requires
            old(self).wf(),
        ensures
            r.wf(),
            r@ == old(self)@.ctx,
            final(r).wf() ==> final(self).wf(),
            final(self)@ == (ServerView { ctx: final(r)@, ..old(self)@ }),
    {
        &mut self.ctx
    }

    pub fn conn_type(&self) -> (r: RtmpConnType)
        ensures
            r == self@.conn_type,
    {
        self.conn_type
    }

    pub fn phase(&self) -> (r: Phase)
        ensures
            r == self@.phase,
    {
        self.phase
    }

    /// A step while waiting for `connect`.
    fn connect_app(&mut self, msg: RtmpMessage) -> (r: Result<Identify, ConnectionError>)
        requires
            old(self).wf(),
            old(self)@.phase == Phase::AwaitConnect,
        ensures
            final(self).wf(),
            identify_is(r, old(self)@, msg@, final(self)@),
    {
        if let RtmpMessage::Amf0Command { command_name, command_object, .. } = &msg {
            if !same_text(command_name.as_str(), COMMAND_CONNECT) {
                return Err(ConnectionError::UnexpectedMessage);
            }
            if let Amf0Value::Object(_) = command_object {
            } else {
                return Err(ConnectionError::InvalidConnectApp);
            }
            let tc_url = match command_object.get("tcUrl") {
                Some(Amf0Value::Utf8String(tc_url)) => tc_url.clone(),
                _ => {
                    return Err(ConnectionError::InvalidConnectApp);
                },
            };
            let object_encoding = match command_object.get("objectEncoding") {
                Some(Amf0Value::Number(number)) => *number,
                _ => RTMP_SIG_AMF0_VER,
            };
            let request = match Request::parse_from(tc_url) {
                Ok(r) => r,
                Err(e) => {
                    return Err(ConnectionError::InvalidTcurl(e));
                },
            };
            self.ctx.set_in_window_ack_size(0);
            let mut replies: Vec<RtmpMessage> = Vec::new();
            replies.push(RtmpMessage::SetWindowAckSize { ack_window_size: WINDOW_ACK_SIZE });
            replies.push(RtmpMessage::SetPeerBandwidth { size: WINDOW_ACK_SIZE, limit_type: DYNAMIC });
            replies.push(RtmpMessage::SetChunkSize { chunk_size: OUT_CHUNK_SIZE });
            replies.push(RtmpMessage::new_connect_app_res(object_encoding));
            replies.push(RtmpMessage::new_on_bw_done());
            assert(messages_view(replies@) =~= connect_replies(object_encoding));
            self.request = Some(request);
            self.phase = Phase::AwaitRole;
            return Ok(Identify { replies, request: None });
        }
        Ok(Identify { replies: no_replies(), request: None })
    }

    /// A step while waiting for the command that tells the role.
    fn await_role(&mut self, msg: RtmpMessage) -> (r: Result<Identify, ConnectionError>)
        requires
            old(self).wf(),
            old(self)@.phase == Phase::AwaitRole,
        ensures
            final(self).wf(),
            identify_is(r, old(self)@, msg@, final(self)@),
    {
        if let RtmpMessage::Amf0Command { command_name, transaction_id, additional_arguments, .. } =
            &msg {
            let req = match &self.request {
                Some(r) => r,
                None => {
                    return Ok(Identify { replies: no_replies(), request: None });
                },
            };
            let name = command_name.as_str();
            if same_text(name, COMMAND_PLAY) {
                let played = match process_play(req, additional_arguments) {
                    Ok(p) => p,
                    Err(e) => {
                        return Err(e);
                    },
                };
                self.conn_type = played.conn_type;
                self.phase = Phase::Identified;
                self.request = None;
                return Ok(Identify { replies: no_replies(), request: Some(played) });
            }
            if same_text(name, COMMAND_CREATE_STREAM) {
                let replies = one_reply(RtmpMessage::new_create_stream_res(*transaction_id));
                self.phase = Phase::CreateStream(1);
                return Ok(Identify { replies, request: None });
            }
            if same_text(name, COMMAND_RELEASE_STREAM) {
                let published = match self.process_fmle_publish(additional_arguments) {
                    Ok(p) => p,
                    Err(e) => {
                        return Err(e);
                    },
                };
                let replies = one_reply(RtmpMessage::new_release_stream_res(*transaction_id));
                self.conn_type = published.conn_type;
                self.phase = Phase::AwaitFcPublish;
                self.request = None;
                return Ok(Identify { replies, request: Some(published) });
            }
            return Ok(
                Identify {
                    replies: one_reply(RtmpMessage::new_null(*transaction_id)),
                    request: None,
                },
            );
        }
        Ok(Identify { replies: no_replies(), request: None })
    }

    /// The request of a client that sent `releaseStream`.
    fn process_fmle_publish(&self, additional_arguments: &Vec<Amf0Value>) -> (r: Result<
        Request,
        ConnectionError,
    >)
        requires
            self@.request is Some,
        ensures
            match r {
                Ok(p) => stream_name(values_view(additional_arguments@)) matches Some(name) && p@
                    == (RequestView {
                    stream: Some(name),
                    conn_type: RtmpConnType::FmlePublish,
                    ..self@.request->Some_0
                }),
                Err(e) => e is ReleaseStreamWithoutStream && stream_name(
                    values_view(additional_arguments@),
                ) is None,
            },
    {
        let req = match &self.request {
            Some(r) => r,
            None => {
                return Err(ConnectionError::ReleaseStreamWithoutStream);
            },
        };
        match first_name(additional_arguments) {
            Some(stream) => Ok(with_stream(req, stream, RtmpConnType::FmlePublish, req.duration)),
            None => Err(ConnectionError::ReleaseStreamWithoutStream),
        }
    }

    /// The request of a client that sent `publish` after `createStream`.
    fn process_flash_publish(&self, additional_arguments: &Vec<Amf0Value>) -> (r: Result<
        Request,
        ConnectionError,
    >)
        requires
            self@.request is Some,
        ensures
            match r {
                Ok(p) => stream_name(values_view(additional_arguments@)) matches Some(name) && p@
                    == (RequestView {
                    stream: Some(name),
                    conn_type: RtmpConnType::FlashPublish,
                    ..self@.request->Some_0
                }),
                Err(e) => e is InvalidPublish && stream_name(values_view(additional_arguments@))
                    is None,
            },
    {
        let req = match &self.request {
            Some(r) => r,
            None => {
                return Err(ConnectionError::InvalidPublish);
            },
        };
        match first_name(additional_arguments) {
            Some(stream) => Ok(with_stream(req, stream, RtmpConnType::FlashPublish, req.duration)),
            None => Err(ConnectionError::InvalidPublish),
        }
    }

    /// The request of a client that sent `FCPublish` after `createStream`.
    fn process_haivision_publish(&self, additional_arguments: &Vec<Amf0Value>) -> (r: Result<
        Request,
        ConnectionError,
    >)
        requires
            self@.request is Some,
        ensures
            match r {
                Ok(p) => stream_name(values_view(additional_arguments@)) matches Some(name) && p@
                    == (RequestView {
                    stream: Some(name),
                    conn_type: RtmpConnType::HaivisionPublish,
                    ..self@.request->Some_0
                }),
                Err(e) => e is InvalidPublish && stream_name(values_view(additional_arguments@))
                    is None,
            },
    {
        let req = match &self.request {
            Some(r) => r,
            None => {
                return Err(ConnectionError::InvalidPublish);
            },
        };
        match first_name(additional_arguments) {
            Some(stream) => Ok(
                with_stream(req, stream, RtmpConnType::HaivisionPublish, req.duration),
            ),
            None => Err(ConnectionError::InvalidPublish),
        }
    }

    /// A step after `createStream` was answered `depth` times.
    fn process_create_stream(&mut self, msg: RtmpMessage, depth: u8) -> (r: Result<
        Identify,
        ConnectionError,
    >)
        requires
            old(self).wf(),
            old(self)@.phase == Phase::CreateStream(depth),
        ensures
            final(self).wf(),
            identify_is(r, old(self)@, msg@, final(self)@),
    {
        if let RtmpMessage::Amf0Command { command_name, transaction_id, additional_arguments, .. } =
            &msg {
            let req = match &self.request {
                Some(r) => r,
                None => {
                    return Ok(Identify { replies: no_replies(), request: None });
                },
            };
            let name = command_name.as_str();
            if same_text(name, COMMAND_PLAY) {
                let played = match process_play(req, additional_arguments) {
                    Ok(p) => p,
                    Err(e) => {
                        return Err(e);
                    },
                };
                self.conn_type = played.conn_type;
                self.phase = Phase::Identified;
                self.request = None;
                return Ok(Identify { replies: no_replies(), request: Some(played) });
            }
            if same_text(name, COMMAND_PUBLISH) {
                let published = match self.process_flash_publish(additional_arguments) {
                    Ok(p) => p,
                    Err(e) => {
                        return Err(e);
                    },
                };
                self.conn_type = published.conn_type;
                self.phase = Phase::Identified;
                self.request = None;
                return Ok(Identify { replies: no_replies(), request: Some(published) });
            }
            if same_text(name, COMMAND_FC_PUBLISH) {
                let published = match self.process_haivision_publish(additional_arguments) {
                    Ok(p) => p,
                    Err(e) => {
                        return Err(e);
                    },
                };
                let replies = one_reply(RtmpMessage::new_fcpublish_res(*transaction_id));
                self.conn_type = published.conn_type;
                self.phase = Phase::AwaitPublish;
                self.request = None;
                return Ok(Identify { replies, request: Some(published) });
            }
            if same_text(name, COMMAND_CREATE_STREAM) {
                if depth >= MAX_CREATE_STREAM {
                    return Err(ConnectionError::CreateStreamDepth);
                }
                let replies = one_reply(RtmpMessage::new_create_stream_res(*transaction_id));
                self.phase = Phase::CreateStream(depth + 1);
                return Ok(Identify { replies, request: None });
            }
            return Err(ConnectionError::UnexpectedMessage);
        }
        Ok(Identify { replies: no_replies(), request: None })
    }

    /// A step of the identification: takes a message that arrived and says
    /// what is to be sent; once the role is known, hands out the request.
    ///
    /// Fails, and changes nothing: with `InvalidConnectApp` where `connect`
    /// brings no object with a `tcUrl` text, with `InvalidTcurl` where that
    /// is no URL, with `InvalidPlay`, `InvalidPublish` or
    /// `ReleaseStreamWithoutStream` where the command that tells the role
    /// names no stream, with `CreateStreamDepth` at the fourth `createStream`,
    /// and with `UnexpectedMessage` at a command that the step does not wait
    /// for, and at any message once the role is known.
    pub fn identify_client(&mut self, msg: RtmpMessage) -> (r: Result<Identify, ConnectionError>)
        requires
            old(self).wf(),
        ensures
            final(self).wf(),
            identify_is(r, old(self)@, msg@, final(self)@),
    {
        match self.phase {
            Phase::AwaitConnect => self.connect_app(msg),
            Phase::AwaitRole => self.await_role(msg),
            Phase::CreateStream(depth) => self.process_create_stream(msg, depth),
            _ => Err(ConnectionError::UnexpectedMessage),
        }
    }

    /// Starts a player: says what is to be sent.
    ///
    /// Fails with `UnexpectedMessage`, and only so, where the connection is
    /// no player that was just identified.
    pub fn start_play(&mut self) -> (r: Result<Vec<RtmpMessage>, ConnectionError>)
        requires
            old(self).wf(),
        ensures
            final(self).wf(),
            if old(self)@.phase == Phase::Identified && old(self)@.conn_type == RtmpConnType::Play {
                &&& r matches Ok(replies)
                &&& messages_view(replies@) == play_replies()
                &&& final(self)@ == (ServerView { phase: Phase::Steady, ..old(self)@ })
            } else {
                r matches Err(ConnectionError::UnexpectedMessage) && final(self)@ == old(self)@
            },
    {
        if !(self.phase == Phase::Identified && self.conn_type == RtmpConnType::Play) {
            return Err(ConnectionError::UnexpectedMessage);
        }
        let mut replies: Vec<RtmpMessage> = Vec::new();
        replies.push(
            RtmpMessage::UserControl {
                event_type: STREAM_BEGIN,
                event_data: DEFAULT_SID,
                extra_data: 0,
            },
        );
        replies.push(RtmpMessage::new_on_status_play_reset());
        replies.push(RtmpMessage::new_on_status_play_start());
        replies.push(RtmpMessage::new_sample_access());
        replies.push(RtmpMessage::new_on_status_data_start());
        assert(messages_view(replies@) =~= play_replies());
        self.phase = Phase::Steady;
        Ok(replies)
    }

    /// Starts a publisher that began with `publish`: says what is to be
    /// sent.
    ///
    /// Fails with `UnexpectedMessage`, and only so, where the connection is
    /// no such publisher that was just identified.
    pub fn start_flash_publish(&mut self) -> (r: Result<Vec<RtmpMessage>, ConnectionError>)
        requires
            old(self).wf(),
        ensures
            final(self).wf(),
            if old(self)@.phase == Phase::Identified && old(self)@.conn_type
                == RtmpConnType::FlashPublish {
                &&& r matches Ok(replies)
                &&& messages_view(replies@) == seq![MessageView::on_status_publish_start()]
                &&& final(self)@ == (ServerView { phase: Phase::Steady, ..old(self)@ })
            } else {
                r matches Err(ConnectionError::UnexpectedMessage) && final(self)@ == old(self)@
            },
    {
        if !(self.phase == Phase::Identified && self.conn_type == RtmpConnType::FlashPublish) {
            return Err(ConnectionError::UnexpectedMessage);
        }
        self.phase = Phase::Steady;
        Ok(one_reply(RtmpMessage::new_on_status_publish_start()))
    }

    /// A step of a publisher's start.
    fn publish_step(&mut self, msg: RtmpMessage) -> (r: Result<Start, ConnectionError>)
        requires
            old(self).wf(),
        ensures
            final(self).wf(),
            match old(self)@.publish_step(msg@) {
                Some((replies, phase)) => {
                    &&& r matches Ok(start)
                    &&& messages_view(start.replies@) == replies
                    &&& start.done == (phase == Phase::Steady)
                    &&& final(self)@ == (ServerView { phase, ..old(self)@ })
                },
                None => r matches Err(ConnectionError::UnexpectedMessage) && final(self)@ == old(
                    self,
                )@,
            },
    {
        let (wanted, next) = match self.phase {
            Phase::AwaitFcPublish => (COMMAND_FC_PUBLISH, Phase::AwaitCreateStream),
            Phase::AwaitCreateStream => (COMMAND_CREATE_STREAM, Phase::AwaitPublish),
            Phase::AwaitPublish => (COMMAND_PUBLISH, Phase::Steady),
            _ => {
                return Err(ConnectionError::UnexpectedMessage);
            },
        };
        if let RtmpMessage::Amf0Command { command_name, transaction_id, .. } = &msg {
            if same_text(command_name.as_str(), wanted) {
                let replies = match self.phase {
                    Phase::AwaitFcPublish => one_reply(
                        RtmpMessage::new_fcpublish_res(*transaction_id),
                    ),
                    Phase::AwaitCreateStream => one_reply(
                        RtmpMessage::new_create_stream_res(*transaction_id),
                    ),
                    _ => two_replies(
                        RtmpMessage::new_on_fcpublish(),
                        RtmpMessage::new_on_status_publish_start(),
                    ),
                };
                self.phase = next;
                return Ok(Start { replies, done: next == Phase::Steady });
            }
            return Err(ConnectionError::UnexpectedMessage);
        }
        Ok(Start { replies: no_replies(), done: false })
    }

    /// A step of the start of a publisher that began with `releaseStream`:
    /// takes a message that arrived and says what is to be sent, and whether
    /// the role is started.
    ///
    /// Fails with `UnexpectedMessage`, and only so, where the connection is
    /// no such publisher in its start, and where the message is another
    /// command than the start waits for.
    pub fn start_fmle_publish(&mut self, msg: RtmpMessage) -> (r: Result<Start, ConnectionError>)
        requires
            old(self).wf(),
        ensures
            final(self).wf(),
            if old(self)@.conn_type == RtmpConnType::FmlePublish && old(self)@.publish_step(msg@)
                is Some {
                let (replies, phase) = old(self)@.publish_step(msg@)->Some_0;
                &&& r matches Ok(start)
                &&& messages_view(start.replies@) == replies
                &&& start.done == (phase == Phase::Steady)
                &&& final(self)@ == (ServerView { phase, ..old(self)@ })
            } else {
                r matches Err(ConnectionError::UnexpectedMessage) && final(self)@ == old(self)@
            },
    {
        if self.conn_type != RtmpConnType::FmlePublish {
            return Err(ConnectionError::UnexpectedMessage);
        }
        self.publish_step(msg)
    }

    /// A step of the start of a publisher that began with `FCPublish`:
    /// takes a message that arrived and says what is to be sent, and whether
    /// the role is started.
    ///
    /// Fails with `UnexpectedMessage`, and only so, where the connection is
    /// no such publisher waiting for `publish`, and where the message is
    /// another command.
    pub fn start_haivision_publish(&mut self, msg: RtmpMessage) -> (r: Result<
        Start,
        ConnectionError,
    >)
        requires
            old(self).wf(),
        ensures
            final(self).wf(),
            if old(self)@.conn_type == RtmpConnType::HaivisionPublish && old(self)@.phase
                == Phase::AwaitPublish && old(self)@.publish_step(msg@) is Some {
                let (replies, phase) = old(self)@.publish_step(msg@)->Some_0;
                &&& r matches Ok(start)
                &&& messages_view(start.replies@) == replies
                &&& start.done == (phase == Phase::Steady)
                &&& final(self)@ == (ServerView { phase, ..old(self)@ })
            } else {
                r matches Err(ConnectionError::UnexpectedMessage) && final(self)@ == old(self)@
            },
    {
        if !(self.conn_type == RtmpConnType::HaivisionPublish && self.phase == Phase::AwaitPublish) {
            return Err(ConnectionError::UnexpectedMessage);
        }
        self.publish_step(msg)
    }

    /// Serves a command of the client once the role is started: says what is
    /// to be sent, and what the supervisor is asked to do. Never fails.
    pub fn process_amf_command(&mut self, msg: RtmpMessage) -> (r: Result<Control, ConnectionError>)
        requires
            old(self).wf(),
        ensures
            final(self).wf(),
            r matches Ok(c) && (messages_view(c.replies@), c.action) == old(self)@.control(msg@),
            final(self)@ == old(self)@.controlled(msg@),
    {
        let c = self.serve(&msg);
        match c.action {
            Some(RtmpCtrlAction::Republish) | Some(RtmpCtrlAction::Close) => {
                self.phase = Phase::AwaitConnect;
                self.request = None;
            },
            _ => {},
        }
        Ok(c)
    }

    /// What is sent in answer to a command, and what it asks for.
    fn serve(&self, msg: &RtmpMessage) -> (c: Control)
        ensures
            (messages_view(c.replies@), c.action) == self@.control(msg@),
    {
        if let RtmpMessage::Amf0Command { command_name, transaction_id, additional_arguments, .. } =
            msg {
            let name = command_name.as_str();
            match self.conn_type {
                RtmpConnType::Play => {
                    if same_text(name, COMMAND_CLOSE_STREAM) {
                        return Control {
                            replies: no_replies(),
                            action: Some(RtmpCtrlAction::Close),
                        };
                    }
                    if same_text(name, COMMAND_PAUSE) {
                        if additional_arguments.len() < 1 {
                            return Control { replies: no_replies(), action: None };
                        }
                        assert(values_view(additional_arguments@)[0] == additional_arguments@[0]@);
                        return match &additional_arguments[0] {
                            Amf0Value::Boolean(pause) => {
                                if *pause {
                                    Control {
                                        replies: two_replies(
                                            RtmpMessage::new_on_status_pause(),
                                            RtmpMessage::UserControl {
                                                event_type: STREAM_EOF,
                                                event_data: DEFAULT_SID,
                                                extra_data: 0,
                                            },
                                        ),
                                        action: Some(RtmpCtrlAction::Pause(true)),
                                    }
                                } else {
                                    Control {
                                        replies: two_replies(
                                            RtmpMessage::new_on_status_unpause(),
                                            RtmpMessage::UserControl {
                                                event_type: STREAM_BEGIN,
                                                event_data: DEFAULT_SID,
                                                extra_data: 0,
                                            },
                                        ),
                                        action: Some(RtmpCtrlAction::Pause(false)),
                                    }
                                }
                            },
                            _ => Control { replies: no_replies(), action: None },
                        };
                    }
                    if number_as_u32(*transaction_id) > 0 {
                        return Control {
                            replies: one_reply(RtmpMessage::new_null(*transaction_id)),
                            action: None,
                        };
                    }
                    Control { replies: no_replies(), action: None }
                },
                RtmpConnType::FmlePublish | RtmpConnType::HaivisionPublish => {
                    if same_text(name, COMMAND_UNPUBLISH) {
                        let mut replies: Vec<RtmpMessage> = Vec::new();
                        replies.push(RtmpMessage::new_on_fcunpublish());
                        replies.push(RtmpMessage::new_fcpublish_res(*transaction_id));
                        replies.push(RtmpMessage::new_on_status_unpublish());
                        assert(messages_view(replies@) =~= seq![
                            MessageView::on_fcunpublish(),
                            MessageView::fcpublish_res(*transaction_id),
                            MessageView::on_status_unpublish(),
                        ]);
                        return Control { replies, action: Some(RtmpCtrlAction::Republish) };
                    }
                    Control { replies: no_replies(), action: None }
                },
                RtmpConnType::FlashPublish => Control {
                    replies: no_replies(),
                    action: Some(RtmpCtrlAction::Republish),
                },
                _ => Control { replies: no_replies(), action: None },
            }
        } else {
            Control { replies: no_replies(), action: None }
        }
    }
}

/// `r` is what a step of the identification owes for the message `msg` in
/// state `before`, and `after` the state that it leaves.
pub open spec fn identify_is(
    r: Result<Identify, ConnectionError>,
    before: ServerView,
    msg: MessageView,
    after: ServerView,
) -> bool {
    match before.identify(msg) {
        Ok(step) => {
            &&& r matches Ok(given)
            &&& messages_view(given.replies@) == step.replies
            &&& optional_request(given.request) == step.request
            &&& after == step.server
        },
        Err(e) => {
            &&& after == before
            &&& match e {
                ConnectionError::UnexpectedMessage => r matches Err(
                    ConnectionError::UnexpectedMessage,
                ),
                ConnectionError::InvalidConnectApp => r matches Err(
                    ConnectionError::InvalidConnectApp,
                ),
                ConnectionError::InvalidTcurl(_) => r matches Err(
                    ConnectionError::InvalidTcurl(ReuquestError::ParseUrl),
                ),
                ConnectionError::InvalidPlay => r matches Err(ConnectionError::InvalidPlay),
                ConnectionError::InvalidPublish => r matches Err(ConnectionError::InvalidPublish),
                ConnectionError::ReleaseStreamWithoutStream => r matches Err(
                    ConnectionError::ReleaseStreamWithoutStream,
                ),
                ConnectionError::CreateStreamDepth => r matches Err(
                    ConnectionError::CreateStreamDepth,
                ),
                _ => false,
            }
        },
    }
}

} // verus!
