//! The client's side of a connection, as origin-pull needs it: connect to an
//! application upstream, create a stream, and play it.

use crate::amf::{number_as_u32, number_to_u32, values_view, Amf0Value, Amf0View};
use crate::connection::context::{Context, ContextView};
use crate::connection::error::ConnectionError;
use crate::connection::server::{OUT_CHUNK_SIZE, WINDOW_ACK_SIZE};
use crate::connection::RtmpConnType;
use crate::message::request::{Request, RequestView};
use crate::message::types::amf0_command_type::COMMAND_RESULT;
use crate::message::types::user_ctrl_ev_type::SET_BUFFER_LENGTH;
use crate::message::types::DEFAULT_SID;
use crate::message::{messages_view, same_text, MessageView, RtmpMessage};
use vstd::prelude::*;

verus! {

/// The buffer length, in milliseconds, that the client asks for.
pub const BUFFER_LENGTH: u32 = 1000;

/// Where a client stands.
#[derive(Debug, Clone, Copy, PartialEq, Eq, Structural)]
pub enum ClientPhase {
    /// Nothing was sent.
    Start,
    /// `connect` was sent; waiting for its result.
    AwaitConnect,
    /// `createStream` was sent; waiting for its result.
    AwaitStream,
    /// The stream is created, and may be played.
    Ready,
}

pub struct Client {
    ctx: Context,
    pub req: Request,
    phase: ClientPhase,
}

/// What a [`Client`] stands for.
pub struct ClientView {
    pub ctx: ContextView,
    pub req: RequestView,
    pub phase: ClientPhase,
}

impl View for Client {
    type V = ClientView;

    closed spec fn view(&self) -> ClientView {
        ClientView { ctx: self.ctx@, req: self.req@, phase: self.phase }
    }
}

/// The message is the result of a call.
pub open spec fn is_result(msg: MessageView) -> bool {
    msg matches MessageView::Amf0Command { command_name, .. } && command_name == COMMAND_RESULT@
}

/// The id of the stream that a result of `createStream` brings: its first
/// argument if that is a number, else 1.
pub open spec fn created_stream(msg: MessageView) -> u32 {
    let args = msg->Amf0Command_additional_arguments;
    if args.len() > 0 && args[0] is Number {
        number_to_u32(args[0]->Number_0)
    } else {
        DEFAULT_SID
    }
}

/// What the client sends to play `stream` on the stream `stream_id`.
pub open spec fn play_messages(stream: Seq<char>, stream_id: u32) -> Seq<MessageView> {
    seq![
        MessageView::play_stream(stream),
        MessageView::UserControl {
            event_type: SET_BUFFER_LENGTH,
            event_data: stream_id,
            extra_data: BUFFER_LENGTH,
        },
        MessageView::SetChunkSize { chunk_size: OUT_CHUNK_SIZE },
    ]
}

/// What a step of the client gives.
#[derive(Debug)]
pub struct ClientStep {
    /// What is to be sent.
    pub replies: Vec<RtmpMessage>,
    /// The id of the stream, once it is created.
    pub stream_id: Option<u32>,
}

impl ClientView {
    /// A step of connecting: what is sent, the phase afterwards, and the id
    /// of the stream once it is created.
    ///
    /// The result of `connect` is followed by the window acknowledgement
    /// size and `createStream`; the result of `createStream` brings the
    /// stream's id. Every other message is passed over.
    pub open spec fn connecting(self, msg: MessageView) -> (Seq<MessageView>, ClientPhase, Option<u32>) {
        if !is_result(msg) {
            (Seq::empty(), self.phase, None)
        } else if self.phase == ClientPhase::AwaitConnect {
            (
                seq![
                    MessageView::SetWindowAckSize { ack_window_size: WINDOW_ACK_SIZE },
                    MessageView::create_stream(),
                ],
                ClientPhase::AwaitStream,
                None,
            )
        } else if self.phase == ClientPhase::AwaitStream {
            (Seq::empty(), ClientPhase::Ready, Some(created_stream(msg)))
        } else {
            (Seq::empty(), self.phase, None)
        }
    }
}

impl Client {
    pub closed spec fn wf(&self) -> bool {
        self.ctx.wf()
    }

    /// A client that is to play `stream` from the application at `tc_url`,
    /// over a connection whose handshake is done.
    ///
    /// Fails with `InvalidTcurl`, and only so, where `tc_url` is no URL.
    pub fn new(ctx: Context, tc_url: String, stream: String) -> (r: Result<Self, ConnectionError>)
        requires
            ctx.wf(),
        ensures
            match r {
                Ok(c) => {
                    &&& c.wf()
                    &&& RequestView::parsed(tc_url@) matches Some(req)
                    &&& c@ == (ClientView {
                        ctx: ctx@,
                        req: RequestView { stream: Some(stream@), ..req },
                        phase: ClientPhase::Start,
                    })
                },
                Err(e) => e is InvalidTcurl && RequestView::parsed(tc_url@) is None,
            },
    {
        let mut req = match Request::parse_from(tc_url) {
            Ok(r) => r,
            Err(e) => {
                return Err(ConnectionError::InvalidTcurl(e));
            },
        };
        req.stream = Some(stream);
        Ok(Client { ctx, req, phase: ClientPhase::Start })
    }

    /// The connection's bookkeeping, for receiving and sending.
    pub fn ctx(&mut self) -> (r: &mut Context)
        requires
            old(self).wf(),
        ensures
            r.wf(),
            r@ == old(self)@.ctx,
            final(r).wf() ==> final(self).wf(),
            final(self)@ == (ClientView { ctx: final(r)@, ..old(self)@ }),
    {
        &mut self.ctx
    }

    pub fn get_recv_bytes(&self) -> (n: u64)
        ensures
            n == self@.ctx.codec.io.recv_bytes,
    {
        self.ctx.get_recv_bytes()
    }

    pub fn get_send_bytes(&self) -> (n: u64)
        ensures
            n == self@.ctx.codec.io.send_bytes,
    {
        self.ctx.get_send_bytes()
    }

    pub fn get_audio_count(&self) -> (n: u64)
        ensures
            n == self@.ctx.in_audio_count,
    {
        self.ctx.get_in_audio_count()
    }

    pub fn get_video_count(&self) -> (n: u64)
        ensures
            n == self@.ctx.in_video_count,
    {
        self.ctx.get_in_video_count()
    }

    /// Begins to connect as the client `uid`: says what is to be sent.
    pub fn connect(&mut self, uid: String) -> (r: Vec<RtmpMessage>)
        requires
            old(self).wf(),
        ensures
            final(self).wf(),
            messages_view(r@) == seq![MessageView::connect_app(old(self)@.req, uid@)],
            final(self)@ == (ClientView { phase: ClientPhase::AwaitConnect, ..old(self)@ }),
    {
        let msg = RtmpMessage::new_connect_app(&self.req, uid);
        let mut r: Vec<RtmpMessage> = Vec::new();
        r.push(msg);
        assert(messages_view(r@) =~= seq![msg@]);
        self.phase = ClientPhase::AwaitConnect;
        r
    }

    /// A step of connecting: takes a message that arrived and says what is
    /// to be sent; once the stream is created, hands out its id.
    pub fn on_message(&mut self, msg: &RtmpMessage) -> (r: ClientStep)
        requires
            old(self).wf(),
        ensures
            final(self).wf(),
            (messages_view(r.replies@), final(self)@.phase, r.stream_id) == old(self)@.connecting(
                msg@,
            ),
            final(self)@ == (ClientView { phase: final(self)@.phase, ..old(self)@ }),
    {
        if let RtmpMessage::Amf0Command { command_name, additional_arguments, .. } = msg {
            if same_text(command_name.as_str(), COMMAND_RESULT) {
                match self.phase {
                    ClientPhase::AwaitConnect => {
                        let mut replies: Vec<RtmpMessage> = Vec::new();
                        replies.push(
                            RtmpMessage::SetWindowAckSize { ack_window_size: WINDOW_ACK_SIZE },
                        );
                        replies.push(RtmpMessage::new_create_stream());
                        assert(messages_view(replies@) =~= seq![
                            MessageView::SetWindowAckSize { ack_window_size: WINDOW_ACK_SIZE },
                            MessageView::create_stream(),
                        ]);
                        self.phase = ClientPhase::AwaitStream;
                        return ClientStep { replies, stream_id: None };
                    },
                    ClientPhase::AwaitStream => {
                        let mut sid = DEFAULT_SID;
                        if additional_arguments.len() > 0 {
                            assert(values_view(additional_arguments@)[0]
                                == additional_arguments@[0]@);
                            if let Amf0Value::Number(n) = &additional_arguments[0] {
                                sid = number_as_u32(*n);
                            }
                        }
                        self.phase = ClientPhase::Ready;
                        let replies: Vec<RtmpMessage> = Vec::new();
                        assert(messages_view(replies@) =~= Seq::<MessageView>::empty());
                        return ClientStep { replies, stream_id: Some(sid) };
                    },
                    _ => {},
                }
            }
        }
        let replies: Vec<RtmpMessage> = Vec::new();
        assert(messages_view(replies@) =~= Seq::<MessageView>::empty());
        ClientStep { replies, stream_id: None }
    }

    /// Plays the stream that the client was made for: says what is to be
    /// sent, the first message on the message stream `stream_id`.
    pub fn play(&self, stream_id: u32) -> (r: Vec<RtmpMessage>)
        ensures
            messages_view(r@) == play_messages(
                match self@.req.stream {
                    Some(s) => s,
                    None => Seq::empty(),
                },
                stream_id,
            ),
    {
        let stream = match &self.req.stream {
            Some(s) => s.clone(),
            None => String::new(),
        };
        let ghost name = stream@;
        let mut r: Vec<RtmpMessage> = Vec::new();
        r.push(RtmpMessage::new_play_stream(stream));
        r.push(
            RtmpMessage::UserControl {
                event_type: SET_BUFFER_LENGTH,
                event_data: stream_id,
                extra_data: BUFFER_LENGTH,
            },
        );
        r.push(RtmpMessage::SetChunkSize { chunk_size: OUT_CHUNK_SIZE });
        assert(messages_view(r@) =~= play_messages(name, stream_id));
        r
    }
}

} // verus!
