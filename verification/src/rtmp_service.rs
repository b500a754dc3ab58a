//! What the task of an RTMP connection decides, event by event: the order
//! in which it identifies its client, registers with the broker, serves the
//! stream and unregisters, and what it does with what arrives while it plays
//! or publishes.

use crate::connection::context::ContextView;
use crate::connection::error::ConnectionError;
use crate::connection::server::{Server, ServerView};
use crate::connection::{RtmpConnType, RtmpCtrlAction};
use crate::error::ServiceError;
use crate::merge::{optional_batch, Merge, MergeView};
use crate::message::request::{Request, RequestView};
use crate::message::{messages_view, MessageView, RtmpMessage};
use crate::statistic::{ConnStat, ConnStatView};
use crate::stream::error::StreamError;
use crate::stream::hub::{pending_view, Hub, HubEvent, HubReply, HubView};
use crate::stream::{RegisterEv, RoleType, Token, UnregisterEv};
use crate::task::{Advance, Event, Stage, Task, TaskView, Turn};
use crate::utils::gen_uid;
use vstd::prelude::*;

verus! {

/// Seconds between two reports of a connection's counts.
pub const CONN_PRINT_INTVAL: u64 = 5;

pub struct RtmpService {
    uid: String,
    rtmp: Server,
    pause: bool,
    merge: Merge,
    task: Task,
}

/// What an [`RtmpService`] stands for.
pub struct ServiceView {
    pub uid: Seq<char>,
    pub rtmp: ServerView,
    /// Whether the player has paused the delivery.
    pub pause: bool,
    pub merge: MergeView,
    /// Where the task stands, and the request that it serves.
    pub task: TaskView,
}

impl View for RtmpService {
    type V = ServiceView;

    closed spec fn view(&self) -> ServiceView {
        ServiceView {
            uid: self.uid@,
            rtmp: self.rtmp@,
            pause: self.pause,
            merge: self.merge@,
            task: self.task@,
        }
    }
}

impl ServiceView {
    /// The counts of the connection as they stand, for a connection that
    /// began at `conn_time`.
    pub open spec fn counts(self, req: RequestView, conn_time: u32) -> ConnStatView {
        counted(self.rtmp, req, conn_time)
    }
}

/// The counts of a connection that began at `conn_time`, as its server has
/// them: the bytes received and sent, and the audio and video messages that
/// came in, for a publisher, or went out, for a player.
pub open spec fn counted(rtmp: ServerView, req: RequestView, conn_time: u32) -> ConnStatView {
    ConnStatView {
        recv_bytes: rtmp.ctx.codec.io.recv_bytes,
        send_bytes: rtmp.ctx.codec.io.send_bytes,
        audio_count: if req.conn_type.publishes() {
            rtmp.ctx.in_audio_count
        } else {
            rtmp.ctx.out_audio_count
        },
        video_count: if req.conn_type.publishes() {
            rtmp.ctx.in_video_count
        } else {
            rtmp.ctx.out_video_count
        },
        ..ConnStatView::begun(req.app_stream(), req.conn_type, conn_time)
    }
}

/// The counts of a connection as they stand.
fn counts_of(rtmp: &mut Server, req: &Request) -> (stat: ConnStat)
    requires
        old(rtmp).wf(),
    ensures
        final(rtmp).wf(),
        final(rtmp)@ == old(rtmp)@,
        stat@ == counted(old(rtmp)@, req@, stat.conn_time),
{
    let mut conn = ConnStat::new(req.app_stream(), req.conn_type);
    let publishes = req.conn_type.is_publish();
    let ctx = rtmp.ctx();
    conn.recv_bytes = ctx.get_recv_bytes();
    conn.send_bytes = ctx.get_send_bytes();
    if publishes {
        conn.audio_count = ctx.get_in_audio_count();
        conn.video_count = ctx.get_in_video_count();
    } else {
        conn.audio_count = ctx.get_out_audio_count();
        conn.video_count = ctx.get_out_video_count();
    }
    conn
}

/// The role in which a connection of this type registers.
pub open spec fn role_of(conn_type: RtmpConnType) -> RoleType {
    if conn_type.publishes() {
        RoleType::Publisher
    } else {
        RoleType::Subscriber
    }
}

/// The role in which a connection of this type registers.
pub fn role_for(conn_type: &RtmpConnType) -> (r: RoleType)
    ensures
        r == role_of(*conn_type),
{
    if conn_type.is_publish() {
        RoleType::Publisher
    } else {
        RoleType::Subscriber
    }
}

/// Whether the connection is identified anew after its stream has ended
/// with `action`: after a republish and after a close.
pub fn goes_on(action: Option<RtmpCtrlAction>) -> (r: bool)
    ensures
        r == (action == Some(RtmpCtrlAction::Republish) || action == Some(RtmpCtrlAction::Close)),
{
    match action {
        Some(RtmpCtrlAction::Republish) | Some(RtmpCtrlAction::Close) => true,
        _ => false,
    }
}

/// What the task does with a message while it publishes.
#[derive(Debug)]
pub struct Published {
    /// What is to be sent to the publisher.
    pub replies: Vec<RtmpMessage>,
    /// What the publisher asks for; if anything, publishing ends.
    pub action: Option<RtmpCtrlAction>,
    /// The batch that is to go to every subscriber.
    pub batch: Option<Vec<RtmpMessage>>,
}

/// No messages.
fn nothing() -> (r: Vec<RtmpMessage>)
    ensures
        messages_view(r@) == Seq::<MessageView>::empty(),
{
    let r: Vec<RtmpMessage> = Vec::new();
    assert(messages_view(r@) =~= Seq::<MessageView>::empty());
    r
}

/// What a publisher's message does to the hub, and the batch that is to go
/// to every subscriber: metadata is kept and goes out at once, audio and
/// video go through the merge buffer, and nothing else reaches the hub.
pub open spec fn hub_takes(h: HubView, msg: MessageView) -> (HubView, Option<Seq<MessageView>>) {
    if msg.is_metadata() {
        (h.on_metadata(msg), Some(seq![msg]))
    } else if msg.timestamp() is Some {
        (h.on_frame(msg), h.flushed(msg))
    } else {
        (h, None)
    }
}

/// Hands a publisher's message to the hub.
pub fn feed_hub(hub: &mut Hub, msg: RtmpMessage) -> (r: Result<
    Option<Vec<RtmpMessage>>,
    ServiceError,
>)
    requires
        old(hub).wf(),
    ensures
        final(hub).wf(),
        r matches Ok(batch) && (final(hub)@, optional_batch(batch)) == hub_takes(old(hub)@, msg@),
{
    match &msg {
        RtmpMessage::Amf0Data { .. } => {
            if msg.is_metadata() {
                match hub.on_metadata(msg) {
                    Ok(batch) => Ok(Some(batch)),
                    Err(e) => Err(ServiceError::HubError(e)),
                }
            } else {
                Ok(None)
            }
        },
        RtmpMessage::VideoData { .. } => match hub.on_frame(msg) {
            Ok(batch) => Ok(batch),
            Err(e) => Err(ServiceError::HubError(e)),
        },
        RtmpMessage::AudioData { .. } => match hub.on_frame(msg) {
            Ok(batch) => Ok(batch),
            Err(e) => Err(ServiceError::HubError(e)),
        },
        _ => Ok(None),
    }
}

impl RtmpService {
    pub closed spec fn wf(&self) -> bool {
        &&& self.rtmp.wf()
        &&& self.task.wf()
    }

    /// Well-formedness as the view shows it.
    pub proof fn lemma_wf_view(&self)
        requires
            self.wf(),
        ensures
            self@.task.wf(),
    {
    }

    /// Where the task stands.
    pub fn stage(&self) -> (r: Stage)
        ensures
            r == self@.task.stage,
    {
        self.task.stage()
    }

    /// The request by which the client was last identified.
    pub fn request(&self) -> (r: Option<&Request>)
        ensures
            match r {
                Some(req) => self@.task.req == Some(req@),
                None => self@.task.req is None,
            },
    {
        self.task.request()
    }

    /// The task of a connection whose handshake is done, under the identity
    /// `uid` or, without one, under a fresh identity.
    pub fn new(rtmp: Server, uid: Option<String>) -> (r: Self)
        requires
            rtmp.wf(),
        ensures
            r.wf(),
            r@.rtmp == rtmp@,
            !r@.pause,
            r@.merge == MergeView::empty(),
            r@.task == TaskView::begun(),
            uid matches Some(u) ==> r@.uid == u@,
    {
        let uid = match uid {
            Some(u) => u,
            None => gen_uid(),
        };
        RtmpService {
            uid,
            rtmp,
            pause: false,
            merge: Merge::new(),
            task: Task::new(),
        }
    }

    /// The connection's server, for receiving, sending and identifying.
    pub fn rtmp(&mut self) -> (r: &mut Server)
        requires
            old(self).wf(),
        ensures
            r.wf(),
            r@ == old(self)@.rtmp,
            final(r).wf() ==> final(self).wf(),
            final(self)@ == (ServiceView { rtmp: final(r)@, ..old(self)@ }),
    {
        &mut self.rtmp
    }

    /// The event with which the connection registers for `req`: under its
    /// identity, at the request's stream key, as a publisher or as a
    /// subscriber by the request's type.
    pub fn register(&self, req: &Request) -> (ev: RegisterEv)
        ensures
            ev.uid@ == self@.uid,
            ev.stream_key@ == req@.app_stream(),
            ev.role == role_of(req@.conn_type),
    {
        RegisterEv {
            uid: self.uid.clone(),
            stream_key: req.app_stream(),
            role: role_for(&req.conn_type),
        }
    }

    /// Takes the broker's answer to the registration: hands the token on,
    /// with the counts that the connection begins with.
    ///
    /// Fails with `RegisterFailed` and the broker's reason, and only so,
    /// where the broker refused.
    pub fn registered(&self, req: &Request, token: Token) -> (r: Result<
        (Token, ConnStat),
        ServiceError,
    >)
        ensures
            match token {
                Token::Failure(e) => r matches Err(ServiceError::RegisterFailed(reason))
                    && reason@ == e.text(),
                _ => {
                    &&& r matches Ok((t, stat))
                    &&& t == token
                    &&& stat@ == ConnStatView::begun(
                        req@.app_stream(),
                        req@.conn_type,
                        stat.conn_time,
                    )
                },
            },
    {
        if let Token::Failure(e) = &token {
            return Err(ServiceError::RegisterFailed(e.message().to_owned()));
        }
        Ok((token, ConnStat::new(req.app_stream(), req.conn_type)))
    }

    /// The counts of the connection as they stand.
    pub fn stat(&mut self, req: &Request) -> (stat: ConnStat)
        requires
            old(self).wf(),
        ensures
            final(self).wf(),
            final(self)@ == old(self)@,
            stat@ == old(self)@.counts(req@, stat.conn_time),
    {
        counts_of(&mut self.rtmp, req)
    }

    /// The event with which the connection unregisters for `req`.
    pub fn unregister(&self, req: &Request) -> (ev: UnregisterEv)
        ensures
            ev.uid@ == self@.uid,
            ev.stream_key@ == req@.app_stream(),
            ev.role == role_of(req@.conn_type),
    {
        UnregisterEv {
            uid: self.uid.clone(),
            stream_key: req.app_stream(),
            role: role_for(&req.conn_type),
        }
    }

    /// Takes a message of a player: a command is served, and a pause or its
    /// end is taken note of. Returns what is to be sent to the player.
    pub fn playing(&mut self, msg: RtmpMessage) -> (r: Result<Vec<RtmpMessage>, ServiceError>)
        requires
            old(self).wf(),
        ensures
            final(self).wf(),
            r matches Ok(replies),
            messages_view(r->Ok_0@) == old(self)@.rtmp.control(msg@).0,
            final(self)@ == (ServiceView {
                rtmp: old(self)@.rtmp.controlled(msg@),
                pause: match old(self)@.rtmp.control(msg@).1 {
                    Some(RtmpCtrlAction::Pause(p)) => p,
                    _ => old(self)@.pause,
                },
                ..old(self)@
            }),
    {
        match self.rtmp.process_amf_command(msg) {
            Ok(c) => {
                if let Some(RtmpCtrlAction::Pause(p)) = c.action {
                    self.pause = p;
                }
                Ok(c.replies)
            },
            Err(e) => Err(ServiceError::ConnectionError(e)),
        }
    }

    /// Takes what the player's queue handed out: a batch from the hub, or
    /// `None` once the queue is closed. Returns what is to be sent to the
    /// player, once the merge buffer goes out; while the player pauses, the
    /// batch is dropped.
    ///
    /// Fails with `PublishDone`, and only so, where the queue is closed.
    pub fn deliver(&mut self, msgs: Option<Vec<RtmpMessage>>) -> (r: Result<
        Option<Vec<RtmpMessage>>,
        ServiceError,
    >)
        requires
            old(self).wf(),
        ensures
            final(self).wf(),
            match msgs {
                None => r matches Err(ServiceError::PublishDone) && final(self)@ == old(self)@,
                Some(batch) => if old(self)@.pause {
                    r matches Ok(None) && final(self)@ == old(self)@
                } else {
                    &&& r matches Ok(out)
                    &&& optional_batch(out) == old(self)@.merge.flushed(messages_view(batch@))
                    &&& final(self)@ == (ServiceView {
                        merge: old(self)@.merge.gathered(messages_view(batch@)),
                        ..old(self)@
                    })
                },
            },
    {
        match msgs {
            Some(batch) => {
                if self.pause {
                    return Ok(None);
                }
                Ok(self.merge.gather(batch))
            },
            None => Err(ServiceError::PublishDone),
        }
    }

    /// Takes a message of a publisher: a command is served, and ends the
    /// publishing if it asks for anything; everything else goes to the hub.
    pub fn publishing(&mut self, hub: &mut Hub, msg: RtmpMessage) -> (r: Result<
        Published,
        ServiceError,
    >)
        requires
            old(self).wf(),
            old(hub).wf(),
        ensures
            final(self).wf(),
            final(hub).wf(),
            r matches Ok(p) && if msg@ is Amf0Command {
                &&& (messages_view(p.replies@), p.action) == old(self)@.rtmp.control(msg@)
                &&& p.batch is None
                &&& final(self)@ == (ServiceView {
                    rtmp: old(self)@.rtmp.controlled(msg@),
                    ..old(self)@
                })
                &&& final(hub)@ == old(hub)@
            } else {
                &&& messages_view(p.replies@) == Seq::<MessageView>::empty()
                &&& p.action is None
                &&& (final(hub)@, optional_batch(p.batch)) == hub_takes(old(hub)@, msg@)
                &&& final(self)@ == old(self)@
            },
    {
        if let RtmpMessage::Amf0Command { .. } = &msg {
            return match self.rtmp.process_amf_command(msg) {
                Ok(c) => Ok(Published { replies: c.replies, action: c.action, batch: None }),
                Err(e) => Err(ServiceError::ConnectionError(e)),
            };
        }
        match feed_hub(hub, msg) {
            Ok(batch) => Ok(Published { replies: nothing(), action: None, batch }),
            Err(e) => Err(e),
        }
    }

    /// Takes an event that reached the publisher's hub; `None` says that the
    /// broker is gone. Returns the hub's answer.
    ///
    /// Fails with `HubError(HubClosed)`, and only so, where the broker is
    /// gone.
    pub fn on_hub_event(hub: &mut Hub, ev: Option<HubEvent>) -> (r: Result<HubReply, ServiceError>)
        requires
            old(hub).wf(),
        ensures
            final(hub).wf(),
            match ev {
                None => r matches Err(ServiceError::HubError(StreamError::HubClosed))
                    && final(hub)@ == old(hub)@,
                Some(HubEvent::SubscriberJoin(uid)) => {
                    &&& r matches Ok(reply)
                    &&& reply.primer matches Some((who, batch))
                    &&& who@ == uid@
                    &&& messages_view(batch@) == old(hub)@.primer()
                    &&& pending_view(reply.pending) == old(hub)@.pending()
                    &&& final(hub)@ == old(hub)@.join(uid@)
                    &&& reply.subscribers == final(hub)@.subscribers.len()
                },
                Some(HubEvent::SubscriberLeave(uid)) => {
                    &&& r matches Ok(reply)
                    &&& reply.primer is None
                    &&& reply.pending is None
                    &&& final(hub)@ == old(hub)@.leave(uid@)
                    &&& reply.subscribers == final(hub)@.subscribers.len()
                },
            },
    {
        match hub.process_hub_ev(ev) {
            Ok(reply) => Ok(reply),
            Err(e) => Err(ServiceError::HubError(e)),
        }
    }

    /// Takes what the task's owner reports, and says what is to be done
    /// next: what the connection's task owes after the event, with the
    /// connection's counts as they stand where it unregisters. Whenever a
    /// registered connection's task ends or identifies its client anew, the
    /// connection unregisters first.
    pub fn run(&mut self, event: Event) -> (turn: Turn)
        requires
            old(self).wf(),
        ensures
            final(self).wf(),
            final(self)@ == (ServiceView { task: old(self)@.task.after(event), ..old(self)@ }),
            old(self)@.task.owes(
                old(self)@.uid,
                event,
                (Advance {
                    created: turn.created,
                    left: match turn.left {
                        Some((ev, _)) => Some(ev),
                        None => None,
                    },
                    next: turn.next,
                }),
            ),
            turn.left matches Some((_, stat)) ==> old(self)@.task.req matches Some(req) && stat@
                == old(self)@.counts(req, stat.conn_time),
    {
        let step = self.task.advance(self.uid.as_str(), event);
        let left = match step.left {
            Some(ev) => match self.task.request() {
                Some(req) => Some((ev, counts_of(&mut self.rtmp, req))),
                None => None,
            },
            None => None,
        };
        Turn { created: step.created, left, next: step.next }
    }
}

} // verus!
