//! What the task of an HTTP-FLV player decides: it subscribes like an RTMP
//! player and gets the same stream, wrapped into FLV tags. It registers and
//! unregisters in the order that every connection's task keeps.

use crate::connection::RtmpConnType;
use crate::error::ServiceError;
use crate::httpflv::{FlvTransmuxer, FlvView};
use crate::merge::{optional_batch, Merge, MergeView};
use crate::message::request::{Request, RequestView};
use crate::message::{messages_view, RtmpMessage};
use crate::statistic::{ConnStat, ConnStatView};
use crate::stream::{RegisterEv, RoleType, Token, UnregisterEv};
use crate::task::{Advance, Event, Task, TaskView, Turn};
use crate::text::{split_flv, split_flv_path};
use vstd::prelude::*;

verus! {

pub struct HttpFlvService {
    uid: String,
    flv_enc: FlvTransmuxer,
    merge: Merge,
    task: Task,
}

/// What an [`HttpFlvService`] stands for.
pub struct FlvServiceView {
    pub uid: Seq<char>,
    pub flv: FlvView,
    pub merge: MergeView,
    /// Where the task stands, and the request that it serves.
    pub task: TaskView,
}

impl View for HttpFlvService {
    type V = FlvServiceView;

    closed spec fn view(&self) -> FlvServiceView {
        FlvServiceView {
            uid: self.uid@,
            flv: self.flv_enc@,
            merge: self.merge@,
            task: self.task@,
        }
    }
}

/// The request that the URL of an HTTP player makes.
pub open spec fn flv_request(url: Seq<char>) -> Option<RequestView> {
    match RequestView::parsed(url) {
        None => None,
        Some(parsed) => match split_flv(parsed.path) {
            None => None,
            Some((path, stream)) => Some(
                RequestView {
                    path,
                    stream: Some(stream),
                    conn_type: RtmpConnType::FlvPlay,
                    ..parsed
                },
            ),
        },
    }
}

/// The counts of a player that began at `conn_time`, as its writer has
/// them: nothing received, and what was sent.
pub open spec fn flv_counted(flv: FlvView, req: RequestView, conn_time: u32) -> ConnStatView {
    ConnStatView {
        send_bytes: flv.send_bytes,
        audio_count: flv.audio_count,
        video_count: flv.video_count,
        ..ConnStatView::begun(req.app_stream(), req.conn_type, conn_time)
    }
}

/// The counts of a player as they stand.
fn flv_counts(flv: &mut FlvTransmuxer, req: &Request) -> (stat: ConnStat)
    ensures
        final(flv)@ == old(flv)@,
        stat@ == flv_counted(old(flv)@, req@, stat.conn_time),
{
    let mut conn = ConnStat::new(req.app_stream(), req.conn_type);
    conn.recv_bytes = 0;
    conn.send_bytes = flv.get_send_bytes();
    conn.audio_count = flv.get_audio_count();
    conn.video_count = flv.get_video_count();
    conn
}

impl HttpFlvService {
    pub fn new(uid: String) -> (r: Self)
        ensures
            r@ == (FlvServiceView {
                uid: uid@,
                flv: FlvView { header_written: false, send_bytes: 0, audio_count: 0, video_count: 0 },
                merge: MergeView::empty(),
                task: TaskView::begun(),
            }),
    {
        HttpFlvService {
            uid,
            flv_enc: FlvTransmuxer::new(),
            merge: Merge::new(),
            task: Task::new(),
        }
    }

    /// The request by which the player was identified.
    pub fn request(&self) -> (r: Option<&Request>)
        ensures
            match r {
                Some(req) => self@.task.req == Some(req@),
                None => self@.task.req is None,
            },
    {
        self.task.request()
    }

    /// Takes what the task's owner reports, and says what is to be done
    /// next: what the player's task owes after the event, with the player's
    /// counts as they stand where it unregisters. Whenever a registered
    /// player's task ends, the player unregisters first.
    pub fn step(&mut self, event: Event) -> (turn: Turn)
        requires
            old(self)@.task.wf(),
        ensures
            final(self)@.task.wf(),
            final(self)@ == (FlvServiceView { task: old(self)@.task.after(event), ..old(self)@ }),
            old(self)@.task.owes(
                old(self)@.uid,
                event,
                (Advance {
                    created: turn.created,
                    left: match turn.left {
                        Some((ev, _)) => Some(ev),
                        None => None,
                    },
                    next: turn.next,
                }),
            ),
            turn.left matches Some((_, stat)) ==> old(self)@.task.req matches Some(req) && stat@
                == flv_counted(old(self)@.flv, req, stat.conn_time),
    {
        let step = self.task.advance(self.uid.as_str(), event);
        let left = match step.left {
            Some(ev) => match self.task.request() {
                Some(req) => Some((ev, flv_counts(&mut self.flv_enc, req))),
                None => None,
            },
            None => None,
        };
        Turn { created: step.created, left, next: step.next }
    }

    /// The writer of the tags.
    pub fn flv(&mut self) -> (r: &mut FlvTransmuxer)
        ensures
            r@ == old(self)@.flv,
            final(self)@ == (FlvServiceView { flv: final(r)@, ..old(self)@ }),
    {
        &mut self.flv_enc
    }

    /// The request of a player that asked for the URL `url`: to play, over
    /// HTTP, the stream that the URL's path `/app/stream.flv` names.
    ///
    /// Fails with `ConnectionError(InvalidTcurl)`, and only so, where `url`
    /// is no URL or its path holds no slash.
    pub fn run(url: String) -> (r: Result<Request, ServiceError>)
        ensures
            match flv_request(url@) {
                Some(wanted) => r matches Ok(req) && req@ == wanted,
                None => r matches Err(
                    ServiceError::ConnectionError(
                        crate::connection::error::ConnectionError::InvalidTcurl(_),
                    ),
                ),
            },
    {
        let req = match Request::parse_from(url) {
            Ok(req) => req,
            Err(e) => {
                return Err(
                    ServiceError::ConnectionError(
                        crate::connection::error::ConnectionError::InvalidTcurl(e),
                    ),
                );
            },
        };
        match split_flv_path(req.path.as_str()) {
            Some((path, stream)) => Ok(
                Request {
                    ip: req.ip,
                    tc_url: req.tc_url,
                    path,
                    query: req.query,
                    stream: Some(stream),
                    conn_type: RtmpConnType::FlvPlay,
                    duration: req.duration,
                },
            ),
            None => Err(
                ServiceError::ConnectionError(
                    crate::connection::error::ConnectionError::InvalidTcurl(
                        crate::message::error::ReuquestError::ParseUrl,
                    ),
                ),
            ),
        }
    }

    /// The event with which the player registers for `req`: as a
    /// subscriber at the request's stream key.
    pub fn register(&self, req: &Request) -> (ev: RegisterEv)
        ensures
            ev.uid@ == self@.uid,
            ev.stream_key@ == req@.app_stream(),
            ev.role == RoleType::Subscriber,
    {
        RegisterEv { uid: self.uid.clone(), stream_key: req.app_stream(), role: RoleType::Subscriber }
    }

    /// Takes the broker's answer to the registration: hands the token on,
    /// with the counts that the player begins with.
    ///
    /// Fails with `RegisterFailed` and the broker's reason, and only so,
    /// where the broker refused.
    pub fn registered(&self, req: &Request, token: Token) -> (r: Result<
        (Token, ConnStat),
        ServiceError,
    >)
        ensures
            match token {
                Token::Failure(e) => r matches Err(ServiceError::RegisterFailed(reason))
                    && reason@ == e.text(),
                _ => {
                    &&& r matches Ok((t, stat))
                    &&& t == token
                    &&& stat@ == ConnStatView::begun(
                        req@.app_stream(),
                        req@.conn_type,
                        stat.conn_time,
                    )
                },
            },
    {
        if let Token::Failure(e) = &token {
            return Err(ServiceError::RegisterFailed(e.message().to_owned()));
        }
        Ok((token, ConnStat::new(req.app_stream(), req.conn_type)))
    }

    /// The event with which the player unregisters for `req`.
    pub fn unregister(&self, req: &Request) -> (ev: UnregisterEv)
        ensures
            ev.uid@ == self@.uid,
            ev.stream_key@ == req@.app_stream(),
            ev.role == RoleType::Subscriber,
    {
        UnregisterEv {
            uid: self.uid.clone(),
            stream_key: req.app_stream(),
            role: RoleType::Subscriber,
        }
    }

    /// The counts of the player as they stand.
    pub fn stat(&mut self, req: &Request) -> (stat: ConnStat)
        ensures
            final(self)@ == old(self)@,
            stat@ == flv_counted(old(self)@.flv, req@, stat.conn_time),
    {
        flv_counts(&mut self.flv_enc, req)
    }

    /// Takes what the player's queue handed out: a batch from the hub, or
    /// `None` once the queue is closed. Returns what is to be wrapped into
    /// tags, once the merge buffer goes out.
    ///
    /// Fails with `PublishDone`, and only so, where the queue is closed.
    pub fn playing(&mut self, msgs: Option<Vec<RtmpMessage>>) -> (r: Result<
        Option<Vec<RtmpMessage>>,
        ServiceError,
    >)
        ensures
            match msgs {
                None => r matches Err(ServiceError::PublishDone) && final(self)@ == old(self)@,
                Some(batch) => {
                    &&& r matches Ok(out)
                    &&& optional_batch(out) == old(self)@.merge.flushed(messages_view(batch@))
                    &&& final(self)@ == (FlvServiceView {
                        merge: old(self)@.merge.gathered(messages_view(batch@)),
                        ..old(self)@
                    })
                },
            },
    {
        match msgs {
            Some(batch) => Ok(self.merge.gather(batch)),
            None => Err(ServiceError::PublishDone),
        }
    }
}

} // verus!
