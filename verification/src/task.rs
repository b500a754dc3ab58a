//! The order in which the task of a connection does its work: it identifies
//! its client, registers with the broker, serves the stream and unregisters.
//!
//! The task's owner does the waiting: it carries out what the task asks for
//! and reports back what came of it. Whatever is reported, a connection that
//! the broker has registered is unregistered before its task ends or
//! identifies its client anew.

use crate::connection::RtmpCtrlAction;
use crate::error::ServiceError;
use crate::message::request::{Request, RequestView};
use crate::rtmp_service::{goes_on, role_for, role_of};
use crate::statistic::{ConnStat, ConnStatView};
use crate::stream::error::StreamError;
use crate::stream::{RegisterEv, RoleType, Token, UnregisterEv};
use vstd::prelude::*;

verus! {

/// Where the task of a connection stands.
#[derive(Debug, Clone, Copy, PartialEq, Eq, Structural)]
pub enum Stage {
    /// The client is being identified, and its role is being begun.
    Identifying,
    /// The registration is with the broker.
    Registering,
    /// The connection is registered, and its stream is being served.
    Serving,
    /// The task has ended.
    Ended,
}

/// What the owner of a task reports back to it.
#[derive(Debug)]
pub enum Event {
    /// The client is identified, by this request, and its role has begun.
    Identified(Request),
    /// The broker's answer to the registration.
    Answered(Token),
    /// The broker could not be reached or gave no answer, as these words
    /// say.
    Unanswered(String),
    /// The stream was served until the peer asked for this, or left.
    Served(Option<RtmpCtrlAction>),
    /// What was under way has failed.
    Failed(ServiceError),
}

/// What the owner of a task is to do next.
#[derive(Debug)]
pub enum Next {
    /// Identify the client and begin its role.
    Identify,
    /// Send this registration to the broker and wait for the answer.
    Register(RegisterEv),
    /// Serve the stream with this token.
    Serve(Token),
    /// End the task with this result.
    Finish(Result<(), ServiceError>),
}

/// What a task asks of its owner after an event, in this order.
#[derive(Debug)]
pub struct Turn {
    /// The connection's first counts, for the statistics, where the broker
    /// has registered it.
    pub created: Option<ConnStat>,
    /// The event with which the connection unregisters, for the broker, and
    /// its last counts, for the statistics.
    pub left: Option<(UnregisterEv, ConnStat)>,
    pub next: Next,
}

/// What a task decides after an event: a [`Turn`] without the last counts,
/// which the connection's service has.
pub struct Advance {
    pub created: Option<ConnStat>,
    pub left: Option<UnregisterEv>,
    pub next: Next,
}

/// The stage of a task, and the request that it serves.
pub struct Task {
    stage: Stage,
    req: Option<Request>,
}

/// What a [`Task`] stands for.
pub struct TaskView {
    pub stage: Stage,
    /// The request by which the client was last identified.
    pub req: Option<RequestView>,
}

impl View for Task {
    type V = TaskView;

    closed spec fn view(&self) -> TaskView {
        TaskView {
            stage: self.stage,
            req: match self.req {
                Some(r) => Some(r@),
                None => None,
            },
        }
    }
}

/// Whether the broker's answer is what a connection in this role needs: a
/// hub for a publisher, leave to subscribe for a subscriber.
pub open spec fn fits(token: Token, role: RoleType) -> bool {
    match token {
        Token::PublisherToken(_) => role == RoleType::Publisher,
        Token::SubscriberToken => role == RoleType::Subscriber,
        Token::Failure(_) => false,
    }
}

/// Whether the connection is identified anew after its stream has ended
/// with `action`: after a republish and after a close.
pub open spec fn continues(action: Option<RtmpCtrlAction>) -> bool {
    action == Some(RtmpCtrlAction::Republish) || action == Some(RtmpCtrlAction::Close)
}

impl TaskView {
    /// A task that has identified no client yet.
    pub open spec fn begun() -> TaskView {
        TaskView { stage: Stage::Identifying, req: None }
    }

    /// A task that registers or serves has identified its client.
    pub open spec fn wf(self) -> bool {
        self.stage is Registering || self.stage is Serving ==> self.req is Some
    }

    /// The role in which the connection registers: that of its request.
    pub open spec fn role(self) -> RoleType {
        match self.req {
            Some(r) => role_of(r.conn_type),
            None => RoleType::Subscriber,
        }
    }

    /// Whether the task, as it stands, waits for this event.
    pub open spec fn awaits(self, event: Event) -> bool {
        match event {
            Event::Identified(_) => self.stage is Identifying,
            Event::Answered(_) => self.stage is Registering,
            Event::Unanswered(_) => self.stage is Registering,
            Event::Served(_) => self.stage is Serving,
            Event::Failed(_) => true,
        }
    }

    /// Whether the event tells of a registration that the broker granted.
    pub open spec fn registers(self, event: Event) -> bool {
        &&& self.awaits(event)
        &&& event matches Event::Answered(token)
        &&& !(token is Failure)
    }

    /// Whether the connection unregisters after the event: whenever it is
    /// registered and the event ends the serving of its stream, and also
    /// where the broker has just registered it with a token that does not
    /// fit its role.
    pub open spec fn unregisters(self, event: Event) -> bool {
        if self.registers(event) {
            !fits(event->Answered_0, self.role())
        } else {
            self.stage is Serving
        }
    }

    /// The stage after the event. An event that the task does not wait for
    /// ends it, as a failure does.
    pub open spec fn stage_after(self, event: Event) -> Stage {
        if !self.awaits(event) {
            Stage::Ended
        } else {
            match event {
                Event::Identified(_) => Stage::Registering,
                Event::Answered(token) => if fits(token, self.role()) {
                    Stage::Serving
                } else {
                    Stage::Ended
                },
                Event::Unanswered(_) => Stage::Ended,
                Event::Served(action) => if continues(action) {
                    Stage::Identifying
                } else {
                    Stage::Ended
                },
                Event::Failed(_) => Stage::Ended,
            }
        }
    }

    /// The task after the event.
    pub open spec fn after(self, event: Event) -> TaskView {
        TaskView {
            stage: self.stage_after(event),
            req: match event {
                Event::Identified(r) => if self.awaits(event) {
                    Some(r@)
                } else {
                    self.req
                },
                _ => self.req,
            },
        }
    }

    /// The task after the events, one after the other.
    pub open spec fn after_all(self, events: Seq<Event>) -> TaskView
        decreases events.len(),
    {
        if events.len() == 0 {
            self
        } else {
            self.after_all(events.drop_last()).after(events.last())
        }
    }

    /// How many more registrations than unregistrations the events bring.
    pub open spec fn registrations(self, events: Seq<Event>) -> int
        decreases events.len(),
    {
        if events.len() == 0 {
            0
        } else {
            let before = self.after_all(events.drop_last());
            self.registrations(events.drop_last()) + if before.registers(events.last()) {
                1int
            } else {
                0int
            } - if before.unregisters(events.last()) {
                1int
            } else {
                0int
            }
        }
    }

    /// What the task owes its owner after the event, but for the last
    /// counts: `uid` is the connection's identity.
    ///
    /// An identified client is registered. A registration that the broker
    /// grants is reported to the statistics, and the stream is served; one
    /// that it refuses, or does not answer, ends the task with
    /// `RegisterFailed` and the reason, and nothing is reported or
    /// unregistered. A granted token that does not fit the connection's role
    /// ends the task with `InvalidToken`. When the serving of the stream
    /// ends, the connection unregisters; after a republish or a close the
    /// client is then identified anew, else the task ends. A failure ends
    /// the task with its error, and so does an event that the task does not
    /// wait for, with `InvalidToken`.
    pub open spec fn owes(self, uid: Seq<char>, event: Event, r: Advance) -> bool {
        &&& r.created is Some <==> self.registers(event)
        &&& r.created matches Some(stat) ==> {
            &&& self.req matches Some(req)
            &&& stat@ == ConnStatView::begun(req.app_stream(), req.conn_type, stat.conn_time)
        }
        &&& r.left is Some <==> self.unregisters(event)
        &&& r.left matches Some(ev) ==> {
            &&& self.req matches Some(req)
            &&& ev.uid@ == uid
            &&& ev.stream_key@ == req.app_stream()
            &&& ev.role == role_of(req.conn_type)
        }
        &&& match self.stage_after(event) {
            Stage::Identifying => r.next is Identify,
            Stage::Registering => {
                &&& r.next matches Next::Register(ev)
                &&& event matches Event::Identified(req)
                &&& ev.uid@ == uid
                &&& ev.stream_key@ == req@.app_stream()
                &&& ev.role == role_of(req@.conn_type)
            },
            Stage::Serving => r.next matches Next::Serve(token) && event == Event::Answered(token),
            Stage::Ended => r.next matches Next::Finish(result) && if !self.awaits(event) {
                result matches Err(ServiceError::InvalidToken)
            } else {
                match event {
                    Event::Answered(Token::Failure(e)) => result matches Err(
                        ServiceError::RegisterFailed(reason),
                    ) && reason@ == e.text(),
                    Event::Unanswered(why) => result matches Err(
                        ServiceError::RegisterFailed(reason),
                    ) && reason@ == why@,
                    Event::Failed(e) => result matches Err(x) && x == e,
                    Event::Served(_) => result is Ok,
                    _ => result matches Err(ServiceError::InvalidToken),
                }
            },
        }
    }
}

/// A registered connection is unregistered, once, before its task ends or
/// identifies its client anew; and none is unregistered that is not
/// registered.
///
/// Let a task that is not serving a stream get any events, in any order.
/// Then the registrations that the broker granted are one more than the
/// unregistrations while the task serves a stream, and as many at every
/// other stage: when it has ended, whether in order or with a failure, and
/// when it identifies its client again.
pub proof fn lemma_unregister_follows(t: TaskView, events: Seq<Event>)
    requires
        !(t.stage is Serving),
    ensures
        t.registrations(events) == if t.after_all(events).stage is Serving {
            1int
        } else {
            0int
        },
    decreases events.len(),
{
    if events.len() > 0 {
        lemma_unregister_follows(t, events.drop_last());
    }
}

/// A registration that the broker refuses is not reported to the
/// statistics and not followed by an unregistration, whatever comes after
/// it: the task has ended, and stays so.
pub proof fn lemma_refused_stays_out(t: TaskView, e: StreamError, events: Seq<Event>)
    requires
        t.stage is Registering,
    ensures
        !t.registers(Event::Answered(Token::Failure(e))),
        !t.unregisters(Event::Answered(Token::Failure(e))),
        t.after(Event::Answered(Token::Failure(e))).after_all(events).stage is Ended,
        t.after(Event::Answered(Token::Failure(e))).registrations(events) == 0,
    decreases events.len(),
{
    if events.len() > 0 {
        lemma_refused_stays_out(t, e, events.drop_last());
    }
}

impl Task {
    pub open spec fn wf(&self) -> bool {
        self@.wf()
    }

    /// A task that has identified no client yet.
    pub fn new() -> (r: Self)
        ensures
            r.wf(),
            r@ == TaskView::begun(),
    {
        Task { stage: Stage::Identifying, req: None }
    }

    /// Where the task stands.
    pub fn stage(&self) -> (r: Stage)
        ensures
            r == self@.stage,
    {
        self.stage
    }

    /// The request by which the client was last identified.
    pub fn request(&self) -> (r: Option<&Request>)
        ensures
            match r {
                Some(req) => self@.req == Some(req@),
                None => self@.req is None,
            },
    {
        match &self.req {
            Some(r) => Some(r),
            None => None,
        }
    }

    /// Takes what the task's owner reports, for the connection of the
    /// identity `uid`, and says what is to be done next.
    pub fn advance(&mut self, uid: &str, event: Event) -> (r: Advance)
        requires
            old(self).wf(),
        ensures
            final(self).wf(),
            final(self)@ == old(self)@.after(event),
            old(self)@.owes(uid@, event, r),
    {
        let registered = match self.stage {
            Stage::Serving => true,
            _ => false,
        };
        let mut created: Option<ConnStat> = None;
        let mut left: Option<UnregisterEv> = None;
        let next = match (self.stage, event, &self.req) {
            (Stage::Identifying, Event::Identified(req), _) => {
                let ev = RegisterEv {
                    uid: uid.to_owned(),
                    stream_key: req.app_stream(),
                    role: role_for(&req.conn_type),
                };
                self.req = Some(req);
                self.stage = Stage::Registering;
                return Advance { created, left, next: Next::Register(ev) };
            },
            (Stage::Registering, Event::Answered(Token::Failure(e)), Some(_)) => Next::Finish(
                Err(ServiceError::RegisterFailed(e.message().to_owned())),
            ),
            (Stage::Registering, Event::Answered(token), Some(req)) => {
                created = Some(ConnStat::new(req.app_stream(), req.conn_type));
                let publishes = req.conn_type.is_publish();
                let fit = match &token {
                    Token::PublisherToken(_) => publishes,
                    Token::SubscriberToken => !publishes,
                    Token::Failure(_) => false,
                };
                if fit {
                    self.stage = Stage::Serving;
                    return Advance { created, left, next: Next::Serve(token) };
                }
                left = Some(Self::leave(uid, req));
                Next::Finish(Err(ServiceError::InvalidToken))
            },
            (Stage::Registering, Event::Unanswered(why), _) => Next::Finish(
                Err(ServiceError::RegisterFailed(why)),
            ),
            (Stage::Serving, Event::Served(action), Some(req)) => {
                left = Some(Self::leave(uid, req));
                if goes_on(action) {
                    self.stage = Stage::Identifying;
                    return Advance { created, left, next: Next::Identify };
                }
                Next::Finish(Ok(()))
            },
            (_, Event::Failed(e), held) => {
                if registered {
                    if let Some(req) = held {
                        left = Some(Self::leave(uid, req));
                    }
                }
                Next::Finish(Err(e))
            },
            (_, _, held) => {
                if registered {
                    if let Some(req) = held {
                        left = Some(Self::leave(uid, req));
                    }
                }
                Next::Finish(Err(ServiceError::InvalidToken))
            },
        };
        self.stage = Stage::Ended;
        Advance { created, left, next }
    }

    /// The event with which the connection of the identity `uid` unregisters
    /// for `req`.
    fn leave(uid: &str, req: &Request) -> (ev: UnregisterEv)
        ensures
            ev.uid@ == uid@,
            ev.stream_key@ == req@.app_stream(),
            ev.role == role_of(req@.conn_type),
    {
        UnregisterEv {
            uid: uid.to_owned(),
            stream_key: req.app_stream(),
            role: role_for(&req.conn_type),
        }
    }
}

} // verus!
