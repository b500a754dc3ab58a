//! The stream broker: which stream key has a publisher, and what becomes of
//! a connection that asks to publish or to subscribe.
//!
//! The broker decides; its owner carries the decisions out. Events reach it
//! one at a time, so no two registrations race.

use crate::stream::error::StreamError;
use crate::stream::hub::{Hub, HubEvent, HubView};
use crate::text::{
    distinct, index_of, join_path, lemma_index_from, names_view, position, split_key,
    split_stream_key,
};
use crate::utils::gen_uid;
use vstd::prelude::*;

pub mod error;
pub mod gop;
pub mod hub;

verus! {

#[derive(Debug, Clone, Copy, PartialEq, Eq, Structural)]
pub enum RoleType {
    Subscriber,
    Publisher,
}

/// What a connection gets for its registration.
#[derive(Debug)]
pub enum Token {
    Failure(StreamError),
    /// The hub of the stream, for the publisher to own.
    PublisherToken(Hub),
    /// Leave to subscribe: a delivery queue is to be set up for the
    /// subscriber.
    SubscriberToken,
}

#[derive(Debug)]
pub struct RegisterEv {
    pub uid: String,
    pub role: RoleType,
    pub stream_key: String,
}

#[derive(Debug)]
pub struct UnregisterEv {
    pub uid: String,
    pub role: RoleType,
    pub stream_key: String,
}

impl RegisterEv {
    pub fn new(uid: String, stream_key: String, role: RoleType) -> (r: Self)
        ensures
            r.uid == uid,
            r.stream_key == stream_key,
            r.role == role,
    {
        RegisterEv { uid, stream_key, role }
    }
}

impl UnregisterEv {
    pub fn new(uid: String, stream_key: String, role: RoleType) -> (r: Self)
        ensures
            r.uid == uid,
            r.stream_key == stream_key,
            r.role == role,
    {
        UnregisterEv { uid, role, stream_key }
    }
}

#[derive(Debug)]
pub enum StreamEvent {
    Register(RegisterEv),
    Unregister(UnregisterEv),
}

/// An origin-pull client to start: it plays `stream` from `tc_url` and
/// publishes what it gets into `hub` under `stream_key`.
#[derive(Debug)]
pub struct PullTask {
    pub uid: String,
    pub hub: Hub,
    pub tc_url: String,
    pub stream: String,
    pub stream_key: String,
}

/// The broker's answer to a registration.
#[derive(Debug)]
pub struct Registration {
    pub token: Token,
    /// The origin-pull client to start first.
    pub pull: Option<PullTask>,
    /// The event to hand to the hub of the stream.
    pub join: Option<HubEvent>,
}

/// What the broker's owner is to do after an event.
#[derive(Debug)]
pub enum Action {
    /// Answer the connection that registered.
    Reply(Registration),
    /// Hand the event to the hub of this stream key.
    Forward(String, HubEvent),
    /// Close the event channel to the hub of this stream key, which closes
    /// the queue of every subscriber.
    Close(String),
    /// Nothing: the stream key has no hub.
    Ignore,
}

pub struct Manager {
    keys: Vec<String>,
    publishers: Vec<String>,
    pull_address: String,
}

/// What a [`Manager`] stands for.
pub struct ManagerView {
    /// The stream keys that have a publisher.
    pub keys: Seq<Seq<char>>,
    /// The identity of the publisher of each key, in the order of `keys`.
    pub publishers: Seq<Seq<char>>,
    /// The upstream base URL of origin-pull.
    pub pull_address: Seq<char>,
}

impl View for Manager {
    type V = ManagerView;

    closed spec fn view(&self) -> ManagerView {
        ManagerView {
            keys: names_view(self.keys@),
            publishers: names_view(self.publishers@),
            pull_address: self.pull_address@,
        }
    }
}

impl ManagerView {
    /// Each key has one publisher, and no key is held twice.
    pub open spec fn wf(self) -> bool {
        &&& self.keys.len() == self.publishers.len()
        &&& distinct(self.keys)
    }

    /// The publisher registered at `key`.
    pub open spec fn publisher_of(self, key: Seq<char>) -> Option<Seq<char>> {
        match index_of(self.keys, key) {
            Some(i) => Some(self.publishers[i]),
            None => None,
        }
    }

    /// Whether a subscriber for `key` makes the broker pull the stream from
    /// upstream.
    pub open spec fn pulls(self, role: RoleType, key: Seq<char>) -> bool {
        role == RoleType::Subscriber && self.publisher_of(key) is None && split_key(key) is Some
    }

    /// The broker after `uid` registered at `key`, where an origin-pull
    /// client would get the identity `pull_uid`.
    ///
    /// A key that has a publisher keeps it. A publisher takes a free key. A
    /// subscriber at a free key makes the pull client its publisher.
    pub open spec fn register(
        self,
        uid: Seq<char>,
        role: RoleType,
        key: Seq<char>,
        pull_uid: Seq<char>,
    ) -> ManagerView {
        if self.publisher_of(key) is Some {
            self
        } else if role == RoleType::Publisher {
            ManagerView {
                keys: self.keys.push(key),
                publishers: self.publishers.push(uid),
                ..self
            }
        } else if split_key(key) is Some {
            ManagerView {
                keys: self.keys.push(key),
                publishers: self.publishers.push(pull_uid),
                ..self
            }
        } else {
            self
        }
    }

    /// The broker after a connection unregistered at `key`: a publisher
    /// frees the key.
    pub open spec fn unregister(self, role: RoleType, key: Seq<char>) -> ManagerView {
        match index_of(self.keys, key) {
            Some(i) => if role == RoleType::Publisher {
                ManagerView {
                    keys: self.keys.remove(i),
                    publishers: self.publishers.remove(i),
                    ..self
                }
            } else {
                self
            },
            None => self,
        }
    }
}

/// At no time does a stream key have more than one publisher.
///
/// In a well-formed broker a key stands at one place at most, with one
/// publisher; and registering and unregistering keep the broker well formed.
pub proof fn lemma_one_publisher(
    m: ManagerView,
    uid: Seq<char>,
    role: RoleType,
    key: Seq<char>,
    pull_uid: Seq<char>,
)
    requires
        m.wf(),
    ensures
        forall|i: int, j: int|
            0 <= i < m.keys.len() && 0 <= j < m.keys.len() && m.keys[i] == m.keys[j] ==> i == j,
        m.register(uid, role, key, pull_uid).wf(),
        m.unregister(role, key).wf(),
        m.publisher_of(key) is Some ==> m.register(uid, role, key, pull_uid) == m,
{
    lemma_index_from(m.keys, key, 0);
    assert forall|i: int, j: int|
        0 <= i < m.keys.len() && 0 <= j < m.keys.len() && m.keys[i] == m.keys[j] implies i
        == j by {
        if i < j {
            assert(m.keys[i] != m.keys[j]);
        } else if j < i {
            assert(m.keys[j] != m.keys[i]);
        }
    }
}

impl Manager {
    pub closed spec fn wf(&self) -> bool {
        self@.wf()
    }

    /// Well-formedness as the view shows it.
    pub proof fn lemma_wf_view(&self)
        requires
            self.wf(),
        ensures
            self@.wf(),
    {
    }

    /// A broker without streams, which pulls from `pull_address`.
    pub fn new(pull_address: String) -> (r: Self)
        ensures
            r.wf(),
            r@ == (ManagerView {
                keys: Seq::empty(),
                publishers: Seq::empty(),
                pull_address: pull_address@,
            }),
    {
        let r = Manager { keys: Vec::new(), publishers: Vec::new(), pull_address };
        assert(r@.keys =~= Seq::<Seq<char>>::empty());
        assert(r@.publishers =~= Seq::<Seq<char>>::empty());
        r
    }

    /// The identity of the publisher that is registered at `key`.
    pub fn publisher(&self, key: &str) -> (r: Option<&String>)
        requires
            self.wf(),
        ensures
            match r {
                Some(uid) => self@.publisher_of(key@) == Some(uid@),
                None => self@.publisher_of(key@) is None,
            },
    {
        proof {
            lemma_index_from(self@.keys, key@, 0);
        }
        match position(&self.keys, key) {
            Some(i) => {
                assert(self@.publishers[i as int] == self.publishers@[i as int]@);
                Some(&self.publishers[i])
            },
            None => None,
        }
    }

    /// Records `publisher` as the publisher of the free key `key`.
    fn insert(&mut self, key: String, publisher: String)
        requires
            old(self).wf(),
            old(self)@.publisher_of(key@) is None,
        ensures
            final(self).wf(),
            final(self)@ == (ManagerView {
                keys: old(self)@.keys.push(key@),
                publishers: old(self)@.publishers.push(publisher@),
                ..old(self)@
            }),
    {
        proof {
            lemma_index_from(self@.keys, key@, 0);
        }
        self.keys.push(key);
        self.publishers.push(publisher);
        assert(self@.keys =~= old(self)@.keys.push(key@));
        assert(self@.publishers =~= old(self)@.publishers.push(publisher@));
    }

    /// Registers a connection, with `pull_uid` as the identity of the
    /// origin-pull client should one be needed.
    ///
    /// A publisher gets the stream's new hub, or `DuplicatePublish` where the
    /// key has a publisher. A subscriber gets leave to subscribe and is to
    /// join the stream's hub; where the key has no publisher, an origin-pull
    /// client for `{pull address}/{app}` is to be started first, which is
    /// then the key's publisher. A subscriber at a key without publisher that
    /// names no application and stream gets `NoPublish`.
    pub fn register_with(&mut self, ev: RegisterEv, pull_uid: String) -> (r: Registration)
        requires
            old(self).wf(),
        ensures
            final(self).wf(),
            final(self)@ == old(self)@.register(ev.uid@, ev.role, ev.stream_key@, pull_uid@),
            registration_is(r, old(self)@, ev.uid@, ev.role, ev.stream_key@, pull_uid@),
    {
        let present = position(&self.keys, ev.stream_key.as_str()).is_some();
        match ev.role {
            RoleType::Publisher => {
                if present {
                    Registration {
                        token: Token::Failure(StreamError::DuplicatePublish),
                        pull: None,
                        join: None,
                    }
                } else {
                    self.insert(ev.stream_key, ev.uid);
                    Registration { token: Token::PublisherToken(Hub::new()), pull: None, join: None }
                }
            },
            RoleType::Subscriber => {
                if present {
                    Registration {
                        token: Token::SubscriberToken,
                        pull: None,
                        join: Some(HubEvent::SubscriberJoin(ev.uid)),
                    }
                } else {
                    match split_stream_key(ev.stream_key.as_str()) {
                        Some((app, stream)) => {
                            let tc_url = join_path(self.pull_address.as_str(), app.as_str());
                            self.insert(ev.stream_key.clone(), pull_uid.clone());
                            Registration {
                                token: Token::SubscriberToken,
                                pull: Some(
                                    PullTask {
                                        uid: pull_uid,
                                        hub: Hub::new(),
                                        tc_url,
                                        stream,
                                        stream_key: ev.stream_key,
                                    },
                                ),
                                join: Some(HubEvent::SubscriberJoin(ev.uid)),
                            }
                        },
                        None => Registration {
                            token: Token::Failure(StreamError::NoPublish),
                            pull: None,
                            join: None,
                        },
                    }
                }
            },
        }
    }

    /// Registers a connection; see [`Manager::register_with`]. The identity
    /// of an origin-pull client is made up afresh.
    pub fn register(&mut self, ev: RegisterEv) -> (r: Registration)
        requires
            old(self).wf(),
        ensures
            final(self).wf(),
            exists|pull_uid: Seq<char>|
                {
                    &&& final(self)@ == #[trigger] old(self)@.register(
                        ev.uid@,
                        ev.role,
                        ev.stream_key@,
                        pull_uid,
                    )
                    &&& registration_is(
                        r,
                        old(self)@,
                        ev.uid@,
                        ev.role,
                        ev.stream_key@,
                        pull_uid,
                    )
                },
    {
        let pull_uid = gen_uid();
        let ghost chosen = pull_uid@;
        let r = self.register_with(ev, pull_uid);
        assert(self@ == old(self)@.register(ev.uid@, ev.role, ev.stream_key@, chosen));
        r
    }

    /// Unregisters a connection: a subscriber is to leave its stream's hub; a
    /// publisher frees its key, and the hub's channel is to be closed. At a
    /// key without publisher nothing is done.
    pub fn unregister(&mut self, ev: UnregisterEv) -> (r: Action)
        requires
            old(self).wf(),
        ensures
            final(self).wf(),
            final(self)@ == old(self)@.unregister(ev.role, ev.stream_key@),
            unregistration_is(r, old(self)@, ev.uid@, ev.role, ev.stream_key@),
    {
        proof {
            lemma_index_from(self@.keys, ev.stream_key@, 0);
        }
        match position(&self.keys, ev.stream_key.as_str()) {
            Some(i) => match ev.role {
                RoleType::Subscriber => Action::Forward(
                    ev.stream_key,
                    HubEvent::SubscriberLeave(ev.uid),
                ),
                RoleType::Publisher => {
                    self.keys.remove(i);
                    self.publishers.remove(i);
                    assert(self@.keys =~= old(self)@.keys.remove(i as int));
                    assert(self@.publishers =~= old(self)@.publishers.remove(i as int));
                    Action::Close(ev.stream_key)
                },
            },
            None => Action::Ignore,
        }
    }

    /// Handles one event: what [`Manager::register`] and
    /// [`Manager::unregister`] do, by the kind of the event.
    pub fn run(&mut self, ev: StreamEvent) -> (r: Action)
        requires
            old(self).wf(),
        ensures
            final(self).wf(),
            match ev {
                StreamEvent::Register(e) => r matches Action::Reply(reply) && exists|
                    pull_uid: Seq<char>,
                |
                    {
                        &&& final(self)@ == #[trigger] old(self)@.register(
                            e.uid@,
                            e.role,
                            e.stream_key@,
                            pull_uid,
                        )
                        &&& registration_is(
                            reply,
                            old(self)@,
                            e.uid@,
                            e.role,
                            e.stream_key@,
                            pull_uid,
                        )
                    },
                StreamEvent::Unregister(e) => final(self)@ == old(self)@.unregister(
                    e.role,
                    e.stream_key@,
                ) && unregistration_is(r, old(self)@, e.uid@, e.role, e.stream_key@),
            },
    {
        match ev {
            StreamEvent::Register(e) => Action::Reply(self.register(e)),
            StreamEvent::Unregister(e) => self.unregister(e),
        }
    }
}

/// `r` is what a broker in state `m` asks for when `uid` unregisters at
/// `key`: at a key with a publisher, a subscriber's leave is handed to the
/// hub and a publisher's leave closes the hub's channel; at any other key
/// nothing is done.
pub open spec fn unregistration_is(
    r: Action,
    m: ManagerView,
    uid: Seq<char>,
    role: RoleType,
    key: Seq<char>,
) -> bool {
    if m.publisher_of(key) is None {
        r is Ignore
    } else if role == RoleType::Subscriber {
        &&& r matches Action::Forward(to, event)
        &&& to@ == key
        &&& event matches HubEvent::SubscriberLeave(who)
        &&& who@ == uid
    } else {
        r matches Action::Close(closed) && closed@ == key
    }
}

/// `r` is the answer that a broker in state `m` owes to the registration.
pub open spec fn registration_is(
    r: Registration,
    m: ManagerView,
    uid: Seq<char>,
    role: RoleType,
    key: Seq<char>,
    pull_uid: Seq<char>,
) -> bool {
    if role == RoleType::Publisher {
        if m.publisher_of(key) is Some {
            &&& r.token matches Token::Failure(StreamError::DuplicatePublish)
            &&& r.pull is None
            &&& r.join is None
        } else {
            &&& r.token matches Token::PublisherToken(hub)
            &&& hub.wf()
            &&& hub@ == HubView::empty()
            &&& r.pull is None
            &&& r.join is None
        }
    } else if m.publisher_of(key) is Some {
        &&& r.token is SubscriberToken
        &&& r.pull is None
        &&& r.join matches Some(HubEvent::SubscriberJoin(who))
        &&& who@ == uid
    } else if split_key(key) is Some {
        &&& r.token is SubscriberToken
        &&& r.join matches Some(HubEvent::SubscriberJoin(who))
        &&& who@ == uid
        &&& r.pull matches Some(task)
        &&& task.uid@ == pull_uid
        &&& task.hub.wf()
        &&& task.hub@ == HubView::empty()
        &&& task.tc_url@ == m.pull_address + seq!['/'] + split_key(key)->Some_0.0
        &&& task.stream@ == split_key(key)->Some_0.1
        &&& task.stream_key@ == key
    } else {
        &&& r.token matches Token::Failure(StreamError::NoPublish)
        &&& r.pull is None
        &&& r.join is None
    }
}

} // verus!
