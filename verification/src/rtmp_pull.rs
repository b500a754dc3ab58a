//! What the task of an origin-pull client decides: it feeds its hub like a
//! publisher, and ends when its last subscriber is gone.

use crate::connection::RtmpConnType;
use crate::error::ServiceError;
use crate::merge::optional_batch;
use crate::message::{messages_view, MessageView, RtmpMessage};
use crate::rtmp_service::{feed_hub, hub_takes};
use crate::statistic::{ConnStat, ConnStatView};
use crate::stream::error::StreamError;
use crate::stream::hub::{pending_view, Hub, HubEvent, HubReply, HubView};
use crate::stream::{RoleType, UnregisterEv};
use vstd::prelude::*;

verus! {

pub struct RtmpPull {
    uid: String,
    hub: Hub,
}

/// What an [`RtmpPull`] stands for.
pub struct PullView {
    pub uid: Seq<char>,
    pub hub: HubView,
}

impl View for RtmpPull {
    type V = PullView;

    closed spec fn view(&self) -> PullView {
        PullView { uid: self.uid@, hub: self.hub@ }
    }
}

impl RtmpPull {
    pub closed spec fn wf(&self) -> bool {
        self.hub.wf()
    }

    pub fn new(uid: String, hub: Hub) -> (r: Self)
        requires
            hub.wf(),
        ensures
            r.wf(),
            r@ == (PullView { uid: uid@, hub: hub@ }),
    {
        RtmpPull { uid, hub }
    }

    /// The identities of the subscribers.
    pub fn subscribers(&self) -> (r: &Vec<String>)
        ensures
            crate::text::names_view(r@) == self@.hub.subscribers,
    {
        self.hub.subscribers()
    }

    /// The counts that the client begins with.
    pub fn on_create_conn(&self, stream_key: String) -> (stat: ConnStat)
        ensures
            stat@ == ConnStatView::begun(stream_key@, RtmpConnType::Pull, stat.conn_time),
    {
        ConnStat::new(stream_key, RtmpConnType::Pull)
    }

    /// The counts that the client ends with.
    pub fn on_delete_conn(&self, stream_key: String) -> (stat: ConnStat)
        ensures
            stat@ == ConnStatView::begun(stream_key@, RtmpConnType::Pull, stat.conn_time),
    {
        ConnStat::new(stream_key, RtmpConnType::Pull)
    }

    /// The event with which the client unregisters: as the publisher of
    /// `stream_key`.
    pub fn unregister(&self, stream_key: String) -> (ev: UnregisterEv)
        ensures
            ev.uid@ == self@.uid,
            ev.stream_key@ == stream_key@,
            ev.role == RoleType::Publisher,
    {
        UnregisterEv { uid: self.uid.clone(), stream_key, role: RoleType::Publisher }
    }

    /// Takes a message from upstream: metadata, audio and video go to the
    /// hub. Returns the batch that is to go to every subscriber.
    pub fn pulling(&mut self, msg: RtmpMessage) -> (r: Result<
        Option<Vec<RtmpMessage>>,
        ServiceError,
    >)
        requires
            old(self).wf(),
        ensures
            final(self).wf(),
            r matches Ok(batch) && (final(self)@.hub, optional_batch(batch)) == hub_takes(
                old(self)@.hub,
                msg@,
            ),
            final(self)@.uid == old(self)@.uid,
    {
        feed_hub(&mut self.hub, msg)
    }

    /// Takes an event that reached the hub; `None` says that the broker is
    /// gone. Returns the hub's answer.
    ///
    /// Fails with `HubError(HubClosed)` where the broker is gone, and with
    /// `NoSubscriber` where the event leaves the hub without subscribers.
    pub fn on_hub_event(&mut self, ev: Option<HubEvent>) -> (r: Result<HubReply, ServiceError>)
        requires
            old(self).wf(),
        ensures
            final(self).wf(),
            final(self)@.uid == old(self)@.uid,
            match ev {
                None => r matches Err(ServiceError::HubError(StreamError::HubClosed))
                    && final(self)@ == old(self)@,
                Some(HubEvent::SubscriberJoin(uid)) => {
                    &&& r matches Ok(reply)
                    &&& reply.primer matches Some((who, batch))
                    &&& who@ == uid@
                    &&& messages_view(batch@) == old(self)@.hub.primer()
                    &&& pending_view(reply.pending) == old(self)@.hub.pending()
                    &&& final(self)@.hub == old(self)@.hub.join(uid@)
                    &&& reply.subscribers == final(self)@.hub.subscribers.len()
                },
                Some(HubEvent::SubscriberLeave(uid)) => {
                    &&& final(self)@.hub == old(self)@.hub.leave(uid@)
                    &&& if final(self)@.hub.subscribers.len() == 0 {
                        r matches Err(ServiceError::NoSubscriber)
                    } else {
                        &&& r matches Ok(reply)
                        &&& reply.primer is None
                        &&& reply.pending is None
                        &&& reply.subscribers == final(self)@.hub.subscribers.len()
                    }
                },
            },
    {
        proof {
            self.hub.lemma_wf_view();
        }
        match self.hub.process_hub_ev(ev) {
            Ok(reply) => {
                if reply.subscribers == 0 {
                    proof {
                        crate::text::lemma_index_from(
                            old(self)@.hub.subscribers,
                            ev->Some_0->SubscriberJoin_0@,
                            0,
                        );
                    }
                    return Err(ServiceError::NoSubscriber);
                }
                Ok(reply)
            },
            Err(e) => Err(ServiceError::HubError(e)),
        }
    }
}

} // verus!
