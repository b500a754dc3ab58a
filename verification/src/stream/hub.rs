//! The hub of one stream: what a new subscriber is primed with, and the
//! batches in which live frames go out to the subscribers.
//!
//! The hub decides what is delivered; delivering it is left to its owner.
//! Every batch that the hub hands out goes to each subscriber it then has.
//! When someone joins, the frames that wait in the merge buffer go out to
//! those who had subscribed before, so that the newcomer, who finds them in
//! the primer, never gets them a second time.

use crate::message::{clone_messages, messages_view, MessageView, RtmpMessage};
use crate::stream::error::StreamError;
use crate::stream::gop::{GopCache, GopView};
use crate::text::{clone_names, distinct, index_of, lemma_index_from, names_view, position};
use vstd::prelude::*;

verus! {

/// Span of timestamps, in milliseconds, after which the merge buffer goes
/// out.
pub const PERF_MERGE_SEND_CHAN: u32 = 170;

/// What reaches the hub from the broker.
#[derive(Debug)]
pub enum HubEvent {
    /// The connection of this identity subscribes.
    SubscriberJoin(String),
    /// The connection of this identity leaves.
    SubscriberLeave(String),
}

#[derive(Debug)]
struct MetaCache {
    metadata: Option<RtmpMessage>,
    video_sh: Option<RtmpMessage>,
    audio_sh: Option<RtmpMessage>,
}

#[derive(Debug)]
pub struct Hub {
    meta: MetaCache,
    gop: GopCache,
    subscribers: Vec<String>,
    merge_msgs: Vec<RtmpMessage>,
    start_ts: u32,
}

/// What a [`Hub`] stands for.
pub struct HubView {
    /// The last metadata message.
    pub metadata: Option<MessageView>,
    /// The last video sequence header.
    pub video_sh: Option<MessageView>,
    /// The last audio sequence header.
    pub audio_sh: Option<MessageView>,
    pub gop: GopView,
    /// The identities of the subscribers.
    pub subscribers: Seq<Seq<char>>,
    /// The frames that arrived since the merge buffer last went out.
    pub merge: Seq<MessageView>,
    /// Timestamp of the frame that last made the merge buffer go out.
    pub start_ts: u32,
}

/// The view of a message that may be missing.
pub open spec fn optional_view(m: Option<RtmpMessage>) -> Option<MessageView> {
    match m {
        Some(x) => Some(x@),
        None => None,
    }
}

/// The message in a list of its own, or the empty list.
pub open spec fn optional_seq(m: Option<MessageView>) -> Seq<MessageView> {
    match m {
        Some(x) => seq![x],
        None => Seq::empty(),
    }
}

impl View for Hub {
    type V = HubView;

    closed spec fn view(&self) -> HubView {
        HubView {
            metadata: optional_view(self.meta.metadata),
            video_sh: optional_view(self.meta.video_sh),
            audio_sh: optional_view(self.meta.audio_sh),
            gop: self.gop@,
            subscribers: names_view(self.subscribers@),
            merge: messages_view(self.merge_msgs@),
            start_ts: self.start_ts,
        }
    }
}

impl HubView {
    /// A hub that has seen nothing.
    pub open spec fn empty() -> HubView {
        HubView {
            metadata: None,
            video_sh: None,
            audio_sh: None,
            gop: GopView::empty(),
            subscribers: Seq::empty(),
            merge: Seq::empty(),
            start_ts: 0,
        }
    }

    /// No identity subscribes twice; what is kept as metadata and as sequence
    /// headers is of that kind; and the merge buffer holds audio and video
    /// only.
    pub open spec fn wf(self) -> bool {
        &&& distinct(self.subscribers)
        &&& self.gop.wf()
        &&& self.metadata matches Some(m) ==> m.is_metadata()
        &&& self.video_sh matches Some(m) ==> m.is_video_sequence_header()
        &&& self.audio_sh matches Some(m) ==> m.is_audio_sequence_header()
        &&& forall|i: int| 0 <= i < self.merge.len() ==> (#[trigger] self.merge[i]).timestamp() is Some
    }

    /// The batch that a new subscriber gets first: the metadata, the audio
    /// sequence header, the video sequence header, then the GOP cache; what
    /// the hub does not have is left out.
    pub open spec fn primer(self) -> Seq<MessageView> {
        optional_seq(self.metadata) + optional_seq(self.audio_sh) + optional_seq(self.video_sh)
            + self.gop.caches
    }

    /// The hub after `uid` joined: `uid` subscribes, once, and the merge
    /// buffer is empty.
    pub open spec fn join(self, uid: Seq<char>) -> HubView {
        HubView {
            subscribers: if index_of(self.subscribers, uid) is Some {
                self.subscribers
            } else {
                self.subscribers.push(uid)
            },
            merge: Seq::empty(),
            ..self
        }
    }

    /// What goes out when someone joins, and to whom: the merge buffer, to
    /// those who had subscribed before; nothing where the buffer is empty.
    pub open spec fn pending(self) -> Option<(Seq<Seq<char>>, Seq<MessageView>)> {
        if self.merge.len() > 0 {
            Some((self.subscribers, self.merge))
        } else {
            None
        }
    }

    /// The hub after `uid` left.
    pub open spec fn leave(self, uid: Seq<char>) -> HubView {
        match index_of(self.subscribers, uid) {
            Some(i) => HubView { subscribers: self.subscribers.remove(i), ..self },
            None => self,
        }
    }

    /// The hub after metadata arrived.
    pub open spec fn on_metadata(self, msg: MessageView) -> HubView {
        HubView { metadata: Some(msg), ..self }
    }

    /// Whether the frame `msg` makes the merge buffer go out: it is 170 ms or
    /// more past the last flush, its timestamp is 0 or lies before the last
    /// flush, or it is a video keyframe.
    pub open spec fn flushes(self, msg: MessageView) -> bool {
        let t = msg.timestamp()->Some_0;
        t >= self.start_ts + PERF_MERGE_SEND_CHAN || t == 0 || t < self.start_ts
            || msg.is_key_frame()
    }

    /// The batch that goes out to every subscriber when the frame `msg`
    /// arrives: the merge buffer with `msg` at its end, or nothing.
    pub open spec fn flushed(self, msg: MessageView) -> Option<Seq<MessageView>> {
        if self.flushes(msg) {
            Some(self.merge.push(msg))
        } else {
            None
        }
    }

    /// The hub after the frame `msg` arrived. A sequence header is kept as
    /// such; every other frame goes to the GOP cache.
    pub open spec fn on_frame(self, msg: MessageView) -> HubView {
        HubView {
            merge: if self.flushes(msg) {
                Seq::empty()
            } else {
                self.merge.push(msg)
            },
            start_ts: if self.flushes(msg) {
                msg.timestamp()->Some_0
            } else {
                self.start_ts
            },
            audio_sh: if msg.is_audio_sequence_header() {
                Some(msg)
            } else {
                self.audio_sh
            },
            video_sh: if msg.is_video_sequence_header() {
                Some(msg)
            } else {
                self.video_sh
            },
            gop: if msg.is_audio_sequence_header() || msg.is_video_sequence_header() {
                self.gop
            } else {
                self.gop.cache(msg)
            },
            ..self
        }
    }

    /// The hub after the frames of `frames` arrived, one after the other.
    pub open spec fn on_frames(self, frames: Seq<MessageView>) -> HubView
        decreases frames.len(),
    {
        if frames.len() == 0 {
            self
        } else {
            self.on_frames(frames.drop_last()).on_frame(frames.last())
        }
    }

    /// Everything that went out to the subscribers while the frames of
    /// `frames` arrived: the batches, one after the other.
    pub open spec fn delivered(self, frames: Seq<MessageView>) -> Seq<MessageView>
        decreases frames.len(),
    {
        if frames.len() == 0 {
            Seq::empty()
        } else {
            self.delivered(frames.drop_last()) + match self.on_frames(
                frames.drop_last(),
            ).flushed(frames.last()) {
                Some(batch) => batch,
                None => Seq::empty(),
            }
        }
    }
}

/// What reaches a hub, as its model sees it.
pub enum HubInput {
    /// An audio or video frame of the publisher.
    Frame(MessageView),
    /// Metadata of the publisher.
    Metadata(MessageView),
    /// The connection of this identity subscribes.
    Join(Seq<char>),
    /// The connection of this identity leaves.
    Leave(Seq<char>),
}

impl HubView {
    /// The hub after `input`.
    pub open spec fn taken(self, input: HubInput) -> HubView {
        match input {
            HubInput::Frame(msg) => self.on_frame(msg),
            HubInput::Metadata(msg) => self.on_metadata(msg),
            HubInput::Join(uid) => self.join(uid),
            HubInput::Leave(uid) => self.leave(uid),
        }
    }

    /// The frames that go out, to those who subscribe when `input` arrives:
    /// the merge buffer, where a frame or a join makes it go out.
    pub open spec fn frames_out(self, input: HubInput) -> Seq<MessageView> {
        match input {
            HubInput::Frame(msg) => match self.flushed(msg) {
                Some(batch) => batch,
                None => Seq::empty(),
            },
            HubInput::Join(_) => self.merge,
            _ => Seq::empty(),
        }
    }

    /// The hub after the inputs, one after the other.
    pub open spec fn taken_all(self, inputs: Seq<HubInput>) -> HubView
        decreases inputs.len(),
    {
        if inputs.len() == 0 {
            self
        } else {
            self.taken_all(inputs.drop_last()).taken(inputs.last())
        }
    }

    /// The frames that went out while the inputs arrived, batch after batch.
    pub open spec fn frames_sent(self, inputs: Seq<HubInput>) -> Seq<MessageView>
        decreases inputs.len(),
    {
        if inputs.len() == 0 {
            Seq::empty()
        } else {
            self.frames_sent(inputs.drop_last()) + self.taken_all(
                inputs.drop_last(),
            ).frames_out(inputs.last())
        }
    }
}

/// The frames among the inputs, in the order of their arrival.
pub open spec fn frames_of(inputs: Seq<HubInput>) -> Seq<MessageView>
    decreases inputs.len(),
{
    if inputs.len() == 0 {
        Seq::empty()
    } else {
        match inputs.last() {
            HubInput::Frame(msg) => frames_of(inputs.drop_last()).push(msg),
            _ => frames_of(inputs.drop_last()),
        }
    }
}

/// What the hub answers to an event.
#[derive(Debug)]
pub struct HubReply {
    /// For a join: who joined, and the batch to prime them with.
    pub primer: Option<(String, Vec<RtmpMessage>)>,
    /// For a join that found frames in the merge buffer: those who had
    /// subscribed before, and the batch that goes out to them.
    pub pending: Option<(Vec<String>, Vec<RtmpMessage>)>,
    /// Number of subscribers after the event.
    pub subscribers: usize,
}

impl Hub {
    pub closed spec fn wf(&self) -> bool {
        &&& self@.wf()
        &&& self.gop.wf()
    }

    /// Well-formedness as the view shows it.
    pub proof fn lemma_wf_view(&self)
        requires
            self.wf(),
        ensures
            self@.wf(),
    {
    }

    pub fn new() -> (r: Self)
        ensures
            r.wf(),
            r@ == HubView::empty(),
    {
        let r = Hub {
            gop: GopCache::new(),
            meta: MetaCache { metadata: None, video_sh: None, audio_sh: None },
            subscribers: Vec::new(),
            merge_msgs: Vec::new(),
            start_ts: 0,
        };
        assert(r@.subscribers =~= Seq::<Seq<char>>::empty());
        assert(r@.merge =~= Seq::<MessageView>::empty());
        r
    }

    /// The identities of the subscribers.
    pub fn subscribers(&self) -> (r: &Vec<String>)
        ensures
            names_view(r@) == self@.subscribers,
    {
        &self.subscribers
    }

    /// The GOP cache.
    pub fn gop(&self) -> (r: &GopCache)
        ensures
            r@ == self@.gop,
    {
        &self.gop
    }

    /// The batch that a new subscriber gets first.
    fn primer(&self) -> (r: Vec<RtmpMessage>)
        requires
            self.wf(),
        ensures
            messages_view(r@) == self@.primer(),
    {
        let mut msgs: Vec<RtmpMessage> = Vec::new();
        if let Some(meta) = &self.meta.metadata {
            msgs.push(meta.clone());
        }
        if let Some(meta) = &self.meta.audio_sh {
            msgs.push(meta.clone());
        }
        if let Some(meta) = &self.meta.video_sh {
            msgs.push(meta.clone());
        }
        let ghost head = messages_view(msgs@);
        assert(head =~= optional_seq(self@.metadata) + optional_seq(self@.audio_sh)
            + optional_seq(self@.video_sh));
        let frames = self.gop.caches();
        let mut i: usize = 0;
        while i < frames.len()
            invariant
                i <= frames@.len(),
                messages_view(frames@) == self@.gop.caches,
                messages_view(msgs@) == head + self@.gop.caches.subrange(0, i as int),
            decreases frames@.len() - i,
        {
            let ghost before = messages_view(msgs@);
            msgs.push(frames[i].clone());
            assert(messages_view(frames@)[i as int] == frames@[i as int]@);
            assert(messages_view(msgs@) =~= before.push(frames@[i as int]@));
            assert(before.push(frames@[i as int]@) =~= head + self@.gop.caches.subrange(
                0,
                i + 1,
            ));
            i += 1;
        }
        assert(self@.gop.caches.subrange(0, i as int) =~= self@.gop.caches);
        msgs
    }

    /// Handles an event from the broker; `None` says that the broker is gone.
    ///
    /// A join adds the subscriber and answers with its primer batch, and
    /// with the merge buffer for those who had subscribed before, which is
    /// then empty; a leave removes the subscriber. Fails with `HubClosed`,
    /// and only so, where the broker is gone.
    pub fn process_hub_ev(&mut self, ev: Option<HubEvent>) -> (r: Result<HubReply, StreamError>)
        requires
            old(self).wf(),
        ensures
            final(self).wf(),
            match ev {
                None => r == Err::<HubReply, StreamError>(StreamError::HubClosed) && final(self)@
                    == old(self)@,
                Some(HubEvent::SubscriberJoin(uid)) => {
                    &&& r matches Ok(reply)
                    &&& reply.primer matches Some((who, batch))
                    &&& who@ == uid@
                    &&& messages_view(batch@) == old(self)@.primer()
                    &&& pending_view(reply.pending) == old(self)@.pending()
                    &&& final(self)@ == old(self)@.join(uid@)
                    &&& reply.subscribers == final(self)@.subscribers.len()
                },
                Some(HubEvent::SubscriberLeave(uid)) => {
                    &&& r matches Ok(reply)
                    &&& reply.primer is None
                    &&& reply.pending is None
                    &&& final(self)@ == old(self)@.leave(uid@)
                    &&& reply.subscribers == final(self)@.subscribers.len()
                },
            },
    {
        match ev {
            Some(HubEvent::SubscriberJoin(uid)) => {
                let msgs = self.primer();
                let ghost before = self@.subscribers;
                let mut pending: Option<(Vec<String>, Vec<RtmpMessage>)> = None;
                if self.merge_msgs.len() > 0 {
                    let earlier = clone_names(&self.subscribers);
                    let mut out: Vec<RtmpMessage> = Vec::new();
                    core::mem::swap(&mut out, &mut self.merge_msgs);
                    pending = Some((earlier, out));
                }
                assert(messages_view(self.merge_msgs@) =~= Seq::<MessageView>::empty());
                proof {
                    lemma_index_from(before, uid@, 0);
                }
                if position(&self.subscribers, uid.as_str()).is_none() {
                    self.subscribers.push(uid.clone());
                    assert(self@.subscribers =~= before.push(uid@));
                }
                Ok(
                    HubReply {
                        primer: Some((uid, msgs)),
                        pending,
                        subscribers: self.subscribers.len(),
                    },
                )
            },
            Some(HubEvent::SubscriberLeave(uid)) => {
                let ghost before = self@.subscribers;
                proof {
                    lemma_index_from(before, uid@, 0);
                }
                if let Some(i) = position(&self.subscribers, uid.as_str()) {
                    self.subscribers.remove(i);
                    assert(self@.subscribers =~= before.remove(i as int));
                }
                Ok(HubReply { primer: None, pending: None, subscribers: self.subscribers.len() })
            },
            None => Err(StreamError::HubClosed),
        }
    }

    /// Takes the stream's metadata. Returns the batch that goes out to every
    /// subscriber at once: the message alone.
    pub fn on_metadata(&mut self, msg: RtmpMessage) -> (r: Result<Vec<RtmpMessage>, StreamError>)
        requires
            old(self).wf(),
            msg@.is_metadata(),
        ensures
            final(self).wf(),
            r matches Ok(batch) && messages_view(batch@) == seq![msg@],
            final(self)@ == old(self)@.on_metadata(msg@),
    {
        let mut batch: Vec<RtmpMessage> = Vec::new();
        batch.push(msg.clone());
        assert(messages_view(batch@) =~= seq![msg@]);
        self.meta.metadata = Some(msg);
        Ok(batch)
    }

    /// Takes an audio or video frame. Returns the batch that goes out to
    /// every subscriber, if the frame makes the merge buffer go out.
    pub fn on_frame(&mut self, msg: RtmpMessage) -> (r: Result<Option<Vec<RtmpMessage>>, StreamError>)
        requires
            old(self).wf(),
            msg@.timestamp() is Some,
        ensures
            final(self).wf(),
            r matches Ok(batch) && optional_batch(batch) == old(self)@.flushed(msg@),
            final(self)@ == old(self)@.on_frame(msg@),
    {
        proof {
            lemma_on_frame_wf(self@, msg@);
        }
        let cur_ts = match msg.timestamp() {
            Some(t) => t,
            None => 0,
        };
        let ghost merged = self@.merge;
        self.merge_msgs.push(msg.clone());
        assert(messages_view(self.merge_msgs@) =~= merged.push(msg@));
        let has_key_frame = msg.is_key_frame();
        let past = cur_ts >= self.start_ts && cur_ts - self.start_ts >= PERF_MERGE_SEND_CHAN;
        let mut batch: Option<Vec<RtmpMessage>> = None;
        if past || cur_ts == 0 || cur_ts < self.start_ts || has_key_frame {
            let mut out: Vec<RtmpMessage> = Vec::new();
            core::mem::swap(&mut out, &mut self.merge_msgs);
            assert(messages_view(self.merge_msgs@) =~= Seq::<MessageView>::empty());
            batch = Some(out);
            self.start_ts = cur_ts;
        }
        let is_audio_sh = match &msg {
            RtmpMessage::AudioData { payload, .. } => crate::codec::is_audio_sequence_header(
                payload,
            ),
            _ => false,
        };
        let is_video_sh = match &msg {
            RtmpMessage::VideoData { payload, .. } => crate::codec::is_video_sequence_header(
                payload,
            ),
            _ => false,
        };
        if is_audio_sh {
            self.meta.audio_sh = Some(msg);
        } else if is_video_sh {
            self.meta.video_sh = Some(msg);
        } else {
            self.gop.cache(msg);
        }
        Ok(batch)
    }
}

/// The view of a batch that may be missing.
pub open spec fn optional_batch(batch: Option<Vec<RtmpMessage>>) -> Option<Seq<MessageView>> {
    match batch {
        Some(b) => Some(messages_view(b@)),
        None => None,
    }
}

/// The view of what goes out at a join.
pub open spec fn pending_view(pending: Option<(Vec<String>, Vec<RtmpMessage>)>) -> Option<
    (Seq<Seq<char>>, Seq<MessageView>),
> {
    match pending {
        Some((who, batch)) => Some((names_view(who@), messages_view(batch@))),
        None => None,
    }
}

/// A frame leaves the hub well formed.
pub proof fn lemma_on_frame_wf(h: HubView, msg: MessageView)
    requires
        h.wf(),
        msg.timestamp() is Some,
    ensures
        h.on_frame(msg).wf(),
{
    crate::stream::gop::lemma_cache_wf(h.gop, msg);
    let after = h.on_frame(msg);
    assert forall|i: int| 0 <= i < after.merge.len() implies (
    #[trigger] after.merge[i]).timestamp() is Some by {
        if i < h.merge.len() {
            assert(after.merge[i] == h.merge[i]);
        }
    }
}

/// A new subscriber gets the video sequence header before any video frame.
///
/// Where the hub has a video sequence header, the primer batch holds it, and
/// no video message stands before it: the first video message that the
/// subscriber sees is the header, and every video frame comes after it.
pub proof fn lemma_primer_header_first(h: HubView)
    requires
        h.wf(),
        h.video_sh is Some,
    ensures
        exists|k: int|
            {
                &&& 0 <= k < h.primer().len()
                &&& #[trigger] h.primer()[k] == h.video_sh->Some_0
                &&& forall|j: int| 0 <= j < k ==> !(h.primer()[j] is VideoData)
            },
{
    let k = optional_seq(h.metadata).len() + optional_seq(h.audio_sh).len();
    assert(h.primer()[k as int] == h.video_sh->Some_0);
    assert forall|j: int| 0 <= j < k implies !(h.primer()[j] is VideoData) by {
        if j < optional_seq(h.metadata).len() {
            assert(h.primer()[j] == h.metadata->Some_0);
        } else {
            assert(h.primer()[j] == h.audio_sh->Some_0);
        }
    }
}

/// The subscribers get every frame, in the order of its arrival.
///
/// While frames arrive, what goes out to the subscribers, batch after batch,
/// followed by what the merge buffer still holds, is what the merge buffer
/// held before followed by the frames. Who subscribes does not change
/// meanwhile, so every batch goes to everyone who had joined before.
pub proof fn lemma_fanout_in_order(h: HubView, frames: Seq<MessageView>)
    ensures
        h.delivered(frames) + h.on_frames(frames).merge == h.merge + frames,
        h.on_frames(frames).subscribers == h.subscribers,
    decreases frames.len(),
{
    if frames.len() == 0 {
        assert(h.delivered(frames) + h.on_frames(frames).merge =~= h.merge + frames);
    } else {
        let init = frames.drop_last();
        let m = frames.last();
        lemma_fanout_in_order(h, init);
        let mid = h.on_frames(init);
        assert(h.delivered(init) + mid.merge == h.merge + init);
        assert(frames =~= init.push(m));
        if mid.flushes(m) {
            assert(h.delivered(frames) + h.on_frames(frames).merge =~= (h.delivered(init)
                + mid.merge).push(m));
        } else {
            assert(h.delivered(frames) + h.on_frames(frames).merge =~= (h.delivered(init)
                + mid.merge).push(m));
        }
        assert((h.merge + init).push(m) =~= h.merge + frames);
    }
}

/// The batch that goes out when the frame at `k` arrives, if one does.
pub open spec fn batch_at(h: HubView, frames: Seq<MessageView>, k: int) -> Option<
    Seq<MessageView>,
> {
    h.on_frames(frames.take(k)).flushed(frames[k])
}

/// A subscriber gets no frame twice: after its join, every batch of live
/// frames holds only frames that arrived after the join.
///
/// Let `uid` join the hub `h`, and let the frames of `frames` arrive after
/// that. The primer holds what the hub had cached at the join. The merge
/// buffer is empty after the join, so whatever had arrived before is not in
/// any later batch: the batch that goes out at the `k`th of the frames is a
/// run of `frames` that ends with that frame, and the batches follow one
/// another in `frames` without a gap: together with what the buffer holds at
/// the end they are `frames`.
pub proof fn lemma_batches_after_join(h: HubView, uid: Seq<char>, frames: Seq<MessageView>)
    ensures
        h.join(uid).merge.len() == 0,
        h.join(uid).delivered(frames) + h.join(uid).on_frames(frames).merge == frames,
        forall|k: int|
            0 <= k < frames.len() ==> (#[trigger] batch_at(h.join(uid), frames, k) matches Some(
                batch,
            ) ==> 1 <= batch.len() <= k + 1 && batch == frames.subrange(
                k + 1 - batch.len(),
                k + 1,
            )),
{
    let j = h.join(uid);
    lemma_fanout_in_order(j, frames);
    assert(j.merge + frames =~= frames);
    assert forall|k: int| 0 <= k < frames.len() implies (#[trigger] batch_at(j, frames, k)
        matches Some(batch) ==> 1 <= batch.len() <= k + 1 && batch == frames.subrange(
        k + 1 - batch.len(),
        k + 1,
    )) by {
        let init = frames.take(k);
        let mid = j.on_frames(init);
        lemma_fanout_in_order(j, init);
        assert(j.merge + init =~= init);
        let sent = j.delivered(init);
        assert(sent.len() + mid.merge.len() == k);
        assert(mid.merge =~= (sent + mid.merge).subrange(sent.len() as int, k));
        if mid.flushes(frames[k]) {
            let batch = mid.merge.push(frames[k]);
            assert(batch =~= frames.subrange(k + 1 - batch.len(), k + 1));
        }
    }
}

/// Frames go out once, in the order of their arrival, whoever joins or
/// leaves meanwhile.
///
/// While frames and metadata arrive and subscribers join and leave, the
/// frames that go out, batch after batch, followed by what the merge buffer
/// still holds, are what the merge buffer held before followed by the frames
/// that arrived.
pub proof fn lemma_frames_go_out_once(h: HubView, inputs: Seq<HubInput>)
    ensures
        h.frames_sent(inputs) + h.taken_all(inputs).merge == h.merge + frames_of(inputs),
    decreases inputs.len(),
{
    if inputs.len() == 0 {
        assert(h.frames_sent(inputs) + h.taken_all(inputs).merge =~= h.merge + frames_of(inputs));
    } else {
        let init = inputs.drop_last();
        lemma_frames_go_out_once(h, init);
        let mid = h.taken_all(init);
        let sent = h.frames_sent(init);
        assert(sent + mid.merge == h.merge + frames_of(init));
        match inputs.last() {
            HubInput::Frame(m) => {
                assert(h.frames_sent(inputs) + h.taken_all(inputs).merge =~= (sent
                    + mid.merge).push(m));
                assert((h.merge + frames_of(init)).push(m) =~= h.merge + frames_of(inputs));
            },
            HubInput::Join(_) => {
                assert(h.frames_sent(inputs) + h.taken_all(inputs).merge =~= sent + mid.merge);
            },
            _ => {
                assert(h.frames_sent(inputs) + h.taken_all(inputs).merge =~= sent + mid.merge);
            },
        }
    }
}

/// What goes out after a join holds only frames that arrived after it.
///
/// Let `uid` join the hub `h`, and let anything happen after that: frames
/// and metadata arrive, others join and leave. Then the frames that go out
/// to the subscribers, together with those that the merge buffer holds in the
/// end, are the frames that arrived after the join, each once and in the
/// order of its arrival. The frames that `uid` got with its primer are not
/// among them a second time.
pub proof fn lemma_only_later_frames_after_join(
    h: HubView,
    uid: Seq<char>,
    inputs: Seq<HubInput>,
)
    ensures
        h.join(uid).frames_sent(inputs) + h.join(uid).taken_all(inputs).merge == frames_of(
            inputs,
        ),
{
    lemma_frames_go_out_once(h.join(uid), inputs);
    assert(h.join(uid).merge + frames_of(inputs) =~= frames_of(inputs));
}

} // verus!
