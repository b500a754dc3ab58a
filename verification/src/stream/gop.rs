//! The GOP cache: the frames from the last video keyframe on, so that a new
//! subscriber can start playing at once.

use crate::message::{messages_view, MessageView, RtmpMessage};
use vstd::prelude::*;

verus! {

/// Number of frames after which a GOP without a new keyframe is given up.
pub const MAX_FRAME: usize = 2048;

/// Number of audio frames in a row after which the video is taken for dead.
pub const MAX_CONTINUOUS_AUDIO: usize = 100;

#[derive(Debug)]
pub struct GopCache {
    caches: Vec<RtmpMessage>,
    max_frame: usize,
    cached_video: bool,
    continuous_audio_count: usize,
    timestamp_start: u32,
    timestamp_end: u32,
}

/// What a [`GopCache`] stands for.
pub struct GopView {
    /// The cached frames, oldest first.
    pub caches: Seq<MessageView>,
    /// Whether a keyframe has opened the GOP.
    pub cached_video: bool,
    /// Number of audio frames since the last video frame.
    pub continuous_audio_count: nat,
    /// Timestamp of the first cached frame, or 0.
    pub timestamp_start: u32,
    /// Timestamp of the last cached frame, or 0.
    pub timestamp_end: u32,
}

impl View for GopCache {
    type V = GopView;

    closed spec fn view(&self) -> GopView {
        GopView {
            caches: messages_view(self.caches@),
            cached_video: self.cached_video,
            continuous_audio_count: self.continuous_audio_count as nat,
            timestamp_start: self.timestamp_start,
            timestamp_end: self.timestamp_end,
        }
    }
}

impl GopView {
    /// The cache with nothing in it.
    pub open spec fn empty() -> GopView {
        GopView {
            caches: Seq::empty(),
            cached_video: false,
            continuous_audio_count: 0,
            timestamp_start: 0,
            timestamp_end: 0,
        }
    }

    /// The cache after `msg` arrived.
    ///
    /// A video keyframe empties the cache and becomes its first frame. Until
    /// a keyframe has come, nothing is cached. After that every audio and
    /// video frame is appended, unless it is the 101st audio frame in a row
    /// or would be the 2049th frame cached: either empties the cache, which
    /// then waits for the next keyframe. Other messages change nothing.
    pub open spec fn cache(self, msg: MessageView) -> GopView {
        if msg.timestamp() is None {
            self
        } else if msg.is_key_frame() {
            GopView {
                caches: seq![msg],
                cached_video: true,
                continuous_audio_count: 0,
                timestamp_start: msg.timestamp()->Some_0,
                timestamp_end: msg.timestamp()->Some_0,
            }
        } else if !self.cached_video {
            GopView {
                continuous_audio_count: if msg is VideoData {
                    0
                } else {
                    self.continuous_audio_count
                },
                ..self
            }
        } else if msg is AudioData && self.continuous_audio_count >= MAX_CONTINUOUS_AUDIO {
            GopView::empty()
        } else if self.caches.len() >= MAX_FRAME {
            GopView::empty()
        } else {
            GopView {
                caches: self.caches.push(msg),
                cached_video: true,
                continuous_audio_count: if msg is VideoData {
                    0
                } else {
                    self.continuous_audio_count + 1
                },
                timestamp_start: self.timestamp_start,
                timestamp_end: msg.timestamp()->Some_0,
            }
        }
    }

    /// The cache after the messages of `msgs` arrived, one after the other.
    pub open spec fn cache_all(self, msgs: Seq<MessageView>) -> GopView
        decreases msgs.len(),
    {
        if msgs.len() == 0 {
            self
        } else {
            self.cache_all(msgs.drop_last()).cache(msgs.last())
        }
    }

    /// A cache that holds anything begins with a video keyframe and holds no
    /// second one; it holds audio and video only; its window is the first
    /// and the last timestamp; and it keeps within its bounds.
    pub open spec fn wf(self) -> bool {
        &&& self.caches.len() <= MAX_FRAME
        &&& self.continuous_audio_count <= MAX_CONTINUOUS_AUDIO
        &&& self.cached_video <==> self.caches.len() > 0
        &&& forall|i: int| 0 <= i < self.caches.len() ==> (#[trigger] self.caches[i]).timestamp() is Some
        &&& forall|i: int| 0 < i < self.caches.len() ==> !(#[trigger] self.caches[i]).is_key_frame()
        &&& self.caches.len() > 0 ==> {
            &&& self.caches[0].is_key_frame()
            &&& self.caches[0].timestamp() == Some(self.timestamp_start)
            &&& self.caches.last().timestamp() == Some(self.timestamp_end)
        }
        &&& self.caches.len() == 0 ==> self.timestamp_start == 0 && self.timestamp_end == 0
    }

    /// No cached frame is older than the keyframe that the cache begins with.
    pub open spec fn ordered(self) -> bool {
        forall|i: int|
            0 <= i < self.caches.len() ==> (#[trigger] self.caches[i]).timestamp()->Some_0
                >= self.timestamp_start
    }
}

impl GopCache {
    pub closed spec fn wf(&self) -> bool {
        &&& self@.wf()
        &&& self.max_frame == MAX_FRAME
    }

    /// Well-formedness as the view shows it.
    pub proof fn lemma_wf_view(&self)
        requires
            self.wf(),
        ensures
            self@.wf(),
    {
    }

    /// The cached frames, oldest first.
    pub fn caches(&self) -> (r: &Vec<RtmpMessage>)
        ensures
            messages_view(r@) == self@.caches,
    {
        &self.caches
    }

    pub fn new() -> (r: Self)
        ensures
            r.wf(),
            r@ == GopView::empty(),
    {
        let r = GopCache {
            max_frame: MAX_FRAME,
            cached_video: false,
            continuous_audio_count: 0,
            caches: Vec::new(),
            timestamp_start: 0,
            timestamp_end: 0,
        };
        assert(r@.caches =~= Seq::<MessageView>::empty());
        r
    }

    /// Takes a message that was published into the cache.
    pub fn cache(&mut self, msg: RtmpMessage)
        requires
            old(self).wf(),
        ensures
            final(self).wf(),
            final(self)@ == old(self)@.cache(msg@),
    {
        proof {
            lemma_cache_wf(self@, msg@);
        }
        let (is_video, timestamp) = match &msg {
            RtmpMessage::VideoData { timestamp, .. } => (true, *timestamp),
            RtmpMessage::AudioData { timestamp, .. } => (false, *timestamp),
            _ => {
                return ;
            },
        };
        if is_video {
            self.continuous_audio_count = 0;
        }
        if msg.is_key_frame() {
            self.caches.clear();
            self.cached_video = true;
            self.timestamp_start = timestamp;
            self.timestamp_end = timestamp;
            self.caches.push(msg);
            assert(self@.caches =~= seq![msg@]);
            return ;
        }
        if !self.cached_video {
            return ;
        }
        if !is_video {
            if self.continuous_audio_count >= MAX_CONTINUOUS_AUDIO {
                self.clear();
                return ;
            }
            self.continuous_audio_count += 1;
        }
        if self.caches.len() >= self.max_frame {
            self.clear();
            return ;
        }
        self.timestamp_end = timestamp;
        self.caches.push(msg);
        assert(self@.caches =~= old(self)@.caches.push(msg@));
    }

    /// Time between the first and the last cached frame; 0 where the last is
    /// the older one.
    pub fn duration(&self) -> (d: u32)
        ensures
            d == if self@.timestamp_end >= self@.timestamp_start {
                self@.timestamp_end - self@.timestamp_start
            } else {
                0
            },
    {
        self.timestamp_end.saturating_sub(self.timestamp_start)
    }

    fn clear(&mut self)
        requires
            old(self).max_frame == MAX_FRAME,
        ensures
            final(self).wf(),
            final(self)@ == GopView::empty(),
    {
        self.caches.clear();
        self.cached_video = false;
        self.continuous_audio_count = 0;
        self.timestamp_end = 0;
        self.timestamp_start = 0;
        assert(self@.caches =~= Seq::<MessageView>::empty());
    }
}

/// Caching keeps the cache well formed.
pub proof fn lemma_cache_wf(g: GopView, msg: MessageView)
    requires
        g.wf(),
    ensures
        g.cache(msg).wf(),
{
    let after = g.cache(msg);
    if msg.timestamp() is Some && !msg.is_key_frame() && g.cached_video && !(msg is AudioData
        && g.continuous_audio_count >= MAX_CONTINUOUS_AUDIO) && g.caches.len() < MAX_FRAME {
        assert forall|i: int| 0 <= i < after.caches.len() implies (
        #[trigger] after.caches[i]).timestamp() is Some by {
            if i < g.caches.len() {
                assert(after.caches[i] == g.caches[i]);
            }
        }
        assert forall|i: int| 0 < i < after.caches.len() implies !(
        #[trigger] after.caches[i]).is_key_frame() by {
            if i < g.caches.len() {
                assert(after.caches[i] == g.caches[i]);
            }
        }
        assert(g.caches.len() > 0);
        assert(after.caches[0] == g.caches[0]);
    }
}

/// In a GOP batch every frame after the first follows a keyframe that is not
/// younger than itself.
///
/// Let the publisher's timestamps never fall below that of the keyframe that
/// opened the current GOP: each frame is a keyframe or at least as young as
/// the cache's first frame. Then the cache stays well formed and ordered: its
/// first frame is a keyframe, no later frame is one, so that the keyframe
/// before any later frame is the first, and the first is not younger than
/// any of them.
pub proof fn lemma_keyframe_precedes(g: GopView, msg: MessageView)
    requires
        g.wf(),
        g.ordered(),
        msg.timestamp() matches Some(t) ==> msg.is_key_frame() || t >= g.timestamp_start,
    ensures
        g.cache(msg).wf(),
        g.cache(msg).ordered(),
        forall|i: int|
            0 < i < g.cache(msg).caches.len() ==> {
                &&& g.cache(msg).caches[0].is_key_frame()
                &&& !(#[trigger] g.cache(msg).caches[i]).is_key_frame()
                &&& g.cache(msg).caches[0].timestamp()->Some_0 <= g.cache(
                    msg,
                ).caches[i].timestamp()->Some_0
            },
{
    lemma_cache_wf(g, msg);
    let after = g.cache(msg);
    assert forall|i: int| 0 <= i < after.caches.len() implies (
    #[trigger] after.caches[i]).timestamp()->Some_0 >= after.timestamp_start by {
        if after.caches.len() == g.caches.len() + 1 && i < g.caches.len() {
            assert(after.caches[i] == g.caches[i]);
        }
    }
}

/// Each frame of `frames` is a keyframe or not older than the keyframe that
/// opened the GOP into which it comes.
pub open spec fn in_order(g: GopView, frames: Seq<MessageView>) -> bool {
    forall|i: int|
        0 <= i < frames.len() ==> ((#[trigger] frames[i]).timestamp() matches Some(t)
            ==> frames[i].is_key_frame() || t >= g.cache_all(
            frames.subrange(0, i),
        ).timestamp_start)
}

/// Whatever is published in order leaves a cache in which every frame after
/// the first follows a keyframe that is not younger than itself.
pub proof fn lemma_keyframe_precedes_all(g: GopView, frames: Seq<MessageView>)
    requires
        g.wf(),
        g.ordered(),
        in_order(g, frames),
    ensures
        g.cache_all(frames).wf(),
        g.cache_all(frames).ordered(),
        forall|i: int|
            0 < i < g.cache_all(frames).caches.len() ==> {
                &&& g.cache_all(frames).caches[0].is_key_frame()
                &&& !(#[trigger] g.cache_all(frames).caches[i]).is_key_frame()
                &&& g.cache_all(frames).caches[0].timestamp()->Some_0 <= g.cache_all(
                    frames,
                ).caches[i].timestamp()->Some_0
            },
    decreases frames.len(),
{
    if frames.len() == 0 {
        assert forall|i: int| 0 < i < g.caches.len() implies g.caches[0].timestamp()->Some_0
            <= (#[trigger] g.caches[i]).timestamp()->Some_0 by {
            assert(g.caches[i].timestamp()->Some_0 >= g.timestamp_start);
        }
    } else {
        let init = frames.drop_last();
        assert forall|i: int| 0 <= i < init.len() implies ((#[trigger] init[i]).timestamp() matches Some(
            t,
        ) ==> init[i].is_key_frame() || t >= g.cache_all(init.subrange(0, i)).timestamp_start) by {
            assert(init[i] == frames[i]);
            assert(init.subrange(0, i) =~= frames.subrange(0, i));
        }
        lemma_keyframe_precedes_all(g, init);
        assert(frames.subrange(0, frames.len() - 1) =~= init);
        assert(frames[frames.len() - 1] == frames.last());
        lemma_keyframe_precedes(g.cache_all(init), frames.last());
    }
}

} // verus!
