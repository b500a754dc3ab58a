//! The merge buffer of a subscriber: batches from the hub are gathered and
//! go out to the subscriber's connection together.

use crate::message::{messages_view, MessageView, RtmpMessage};
use vstd::prelude::*;

verus! {

/// Span of timestamps, in milliseconds, after which the merge buffer goes
/// out.
pub const PERF_MERGE_SEND_MSG: u32 = 350;

pub struct Merge {
    merge_msgs: Vec<RtmpMessage>,
    merge_size: usize,
    start_ts: u32,
}

/// What a [`Merge`] stands for.
pub struct MergeView {
    /// The messages that were gathered since the last flush.
    pub msgs: Seq<MessageView>,
    /// Number of payload bytes gathered since the last flush, as far as a
    /// `usize` counts.
    pub size: usize,
    /// Timestamp at the last flush.
    pub start_ts: u32,
}

impl View for Merge {
    type V = MergeView;

    closed spec fn view(&self) -> MergeView {
        MergeView {
            msgs: messages_view(self.merge_msgs@),
            size: self.merge_size,
            start_ts: self.start_ts,
        }
    }
}

/// The timestamp of the message, or 0 for a message without one.
pub open spec fn time_of(msg: MessageView) -> u32 {
    match msg.timestamp() {
        Some(t) => t,
        None => 0,
    }
}

/// The payload bytes of the first `n` messages of `batch`, added to `start`
/// as far as a `usize` counts.
pub open spec fn sized(start: usize, batch: Seq<MessageView>, n: nat) -> usize
    decreases n,
{
    if n == 0 || n > batch.len() {
        start
    } else {
        let before = sized(start, batch, (n - 1) as nat);
        let len = match batch[n - 1].len() {
            Some(l) => l,
            None => 0,
        };
        if before + len > usize::MAX {
            usize::MAX
        } else {
            (before + len) as usize
        }
    }
}

/// The batch holds a video keyframe.
pub open spec fn has_key_frame(batch: Seq<MessageView>) -> bool {
    exists|i: int| 0 <= i < batch.len() && (#[trigger] batch[i]).is_key_frame()
}

impl MergeView {
    /// An empty buffer.
    pub open spec fn empty() -> MergeView {
        MergeView { msgs: Seq::empty(), size: 0, start_ts: 0 }
    }

    /// Whether the buffer goes out once `batch` is gathered: the batch ends
    /// 350 ms or more past the last flush, or before it; it begins at
    /// timestamp 0, or is empty; or it holds a video keyframe.
    pub open spec fn flushes(self, batch: Seq<MessageView>) -> bool {
        if batch.len() == 0 {
            true
        } else {
            let cur = time_of(batch.last());
            cur >= self.start_ts + PERF_MERGE_SEND_MSG || cur < self.start_ts || time_of(batch[0])
                == 0 || has_key_frame(batch)
        }
    }

    /// The buffer after `batch` is gathered.
    pub open spec fn gathered(self, batch: Seq<MessageView>) -> MergeView {
        if self.flushes(batch) {
            MergeView {
                msgs: Seq::empty(),
                size: 0,
                start_ts: if batch.len() == 0 {
                    0
                } else {
                    time_of(batch.last())
                },
            }
        } else {
            MergeView {
                msgs: self.msgs + batch,
                size: sized(self.size, batch, batch.len()),
                ..self
            }
        }
    }

    /// What goes out once `batch` is gathered: everything gathered, with the
    /// batch at its end, or nothing.
    pub open spec fn flushed(self, batch: Seq<MessageView>) -> Option<Seq<MessageView>> {
        if self.flushes(batch) {
            Some(self.msgs + batch)
        } else {
            None
        }
    }
}

/// A video keyframe always makes the buffer go out.
pub proof fn lemma_keyframe_flushes(m: MergeView, batch: Seq<MessageView>)
    requires
        has_key_frame(batch),
    ensures
        m.flushed(batch) == Some(m.msgs + batch),
{
}

/// The view of a batch that may be missing.
pub open spec fn optional_batch(batch: Option<Vec<RtmpMessage>>) -> Option<Seq<MessageView>> {
    match batch {
        Some(b) => Some(messages_view(b@)),
        None => None,
    }
}

impl Merge {
    pub fn new() -> (r: Self)
        ensures
            r@ == MergeView::empty(),
    {
        let r = Merge { merge_msgs: Vec::new(), merge_size: 0, start_ts: 0 };
        assert(r@.msgs =~= Seq::<MessageView>::empty());
        r
    }

    /// Number of payload bytes gathered since the last flush.
    pub fn size(&self) -> (n: usize)
        ensures
            n == self@.size,
    {
        self.merge_size
    }

    /// Gathers a batch; returns what goes out, if the buffer goes out.
    pub fn gather(&mut self, msgs: Vec<RtmpMessage>) -> (r: Option<Vec<RtmpMessage>>)
        ensures
            optional_batch(r) == old(self)@.flushed(messages_view(msgs@)),
            final(self)@ == old(self)@.gathered(messages_view(msgs@)),
    {
        let ghost batch = messages_view(msgs@);
        let ghost held = self@.msgs;
        let mut msgs = msgs;
        let count = msgs.len();
        let mut cur_ts: u32 = 0;
        let mut first_ts: u32 = 0;
        let mut key_frame = false;
        let mut i: usize = 0;
        while i < count
            invariant
                i <= count,
                count == msgs@.len(),
                batch == messages_view(msgs@),
                self.merge_msgs == old(self).merge_msgs,
                self.start_ts == old(self).start_ts,
                self.merge_size == sized(old(self).merge_size, batch, i as nat),
                key_frame == has_key_frame(batch.subrange(0, i as int)),
                i > 0 ==> cur_ts == time_of(batch[i - 1]),
                i > 0 ==> first_ts == time_of(batch[0]),
                i == 0 ==> cur_ts == 0 && first_ts == 0,
            decreases count - i,
        {
            let msg = &msgs[i];
            assert(batch[i as int] == msg@);
            let ghost seen = batch.subrange(0, i as int);
            let ghost next = batch.subrange(0, i + 1);
            let is_key = msg.is_key_frame();
            proof {
                if is_key {
                    assert(next[i as int].is_key_frame());
                } else if has_key_frame(next) {
                    let k = choose|k: int| 0 <= k < next.len() && (#[trigger] next[k]).is_key_frame();
                    assert(seen[k].is_key_frame());
                } else if has_key_frame(seen) {
                    let k = choose|k: int| 0 <= k < seen.len() && (#[trigger] seen[k]).is_key_frame();
                    assert(next[k].is_key_frame());
                }
            }
            if !key_frame {
                key_frame = is_key;
            }
            cur_ts = match msg.timestamp() {
                Some(t) => t,
                None => 0,
            };
            if i == 0 {
                first_ts = cur_ts;
            }
            let len = match msg.len() {
                Some(n) => n,
                None => 0,
            };
            self.merge_size = self.merge_size.saturating_add(len);
            i += 1;
        }
        assert(batch.subrange(0, count as int) =~= batch);
        self.merge_msgs.append(&mut msgs);
        assert(messages_view(self.merge_msgs@) =~= held + batch);
        let past = cur_ts >= self.start_ts && cur_ts - self.start_ts >= PERF_MERGE_SEND_MSG;
        if count == 0 || past || cur_ts < self.start_ts || first_ts == 0 || key_frame {
            let mut out: Vec<RtmpMessage> = Vec::new();
            core::mem::swap(&mut out, &mut self.merge_msgs);
            assert(messages_view(self.merge_msgs@) =~= Seq::<MessageView>::empty());
            self.start_ts = cur_ts;
            self.merge_size = 0;
            Some(out)
        } else {
            None
        }
    }
}

} // verus!
