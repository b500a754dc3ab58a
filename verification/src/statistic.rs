//! What is counted of a connection and of a stream, how a stream's counts
//! follow those of its connections, and the table of all of them.

use crate::connection::RtmpConnType;
use crate::text::{distinct, index_of, lemma_index_from, names_view, position};
use crate::utils::current_time;
use vstd::string::StrSliceExecFns;
use vstd::prelude::*;

verus! {

/// Seconds between two reports of a stream's rates.
pub const STREAM_PRINT_INTVAL: u64 = 10;

#[derive(Debug)]
pub struct ConnStat {
    pub conn_time: u32,
    pub stream_key: String,
    pub conn_type: RtmpConnType,
    pub recv_bytes: u64,
    pub send_bytes: u64,
    pub audio_count: u64,
    pub video_count: u64,
}

/// What a [`ConnStat`] stands for.
pub struct ConnStatView {
    pub conn_time: u32,
    pub stream_key: Seq<char>,
    pub conn_type: RtmpConnType,
    pub recv_bytes: u64,
    pub send_bytes: u64,
    pub audio_count: u64,
    pub video_count: u64,
}

impl View for ConnStat {
    type V = ConnStatView;

    open spec fn view(&self) -> ConnStatView {
        ConnStatView {
            conn_time: self.conn_time,
            stream_key: self.stream_key@,
            conn_type: self.conn_type,
            recv_bytes: self.recv_bytes,
            send_bytes: self.send_bytes,
            audio_count: self.audio_count,
            video_count: self.video_count,
        }
    }
}

impl ConnStatView {
    /// The counts of a connection that began at `conn_time`.
    pub open spec fn begun(stream_key: Seq<char>, conn_type: RtmpConnType, conn_time: u32) -> ConnStatView {
        ConnStatView {
            conn_time,
            stream_key,
            conn_type,
            recv_bytes: 0,
            send_bytes: 0,
            audio_count: 0,
            video_count: 0,
        }
    }

    /// The counts after a report: everything but the time of the
    /// connection's beginning is the report's.
    pub open spec fn updated(self, stat: ConnStatView) -> ConnStatView {
        ConnStatView { conn_time: self.conn_time, ..stat }
    }
}

/// `a - b`, or 0 where `b` is the larger.
pub open spec fn minus(a: u64, b: u64) -> u64 {
    if a >= b {
        (a - b) as u64
    } else {
        0
    }
}

/// `a + b`, or `u64::MAX` where that is smaller.
pub open spec fn plus(a: u64, b: u64) -> u64 {
    if a + b > u64::MAX {
        u64::MAX
    } else {
        (a + b) as u64
    }
}

impl ConnStat {
    /// The counts of a connection that begins now.
    pub fn new(stream_key: String, conn_type: RtmpConnType) -> (r: Self)
        ensures
            r@ == ConnStatView::begun(stream_key@, conn_type, r.conn_time),
    {
        ConnStat::begun(stream_key, conn_type, current_time())
    }

    /// The counts of a connection that began at `conn_time`.
    pub fn begun(stream_key: String, conn_type: RtmpConnType, conn_time: u32) -> (r: Self)
        ensures
            r@ == ConnStatView::begun(stream_key@, conn_type, conn_time),
    {
        ConnStat {
            stream_key,
            conn_type,
            conn_time,
            recv_bytes: 0,
            send_bytes: 0,
            audio_count: 0,
            video_count: 0,
        }
    }

    /// Takes a report of the connection. Returns by how many bytes the count
    /// of bytes sent has grown.
    pub fn update(&mut self, stat: ConnStat) -> (delta_send_bytes: u64)
        ensures
            final(self)@ == old(self)@.updated(stat@),
            delta_send_bytes == minus(stat@.send_bytes, old(self)@.send_bytes),
    {
        let delta_send_bytes = stat.send_bytes.saturating_sub(self.send_bytes);
        self.audio_count = stat.audio_count;
        self.video_count = stat.video_count;
        self.recv_bytes = stat.recv_bytes;
        self.send_bytes = stat.send_bytes;
        self.conn_type = stat.conn_type;
        self.stream_key = stat.stream_key;
        delta_send_bytes
    }
}

#[derive(Debug, Clone, Copy)]
pub struct StreamStat {
    pub audio: u64,
    pub video: u64,
    pub recv_bytes: u64,
    pub send_bytes: u64,
    pub publish_type: RtmpConnType,
    pub start_time: u32,
    pub clients: u32,
    /// When the rates were last reported, in seconds.
    pub last_logged: Option<u64>,
    pub last_video: u64,
    pub last_recv_bytes: u64,
    pub last_send_bytes: u64,
}

/// The rates of a stream since its last report, per second.
#[derive(Debug, Clone, Copy, PartialEq, Eq, Structural)]
pub struct Rates {
    pub fps: u64,
    pub recv_rate: u64,
    pub send_rate: u64,
}

impl StreamStat {
    /// The stream's rates as they are to be reported at `now`: none before
    /// ten seconds have passed since the last report, zero at the first
    /// report, and else what was counted since the last report by the
    /// seconds since.
    pub open spec fn rates(self, now: u64) -> Option<Rates> {
        match self.last_logged {
            None => Some(Rates { fps: 0, recv_rate: 0, send_rate: 0 }),
            Some(last) => if minus(now, last) < STREAM_PRINT_INTVAL {
                None
            } else {
                Some(
                    Rates {
                        fps: minus(self.video, self.last_video) / minus(now, last),
                        recv_rate: minus(self.recv_bytes, self.last_recv_bytes) / minus(now, last),
                        send_rate: minus(self.send_bytes, self.last_send_bytes) / minus(now, last),
                    },
                )
            },
        }
    }

    /// The stream after a report at `now`.
    pub open spec fn reported(self, now: u64) -> StreamStat {
        StreamStat {
            last_logged: Some(now),
            last_video: self.video,
            last_recv_bytes: self.recv_bytes,
            last_send_bytes: self.send_bytes,
            ..self
        }
    }

    /// The counts of a stream that began at `start_time`.
    pub fn new(start_time: u32, publish_type: RtmpConnType) -> (r: Self)
        ensures
            r == StreamStat::begun(start_time, publish_type),
    {
        StreamStat {
            audio: 0,
            video: 0,
            recv_bytes: 0,
            send_bytes: 0,
            clients: 0,
            publish_type,
            start_time,
            last_logged: None,
            last_video: 0,
            last_recv_bytes: 0,
            last_send_bytes: 0,
        }
    }

    /// Says whether the stream's rates are to be reported at `now`, in
    /// seconds, and if so, which; the report is then taken as made.
    pub fn can_print(&mut self, now: u64) -> (r: Option<Rates>)
        ensures
            r == old(self).rates(now),
            r is Some ==> *final(self) == old(self).reported(now),
            r is None ==> *final(self) == *old(self),
    {
        let mut rates = Rates { fps: 0, recv_rate: 0, send_rate: 0 };
        if let Some(last) = self.last_logged {
            let d = now.saturating_sub(last);
            if d < STREAM_PRINT_INTVAL {
                return None;
            }
            rates.fps = self.video.saturating_sub(self.last_video) / d;
            rates.recv_rate = self.recv_bytes.saturating_sub(self.last_recv_bytes) / d;
            rates.send_rate = self.send_bytes.saturating_sub(self.last_send_bytes) / d;
        }
        self.last_logged = Some(now);
        self.last_video = self.video;
        self.last_recv_bytes = self.recv_bytes;
        self.last_send_bytes = self.send_bytes;
        Some(rates)
    }

    /// Counts a connection that joined the stream.
    pub fn on_create_conn(&mut self)
        ensures
            *final(self) == one_more(*old(self)),
    {
        self.clients = self.clients.saturating_add(1);
    }

    /// Takes a report of a connection of the stream: the publisher's counts
    /// are the stream's, and what a player was sent is added to what the
    /// stream sent.
    pub fn on_update_conn(&mut self, stat: &ConnStat, delta_send_bytes: u64)
        ensures
            *final(self) == if stat.conn_type.publishes() {
                StreamStat {
                    audio: stat.audio_count,
                    video: stat.video_count,
                    recv_bytes: stat.recv_bytes,
                    ..*old(self)
                }
            } else {
                StreamStat { send_bytes: plus(old(self).send_bytes, delta_send_bytes), ..*old(self) }
            },
    {
        if stat.conn_type.is_publish() {
            self.audio = stat.audio_count;
            self.video = stat.video_count;
            self.recv_bytes = stat.recv_bytes;
        } else {
            self.send_bytes = self.send_bytes.saturating_add(delta_send_bytes);
        }
    }

    /// Counts out a player that left the stream, with what it was sent since
    /// its last report.
    pub fn on_delete_conn(&mut self, delta_send_bytes: u64)
        ensures
            *final(self) == (StreamStat {
                clients: if old(self).clients > 0 {
                    (old(self).clients - 1) as u32
                } else {
                    0
                },
                send_bytes: plus(old(self).send_bytes, delta_send_bytes),
                ..*old(self)
            }),
    {
        self.clients = self.clients.saturating_sub(1);
        self.send_bytes = self.send_bytes.saturating_add(delta_send_bytes);
    }
}

impl ConnStat {
    /// A copy of the counts.
    pub fn duplicate(&self) -> (r: Self)
        ensures
            r@ == self@,
    {
        ConnStat {
            conn_time: self.conn_time,
            stream_key: self.stream_key.clone(),
            conn_type: self.conn_type,
            recv_bytes: self.recv_bytes,
            send_bytes: self.send_bytes,
            audio_count: self.audio_count,
            video_count: self.video_count,
        }
    }
}

/// What reaches the statistics from a connection.
#[derive(Debug)]
pub enum StatEvent {
    /// The connection of this identity has registered.
    CreateConn(String, ConnStat),
    /// The connection of this identity has unregistered.
    DeleteConn(String, ConnStat),
    /// The connection of this identity reports its counts.
    UpdateConn(String, ConnStat),
}

/// The views of a list of connection counts, in order.
pub open spec fn conns_view(conns: Seq<ConnStat>) -> Seq<ConnStatView> {
    Seq::new(conns.len(), |i: int| conns[i]@)
}

/// `text` holds `part` from index `at` on.
pub open spec fn holds_at(text: Seq<char>, part: Seq<char>, at: int) -> bool {
    0 <= at && at + part.len() <= text.len() && text.subrange(at, at + part.len()) == part
}

/// `text` holds `part` somewhere.
pub open spec fn holds(text: Seq<char>, part: Seq<char>) -> bool {
    exists|at: int| holds_at(text, part, at)
}

/// Whether `text` holds `part` from index `at` on.
fn matches_at(text: &str, part: &str, at: usize) -> (r: bool)
    requires
        at + part@.len() <= text@.len(),
    ensures
        r == holds_at(text@, part@, at as int),
{
    let len = text.unicode_len();
    let n = part.unicode_len();
    let mut i: usize = 0;
    while i < n
        invariant
            i <= n,
            n == part@.len(),
            len == text@.len(),
            at + n <= len,
            forall|j: int| 0 <= j < i ==> text@[at + j] == part@[j],
        decreases n - i,
    {
        if text.get_char(at + i) != part.get_char(i) {
            assert(text@.subrange(at as int, at + n)[i as int] != part@[i as int]);
            return false;
        }
        i += 1;
    }
    assert(text@.subrange(at as int, at + n) =~= part@);
    true
}

/// Whether `text` holds `part` somewhere.
pub fn contains_text(text: &str, part: &str) -> (r: bool)
    ensures
        r == holds(text@, part@),
{
    let len = text.unicode_len();
    let n = part.unicode_len();
    if n > len {
        return false;
    }
    let last = len - n;
    let mut at: usize = 0;
    loop
        invariant
            n <= len,
            len == text@.len(),
            n == part@.len(),
            last == len - n,
            at <= last,
            forall|k: int| 0 <= k < at ==> !holds_at(text@, part@, k),
        decreases last - at,
    {
        if matches_at(text, part, at) {
            return true;
        }
        if at == last {
            return false;
        }
        at += 1;
    }
}

/// The table of the connections and of the streams.
pub struct Statistic {
    conn_ids: Vec<String>,
    conns: Vec<ConnStat>,
    stream_keys: Vec<String>,
    streams: Vec<StreamStat>,
}

/// What a [`Statistic`] stands for.
pub struct StatisticView {
    /// The identities of the connections.
    pub conn_ids: Seq<Seq<char>>,
    /// The counts of each connection, in the order of `conn_ids`.
    pub conns: Seq<ConnStatView>,
    /// The keys of the streams.
    pub stream_keys: Seq<Seq<char>>,
    /// The counts of each stream, in the order of `stream_keys`.
    pub streams: Seq<StreamStat>,
}

impl View for Statistic {
    type V = StatisticView;

    closed spec fn view(&self) -> StatisticView {
        StatisticView {
            conn_ids: names_view(self.conn_ids@),
            conns: conns_view(self.conns@),
            stream_keys: names_view(self.stream_keys@),
            streams: self.streams@,
        }
    }
}

/// The clients of a stream, one more.
pub open spec fn one_more(stream: StreamStat) -> StreamStat {
    StreamStat {
        clients: if stream.clients < u32::MAX {
            (stream.clients + 1) as u32
        } else {
            u32::MAX
        },
        ..stream
    }
}

/// The stream after its rates were looked at at `now`: reported, if they are
/// to be.
pub open spec fn looked_at(stream: StreamStat, now: u64) -> StreamStat {
    if stream.rates(now) is Some {
        stream.reported(now)
    } else {
        stream
    }
}

impl StatisticView {
    /// Every connection and every stream has its counts, and none stands in
    /// the table twice.
    pub open spec fn wf(self) -> bool {
        &&& self.conn_ids.len() == self.conns.len()
        &&& self.stream_keys.len() == self.streams.len()
        &&& distinct(self.conn_ids)
        &&& distinct(self.stream_keys)
    }

    /// The table with the counts `stat` for the connection `uid`.
    pub open spec fn with_conn(self, uid: Seq<char>, stat: ConnStatView) -> StatisticView {
        match index_of(self.conn_ids, uid) {
            Some(i) => StatisticView { conns: self.conns.update(i, stat), ..self },
            None => StatisticView {
                conn_ids: self.conn_ids.push(uid),
                conns: self.conns.push(stat),
                ..self
            },
        }
    }

    /// The table without the connection `uid`.
    pub open spec fn without_conn(self, uid: Seq<char>) -> StatisticView {
        match index_of(self.conn_ids, uid) {
            Some(i) => StatisticView {
                conn_ids: self.conn_ids.remove(i),
                conns: self.conns.remove(i),
                ..self
            },
            None => self,
        }
    }

    /// The table after the connection `uid` has registered with the counts
    /// `stat`, where a stream that begins with it begins at `start_time`.
    ///
    /// The connection is taken into the table. A player of a stream that is
    /// not in the table changes nothing else; any other connection is
    /// counted as a client of its stream, which a publisher brings into the
    /// table.
    pub open spec fn on_create_conn(
        self,
        uid: Seq<char>,
        stat: ConnStatView,
        start_time: u32,
        now: u64,
    ) -> StatisticView {
        let taken = self.with_conn(uid, stat);
        match index_of(self.stream_keys, stat.stream_key) {
            Some(j) => StatisticView {
                streams: taken.streams.update(j, looked_at(one_more(taken.streams[j]), now)),
                ..taken
            },
            None => if stat.conn_type.plays() {
                taken
            } else {
                StatisticView {
                    stream_keys: taken.stream_keys.push(stat.stream_key),
                    streams: taken.streams.push(
                        looked_at(one_more(StreamStat::begun(start_time, stat.conn_type)), now),
                    ),
                    ..taken
                }
            },
        }
    }

    /// The rates that are reported when the connection registers.
    pub open spec fn created_rates(self, stat: ConnStatView, start_time: u32, now: u64) -> Option<
        Rates,
    > {
        match index_of(self.stream_keys, stat.stream_key) {
            Some(j) => one_more(self.streams[j]).rates(now),
            None => if stat.conn_type.plays() {
                None
            } else {
                one_more(StreamStat::begun(start_time, stat.conn_type)).rates(now)
            },
        }
    }

    /// The stream `j` after a report `stat` of one of its connections that
    /// had sent `sent` bytes at its last report.
    pub open spec fn stream_updated(self, j: int, stat: ConnStatView, sent: u64, now: u64) -> StreamStat {
        if stat.conn_type.publishes() {
            looked_at(
                StreamStat {
                    audio: stat.audio_count,
                    video: stat.video_count,
                    recv_bytes: stat.recv_bytes,
                    ..self.streams[j]
                },
                now,
            )
        } else {
            StreamStat {
                send_bytes: plus(self.streams[j].send_bytes, minus(stat.send_bytes, sent)),
                ..self.streams[j]
            }
        }
    }

    /// The table after the connection `uid` has reported the counts `stat`.
    /// A connection that is not in the table changes nothing.
    pub open spec fn on_update_conn(self, uid: Seq<char>, stat: ConnStatView, now: u64) -> StatisticView {
        match index_of(self.conn_ids, uid) {
            None => self,
            Some(i) => {
                let taken = StatisticView {
                    conns: self.conns.update(i, self.conns[i].updated(stat)),
                    ..self
                };
                match index_of(self.stream_keys, stat.stream_key) {
                    None => taken,
                    Some(j) => StatisticView {
                        streams: self.streams.update(
                            j,
                            self.stream_updated(j, stat, self.conns[i].send_bytes, now),
                        ),
                        ..taken
                    },
                }
            },
        }
    }

    /// The rates that are reported when the connection reports.
    pub open spec fn updated_rates(self, uid: Seq<char>, stat: ConnStatView, now: u64) -> Option<
        Rates,
    > {
        match (index_of(self.conn_ids, uid), index_of(self.stream_keys, stat.stream_key)) {
            (Some(_), Some(j)) => if stat.conn_type.publishes() {
                (StreamStat {
                    audio: stat.audio_count,
                    video: stat.video_count,
                    recv_bytes: stat.recv_bytes,
                    ..self.streams[j]
                }).rates(now)
            } else {
                None
            },
            _ => None,
        }
    }

    /// The table after the connection `uid` has unregistered with the counts
    /// `stat`: the connection leaves the table; a publisher takes its stream
    /// along, and a player is counted out of its stream.
    pub open spec fn on_delete_conn(self, uid: Seq<char>, stat: ConnStatView) -> StatisticView {
        let left = self.without_conn(uid);
        match index_of(self.stream_keys, stat.stream_key) {
            None => left,
            Some(j) => if stat.conn_type.publishes() {
                StatisticView {
                    stream_keys: self.stream_keys.remove(j),
                    streams: self.streams.remove(j),
                    ..left
                }
            } else {
                let delta = match index_of(self.conn_ids, uid) {
                    Some(i) => minus(stat.send_bytes, self.conns[i].send_bytes),
                    None => 0,
                };
                StatisticView {
                    streams: self.streams.update(
                        j,
                        StreamStat {
                            clients: if self.streams[j].clients > 0 {
                                (self.streams[j].clients - 1) as u32
                            } else {
                                0
                            },
                            send_bytes: plus(self.streams[j].send_bytes, delta),
                            ..self.streams[j]
                        },
                    ),
                    ..left
                }
            },
        }
    }
}

impl StreamStat {
    /// The counts of a stream that began at `start_time`.
    pub open spec fn begun(start_time: u32, publish_type: RtmpConnType) -> StreamStat {
        StreamStat {
            audio: 0,
            video: 0,
            recv_bytes: 0,
            send_bytes: 0,
            clients: 0,
            publish_type,
            start_time,
            last_logged: None,
            last_video: 0,
            last_recv_bytes: 0,
            last_send_bytes: 0,
        }
    }
}

/// Whether a name is wanted by `filter`: it holds the filter, or the filter
/// is empty.
pub open spec fn wanted(name: Seq<char>, filter: Seq<char>) -> bool {
    filter.len() == 0 || holds(name, filter)
}

/// The first `n` rows of a table, name and counts, whose name is wanted by
/// `filter`, in order.
pub open spec fn picked<V>(names: Seq<Seq<char>>, counts: Seq<V>, filter: Seq<char>, n: nat) -> Seq<
    (Seq<char>, V),
>
    decreases n,
{
    if n == 0 || n > names.len() || n > counts.len() {
        Seq::empty()
    } else if wanted(names[n - 1], filter) {
        picked(names, counts, filter, (n - 1) as nat).push((names[n - 1], counts[n - 1]))
    } else {
        picked(names, counts, filter, (n - 1) as nat)
    }
}

/// The views of a list of streams with their keys.
pub open spec fn stream_rows(rows: Seq<(String, StreamStat)>) -> Seq<(Seq<char>, StreamStat)> {
    Seq::new(rows.len(), |k: int| (rows[k].0@, rows[k].1))
}

/// The views of a list of connections with their identities.
pub open spec fn conn_rows(rows: Seq<(String, ConnStat)>) -> Seq<(Seq<char>, ConnStatView)> {
    Seq::new(rows.len(), |k: int| (rows[k].0@, rows[k].1@))
}

impl Statistic {
    pub closed spec fn wf(&self) -> bool {
        self@.wf()
    }

    /// Well-formedness as the view shows it.
    pub proof fn lemma_wf_view(&self)
        requires
            self.wf(),
        ensures
            self@.wf(),
    {
    }

    pub fn new() -> (r: Self)
        ensures
            r.wf(),
            r@ == (StatisticView {
                conn_ids: Seq::empty(),
                conns: Seq::empty(),
                stream_keys: Seq::empty(),
                streams: Seq::empty(),
            }),
    {
        let r = Statistic {
            conn_ids: Vec::new(),
            conns: Vec::new(),
            stream_keys: Vec::new(),
            streams: Vec::new(),
        };
        assert(r@.conn_ids =~= Seq::<Seq<char>>::empty());
        assert(r@.conns =~= Seq::<ConnStatView>::empty());
        assert(r@.stream_keys =~= Seq::<Seq<char>>::empty());
        r
    }

    /// Number of connections in the table.
    pub fn conns(&self) -> (n: usize)
        requires
            self.wf(),
        ensures
            n == self@.conn_ids.len(),
    {
        self.conn_ids.len()
    }

    /// Number of streams in the table.
    pub fn streams(&self) -> (n: usize)
        requires
            self.wf(),
        ensures
            n == self@.stream_keys.len(),
    {
        self.stream_keys.len()
    }

    /// Takes the counts `stat` for the connection `uid`.
    fn put_conn(&mut self, uid: String, stat: ConnStat)
        requires
            old(self).wf(),
        ensures
            final(self).wf(),
            final(self)@ == old(self)@.with_conn(uid@, stat@),
    {
        proof {
            lemma_index_from(self@.conn_ids, uid@, 0);
        }
        match position(&self.conn_ids, uid.as_str()) {
            Some(i) => {
                self.conns.set(i, stat);
                assert(self@.conns =~= old(self)@.conns.update(i as int, stat@));
            },
            None => {
                self.conn_ids.push(uid);
                self.conns.push(stat);
                assert(self@.conn_ids =~= old(self)@.conn_ids.push(uid@));
                assert(self@.conns =~= old(self)@.conns.push(stat@));
            },
        }
    }

    /// Takes a connection that has registered into the table; a stream that
    /// begins with it begins at `start_time`. Returns the rates of its
    /// stream, if they are to be reported at `now`, in seconds.
    pub fn on_create_conn(&mut self, uid: String, stat: ConnStat, start_time: u32, now: u64) -> (r:
        Option<Rates>)
        requires
            old(self).wf(),
        ensures
            final(self).wf(),
            final(self)@ == old(self)@.on_create_conn(uid@, stat@, start_time, now),
            r == old(self)@.created_rates(stat@, start_time, now),
    {
        let stream_key = stat.stream_key.clone();
        let conn_type = stat.conn_type;
        let ghost key = stat@.stream_key;
        self.put_conn(uid, stat);
        proof {
            lemma_index_from(self@.stream_keys, key, 0);
        }
        match position(&self.stream_keys, stream_key.as_str()) {
            Some(j) => {
                let mut stream = self.streams[j];
                stream.on_create_conn();
                let rates = stream.can_print(now);
                self.streams.set(j, stream);
                rates
            },
            None => {
                if conn_type.is_play() {
                    return None;
                }
                let mut stream = StreamStat::new(start_time, conn_type);
                stream.on_create_conn();
                let rates = stream.can_print(now);
                let ghost before = self@;
                self.stream_keys.push(stream_key);
                self.streams.push(stream);
                assert(self@.stream_keys =~= before.stream_keys.push(key));
                rates
            },
        }
    }

    /// Takes a report of a connection. Returns the rates of its stream, if
    /// they are to be reported at `now`, in seconds.
    pub fn on_update_conn(&mut self, uid: String, stat: ConnStat, now: u64) -> (r: Option<Rates>)
        requires
            old(self).wf(),
        ensures
            final(self).wf(),
            final(self)@ == old(self)@.on_update_conn(uid@, stat@, now),
            r == old(self)@.updated_rates(uid@, stat@, now),
    {
        let i = match position(&self.conn_ids, uid.as_str()) {
            Some(i) => i,
            None => {
                return None;
            },
        };
        let copy = stat.duplicate();
        let mut conn = ConnStat::begun(String::new(), stat.conn_type, 0);
        self.conns.set_and_swap(i, &mut conn);
        assert(conn@ == old(self)@.conns[i as int]);
        let delta_send_bytes = conn.update(stat);
        self.conns.set(i, conn);
        assert(self@.conns =~= old(self)@.conns.update(
            i as int,
            old(self)@.conns[i as int].updated(copy@),
        ));
        match position(&self.stream_keys, copy.stream_key.as_str()) {
            Some(j) => {
                let mut stream = self.streams[j];
                stream.on_update_conn(&copy, delta_send_bytes);
                let mut rates = None;
                if copy.conn_type.is_publish() {
                    rates = stream.can_print(now);
                }
                self.streams.set(j, stream);
                rates
            },
            None => None,
        }
    }

    /// Takes a connection that has unregistered out of the table.
    pub fn on_delete_conn(&mut self, uid: String, stat: ConnStat)
        requires
            old(self).wf(),
        ensures
            final(self).wf(),
            final(self)@ == old(self)@.on_delete_conn(uid@, stat@),
    {
        proof {
            lemma_index_from(self@.conn_ids, uid@, 0);
            lemma_index_from(self@.stream_keys, stat@.stream_key, 0);
        }
        let mut delta: u64 = 0;
        let mut left = false;
        if let Some(i) = position(&self.conn_ids, uid.as_str()) {
            assert(self@.conns[i as int] == self.conns@[i as int]@);
            delta = stat.send_bytes.saturating_sub(self.conns[i].send_bytes);
            self.conn_ids.remove(i);
            self.conns.remove(i);
            assert(self@.conn_ids =~= old(self)@.conn_ids.remove(i as int));
            assert(self@.conns =~= old(self)@.conns.remove(i as int));
            left = true;
        }
        if let Some(j) = position(&self.stream_keys, stat.stream_key.as_str()) {
            if stat.conn_type.is_publish() {
                let ghost before = self@;
                self.stream_keys.remove(j);
                self.streams.remove(j);
                assert(self@.stream_keys =~= before.stream_keys.remove(j as int));
            } else {
                let mut stream = self.streams[j];
                stream.on_delete_conn(delta);
                self.streams.set(j, stream);
            }
        }
    }

    /// Takes an event of a connection; see [`Statistic::on_create_conn`],
    /// [`Statistic::on_update_conn`] and [`Statistic::on_delete_conn`].
    pub fn run(&mut self, ev: StatEvent, start_time: u32, now: u64) -> (r: Option<Rates>)
        requires
            old(self).wf(),
        ensures
            final(self).wf(),
            match ev {
                StatEvent::CreateConn(uid, stat) => final(self)@ == old(self)@.on_create_conn(
                    uid@,
                    stat@,
                    start_time,
                    now,
                ) && r == old(self)@.created_rates(stat@, start_time, now),
                StatEvent::UpdateConn(uid, stat) => final(self)@ == old(self)@.on_update_conn(
                    uid@,
                    stat@,
                    now,
                ) && r == old(self)@.updated_rates(uid@, stat@, now),
                StatEvent::DeleteConn(uid, stat) => final(self)@ == old(self)@.on_delete_conn(
                    uid@,
                    stat@,
                ) && r is None,
            },
    {
        match ev {
            StatEvent::CreateConn(uid, stat) => self.on_create_conn(uid, stat, start_time, now),
            StatEvent::UpdateConn(uid, stat) => self.on_update_conn(uid, stat, now),
            StatEvent::DeleteConn(uid, stat) => {
                self.on_delete_conn(uid, stat);
                None
            },
        }
    }

    /// The streams whose key holds `filter`, or all streams for an empty
    /// filter: key and counts, in the order of the table.
    pub fn on_query_streams(&self, filter: &str) -> (r: Vec<(String, StreamStat)>)
        requires
            self.wf(),
        ensures
            stream_rows(r@) == picked(
                self@.stream_keys,
                self@.streams,
                filter@,
                self@.stream_keys.len(),
            ),
    {
        let all = filter.unicode_len() == 0;
        let ghost keys = self@.stream_keys;
        let ghost counts = self@.streams;
        let mut res: Vec<(String, StreamStat)> = Vec::new();
        assert(stream_rows(res@) =~= picked(keys, counts, filter@, 0));
        let mut n: usize = 0;
        while n < self.stream_keys.len()
            invariant
                n <= self.stream_keys@.len(),
                self.wf(),
                keys == self@.stream_keys,
                counts == self@.streams,
                keys.len() == self.stream_keys@.len(),
                keys.len() == counts.len(),
                all == (filter@.len() == 0),
                stream_rows(res@) == picked(keys, counts, filter@, n as nat),
            decreases self.stream_keys@.len() - n,
        {
            assert(keys[n as int] == self.stream_keys@[n as int]@);
            let ghost before = stream_rows(res@);
            if all || contains_text(self.stream_keys[n].as_str(), filter) {
                res.push((self.stream_keys[n].clone(), self.streams[n]));
                assert(stream_rows(res@) =~= before.push((keys[n as int], counts[n as int])));
            }
            n += 1;
        }
        res
    }

    /// The connections whose identity holds `filter`, or all connections for
    /// an empty filter: identity and counts, in the order of the table.
    pub fn on_query_conns(&self, filter: &str) -> (r: Vec<(String, ConnStat)>)
        requires
            self.wf(),
        ensures
            conn_rows(r@) == picked(self@.conn_ids, self@.conns, filter@, self@.conn_ids.len()),
    {
        let all = filter.unicode_len() == 0;
        let ghost ids = self@.conn_ids;
        let ghost counts = self@.conns;
        let mut res: Vec<(String, ConnStat)> = Vec::new();
        assert(conn_rows(res@) =~= picked(ids, counts, filter@, 0));
        let mut n: usize = 0;
        while n < self.conn_ids.len()
            invariant
                n <= self.conn_ids@.len(),
                self.wf(),
                ids == self@.conn_ids,
                counts == self@.conns,
                ids.len() == self.conn_ids@.len(),
                ids.len() == self.conns@.len(),
                ids.len() == counts.len(),
                all == (filter@.len() == 0),
                conn_rows(res@) == picked(ids, counts, filter@, n as nat),
            decreases self.conn_ids@.len() - n,
        {
            assert(ids[n as int] == self.conn_ids@[n as int]@);
            assert(counts[n as int] == self.conns@[n as int]@);
            let ghost before = conn_rows(res@);
            if all || contains_text(self.conn_ids[n].as_str(), filter) {
                res.push((self.conn_ids[n].clone(), self.conns[n].duplicate()));
                assert(conn_rows(res@) =~= before.push((ids[n as int], counts[n as int])));
            }
            n += 1;
        }
        res
    }
}

/// What the relay says of itself as a whole.
#[derive(Debug)]
pub struct SummariesStat {
    pub version: String,
    pub streams: usize,
    pub conns: usize,
}

impl SummariesStat {
    pub fn new(ver: String) -> (r: Self)
        ensures
            r.version@ == ver@,
            r.streams == 0,
            r.conns == 0,
    {
        SummariesStat { version: ver, streams: 0, conns: 0 }
    }
}

impl Statistic {
    /// Brings the numbers of streams and of connections in `summaries` up
    /// to date.
    pub fn on_query_summaries(&self, summaries: &mut SummariesStat)
        requires
            self.wf(),
        ensures
            final(summaries).version == old(summaries).version,
            final(summaries).streams == self@.stream_keys.len(),
            final(summaries).conns == self@.conn_ids.len(),
    {
        summaries.streams = self.stream_keys.len();
        summaries.conns = self.conn_ids.len();
    }
}

} // verus!
