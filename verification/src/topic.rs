//! Topic: a bounded multicast channel. One producer publishes frames into
//! a fixed-capacity backlog; any number of independent cursors read them.
//! Publishing never waits for a reader: when the backlog is full the
//! oldest frame is evicted, and a cursor that had not yet read an evicted
//! frame learns, lazily at read time, exactly how many frames it missed.

use vstd::prelude::*;

use crate::frame::heartbeat_view;

verus! {

/// The mathematical state of a topic: the full sequence of frames ever
/// published to it, its fixed backlog capacity, and whether it was closed.
#[verifier::ext_equal]
pub ghost struct TopicModel {
    pub capacity: nat,
    pub hist: Seq<Seq<char>>,
    pub closed: bool,
}

/// What one read can yield, at the mathematical level.
pub enum ReceiveModel {
    Frame(Seq<char>),
    Lagged(nat),
    Empty,
    Closed,
}

impl TopicModel {
    /// How many frames were ever published.
    pub open spec fn total(self) -> nat {
        self.hist.len()
    }

    /// The position of the oldest frame still retained in the backlog;
    /// equivalently, how many frames have been evicted.
    pub open spec fn first_retained(self) -> nat {
        if self.hist.len() > self.capacity {
            (self.hist.len() - self.capacity) as nat
        } else {
            0
        }
    }

    /// The state after one publish: the frame is appended to the history.
    pub open spec fn publish(self, f: Seq<char>) -> TopicModel {
        TopicModel { capacity: self.capacity, hist: self.hist.push(f), closed: self.closed }
    }

    /// The state after publishing every frame of `fs`, in order.
    pub open spec fn publish_all(self, fs: Seq<Seq<char>>) -> TopicModel
        decreases fs.len(),
    {
        if fs.len() == 0 {
            self
        } else {
            self.publish(fs[0]).publish_all(fs.drop_first())
        }
    }

    /// What a read from position `pos` yields, and the position the cursor
    /// moves to. A cursor behind the oldest retained frame is told how many
    /// frames it missed and jumps to the oldest retained frame; a cursor
    /// with unread retained frames gets the next one in publish order; a
    /// cursor at the tail sees nothing, or that the topic is closed.
    pub open spec fn receive_at(self, pos: nat) -> (ReceiveModel, nat) {
        if pos < self.first_retained() {
            (ReceiveModel::Lagged((self.first_retained() - pos) as nat), self.first_retained())
        } else if pos < self.total() {
            (ReceiveModel::Frame(self.hist[pos as int]), (pos + 1) as nat)
        } else if self.closed {
            (ReceiveModel::Closed, pos)
        } else {
            (ReceiveModel::Empty, pos)
        }
    }
}

/// What one read yields: the next frame in publish order, a notification
/// that `n` frames were missed, nothing yet, or the end of the topic.
pub enum Receive {
    Frame(String),
    Lagged(u64),
    Empty,
    Closed,
}

impl View for Receive {
    type V = ReceiveModel;

    open spec fn view(&self) -> ReceiveModel {
        match self {
            Receive::Frame(s) => ReceiveModel::Frame(s@),
            Receive::Lagged(n) => ReceiveModel::Lagged(*n as nat),
            Receive::Empty => ReceiveModel::Empty,
            Receive::Closed => ReceiveModel::Closed,
        }
    }
}

/// A subscriber's private read position into a topic's history.
pub struct Cursor {
    pos: u64,
}

impl Cursor {
    /// The history position of the next frame this cursor will read.
    pub closed spec fn position(self) -> nat {
        self.pos as nat
    }
}

/// A bounded multicast channel: a fixed-capacity backlog of the most
/// recently published frames. Cursors are not part of the topic's state,
/// so no reader can ever slow a publish down.
pub struct Topic {
    capacity: usize,
    published: u64,
    backlog: Vec<String>,
    closed: bool,
    hist: Ghost<Seq<Seq<char>>>,
}

impl View for Topic {
    type V = TopicModel;

    closed spec fn view(&self) -> TopicModel {
        TopicModel { capacity: self.capacity as nat, hist: self.hist@, closed: self.closed }
    }
}

impl Topic {
    /// The backlog holds exactly the retained suffix of the history.
    pub closed spec fn wf(self) -> bool {
        &&& self.capacity >= 1
        &&& self.hist@.len() == self.published
        &&& self.backlog@.len() == if self.published <= self.capacity {
            self.published as int
        } else {
            self.capacity as int
        }
        &&& forall|i: int|
            0 <= i < self.backlog@.len() ==> self.backlog@[i]@ == self.hist@[self@.first_retained()
                + i]
    }

    /// Creates a topic with the given fixed backlog capacity and an empty
    /// history.
    pub fn new(capacity: usize) -> (t: Topic)
        requires
            capacity >= 1,
        ensures
            t.wf(),
            t@.capacity == capacity,
            t@.hist == Seq::<Seq<char>>::empty(),
            !t@.closed,
    {
        Topic {
            capacity,
            published: 0,
            backlog: Vec::new(),
            closed: false,
            hist: Ghost(Seq::empty()),
        }
    }

    /// Appends a frame to the backlog, evicting the oldest retained frame
    /// if the backlog is full. Takes no notice of any subscriber: it never
    /// waits, whatever the number or speed of attached cursors.
    pub fn publish(&mut self, frame: String)
        requires
            old(self).wf(),
            !old(self)@.closed,
            old(self)@.total() < u64::MAX,
        ensures
            final(self).wf(),
            final(self)@ == old(self)@.publish(frame@),
    {
        if self.backlog.len() == self.capacity {
            let _evicted = self.backlog.remove(0);
        }
        self.backlog.push(frame);
        self.published = self.published + 1;
        proof {
            self.hist@ = self.hist@.push(frame@);
        }
        assert(self@ =~= old(self)@.publish(frame@)) by {
            assert(self@.hist =~= old(self)@.publish(frame@).hist);
        }
    }

    /// Attaches a new cursor at the current tail: it will see only frames
    /// published after this call, never history.
    pub fn subscribe(&self) -> (c: Cursor)
        requires
            self.wf(),
        ensures
            c.position() == self@.total(),
    {
        Cursor { pos: self.published }
    }

    /// Reads one step for `cursor`, exactly as `TopicModel::receive_at`
    /// describes: the next retained frame in publish order, a lag
    /// notification carrying the number of missed frames, or nothing /
    /// closed at the tail. Lag is detected here, at read time; publishing
    /// does no work on behalf of slow cursors.
    pub fn receive(&self, cursor: &mut Cursor) -> (r: Receive)
        requires
            self.wf(),
        ensures
            r@ == self@.receive_at(old(cursor).position()).0,
            final(cursor).position() == self@.receive_at(old(cursor).position()).1,
    {
        let dropped: u64 = self.published - (self.backlog.len() as u64);
        assert(dropped == self@.first_retained());
        if cursor.pos < dropped {
            let missed = dropped - cursor.pos;
            cursor.pos = dropped;
            Receive::Lagged(missed)
        } else if cursor.pos < self.published {
            let idx: usize = (cursor.pos - dropped) as usize;
            assert(idx < self.backlog@.len());
            let frame = self.backlog[idx].clone();
            cursor.pos = cursor.pos + 1;
            Receive::Frame(frame)
        } else if self.closed {
            Receive::Closed
        } else {
            Receive::Empty
        }
    }

    /// Marks the topic as permanently closed: a cursor that has drained the
    /// retained frames is then told `Closed` instead of `Empty`.
    pub fn close(&mut self)
        requires
            old(self).wf(),
        ensures
            final(self).wf(),
            final(self)@.hist == old(self)@.hist,
            final(self)@.capacity == old(self)@.capacity,
            final(self)@.closed,
    {
        self.closed = true;
    }
}

proof fn lemma_publish_all_unfold(m: TopicModel, fs: Seq<Seq<char>>)
    ensures
        m.publish_all(fs).hist == m.hist + fs,
        m.publish_all(fs).capacity == m.capacity,
        m.publish_all(fs).closed == m.closed,
    decreases fs.len(),
{
    if fs.len() == 0 {
        assert(m.hist + fs =~= m.hist);
    } else {
        lemma_publish_all_unfold(m.publish(fs[0]), fs.drop_first());
        assert(m.hist.push(fs[0]) + fs.drop_first() =~= m.hist + fs);
    }
}

/// A subscriber that attaches before a burst of at most `capacity`
/// publishes receives exactly those frames, in publish order, with no
/// loss: its `i`-th read from the attach position yields the `i`-th
/// published frame and advances by one.
pub proof fn lemma_paced_subscriber_receives_all(m: TopicModel, fs: Seq<Seq<char>>, i: int)
    requires
        fs.len() <= m.capacity,
        0 <= i < fs.len(),
    ensures
        m.publish_all(fs).receive_at((m.total() + i) as nat).0 == ReceiveModel::Frame(fs[i]),
        m.publish_all(fs).receive_at((m.total() + i) as nat).1 == m.total() + i + 1,
{
    lemma_publish_all_unfold(m, fs);
}

/// The other half of loss-free delivery: once a paced subscriber has read
/// every frame of the burst it stands at the tail, and a further read
/// yields nothing (or `Closed`, had the topic been closed) — it receives
/// exactly the published frames, never more.
pub proof fn lemma_paced_subscriber_drains(m: TopicModel, fs: Seq<Seq<char>>)
    ensures
        m.publish_all(fs).receive_at((m.total() + fs.len()) as nat).0 == (if m.closed {
            ReceiveModel::Closed
        } else {
            ReceiveModel::Empty
        }),
        m.publish_all(fs).receive_at((m.total() + fs.len()) as nat).1 == m.total() + fs.len(),
{
    lemma_publish_all_unfold(m, fs);
}

/// A subscriber that lets more than `capacity` frames go by between two
/// reads is told, on its next read, exactly how many frames it missed,
/// and after that resumes in-order delivery from the oldest retained
/// frame.
pub proof fn lemma_overrun_reports_missed_count(m: TopicModel, fs: Seq<Seq<char>>)
    requires
        m.capacity >= 1,
        fs.len() > m.capacity,
    ensures
        m.publish_all(fs).receive_at(m.total()).0 == ReceiveModel::Lagged(
            (fs.len() - m.capacity) as nat,
        ),
        m.publish_all(fs).receive_at(m.total()).1 == m.publish_all(fs).first_retained(),
        m.publish_all(fs).receive_at(m.publish_all(fs).first_retained()).0
            == ReceiveModel::Frame(fs[fs.len() - m.capacity]),
        m.publish_all(fs).receive_at(m.publish_all(fs).first_retained()).1
            == m.publish_all(fs).first_retained() + 1,
{
    lemma_publish_all_unfold(m, fs);
}

/// Publishing is independent of subscribers: its effect is a function of
/// the topic alone, no cursor appears in its contract, and every cursor
/// position that was valid before a publish stays valid after it.
pub proof fn lemma_publish_independent_of_subscribers(m: TopicModel, f: Seq<char>, pos: nat)
    requires
        pos <= m.total(),
    ensures
        m.publish(f).total() == m.total() + 1,
        pos <= m.publish(f).total(),
{
}

/// Every frame occupies one backlog slot, a heartbeat exactly like a data
/// frame: publishing any frame to a full backlog while a subscriber is at
/// or behind the oldest retained frame adds one to the lag its next read
/// reports.
pub proof fn lemma_any_publish_counts_toward_lag(m: TopicModel, pos: nat, f: Seq<char>)
    requires
        m.total() >= m.capacity,
        pos <= m.first_retained(),
    ensures
        m.publish(f).receive_at(pos).0 == ReceiveModel::Lagged(
            (m.first_retained() + 1 - pos) as nat,
        ),
{
}

/// A heartbeat occupies a backlog slot identically to a data frame:
/// published to a full backlog while a subscriber is at or behind the
/// oldest retained frame, it too adds one to the lag the subscriber's
/// next read reports.
pub proof fn lemma_heartbeat_counts_toward_lag(m: TopicModel, pos: nat)
    requires
        m.total() >= m.capacity,
        pos <= m.first_retained(),
    ensures
        m.publish(heartbeat_view()).receive_at(pos).0 == ReceiveModel::Lagged(
            (m.first_retained() + 1 - pos) as nat,
        ),
{
    lemma_any_publish_counts_toward_lag(m, pos, heartbeat_view());
}

} // verus!
