//! Topic registry: a fixed mapping from routing key to topic, built once
//! at start-up from the external instrument list and immutable thereafter.
//! Every topic has the same fixed backlog capacity. `resolve` is a pure
//! lookup; an unknown key is reported as not found, never as a fault.

use vstd::prelude::*;

use crate::frame::heartbeat_frame;
use crate::frame::heartbeat_view;
use crate::topic::Cursor;
use crate::topic::Receive;
use crate::topic::Topic;
use crate::topic::TopicModel;

verus! {

/// The mathematical state of a registry: the routing keys, the state of
/// each key's topic (at the same index), and the common capacity.
#[verifier::ext_equal]
pub ghost struct RegistryModel {
    pub keys: Seq<Seq<char>>,
    pub topics: Seq<TopicModel>,
    pub capacity: nat,
}

impl RegistryModel {
    /// No routing key occurs twice.
    pub open spec fn distinct_keys(self) -> bool {
        forall|i: int, j: int|
            0 <= i < j < self.keys.len() ==> self.keys[i] != self.keys[j]
    }

    /// Whether `k` is one of the registry's routing keys.
    pub open spec fn has_key(self, k: Seq<char>) -> bool {
        exists|i: int| 0 <= i < self.keys.len() && self.keys[i] == k
    }

    /// The topic of a fresh registry: empty history, open, with the
    /// registry's common capacity.
    pub open spec fn fresh_topic(self) -> TopicModel {
        TopicModel { capacity: self.capacity, hist: Seq::empty(), closed: false }
    }
}

/// A fixed mapping from routing key to topic. The key at index `i` owns
/// the topic at index `i`; the key set never changes after construction.
pub struct Registry {
    keys: Vec<String>,
    topics: Vec<Topic>,
    capacity: usize,
}

impl View for Registry {
    type V = RegistryModel;

    closed spec fn view(&self) -> RegistryModel {
        RegistryModel {
            keys: Seq::new(self.keys@.len(), |i: int| self.keys@[i]@),
            topics: Seq::new(self.topics@.len(), |i: int| self.topics@[i]@),
            capacity: self.capacity as nat,
        }
    }
}

impl Registry {
    /// One topic per key, all of the same capacity, keys distinct.
    pub closed spec fn wf(self) -> bool {
        &&& self.capacity >= 1
        &&& self.keys@.len() == self.topics@.len()
        &&& forall|i: int| 0 <= i < self.topics@.len() ==> (#[trigger] self.topics@[i]).wf()
        &&& forall|i: int|
            0 <= i < self.topics@.len() ==> (#[trigger] self.topics@[i])@.capacity
                == self.capacity as nat
        &&& self@.distinct_keys()
    }

    /// Builds the registry from the start-up key set: one fresh topic per
    /// routing key, every topic with the same fixed backlog capacity.
    pub fn new(keys: Vec<String>, capacity: usize) -> (r: Registry)
        requires
            capacity >= 1,
            forall|i: int, j: int| 0 <= i < j < keys@.len() ==> keys@[i]@ != keys@[j]@,
        ensures
            r.wf(),
            r@.capacity == capacity,
            r@.keys.len() == keys@.len(),
            r@.topics.len() == keys@.len(),
            forall|i: int| 0 <= i < keys@.len() ==> r@.keys[i] == keys@[i]@,
            forall|i: int| 0 <= i < keys@.len() ==> r@.topics[i] == r@.fresh_topic(),
    {
        let mut topics: Vec<Topic> = Vec::new();
        let n = keys.len();
        let mut j: usize = 0;
        while j < n
            invariant
                j <= n,
                capacity >= 1,
                topics@.len() == j,
                forall|k: int| 0 <= k < j ==> (#[trigger] topics@[k]).wf(),
                forall|k: int|
                    0 <= k < j ==> (#[trigger] topics@[k])@ == (TopicModel {
                        capacity: capacity as nat,
                        hist: Seq::<Seq<char>>::empty(),
                        closed: false,
                    }),
            decreases n - j,
        {
            topics.push(Topic::new(capacity));
            j = j + 1;
        }
        Registry { keys, topics, capacity }
    }

    /// How many routing keys (and topics) the registry holds.
    pub fn len(&self) -> (n: usize)
        ensures
            n == self@.topics.len(),
            self.wf() ==> n == self@.keys.len(),
    {
        self.topics.len()
    }

    /// Pure lookup of a routing key: the index of its topic, or `None` for
    /// a key outside the registry. Succeeds exactly on the registry's keys.
    pub fn resolve(&self, key: &String) -> (r: Option<usize>)
        requires
            self.wf(),
        ensures
            r is Some <==> self@.has_key(key@),
            r matches Some(i) ==> i < self@.keys.len() && i < self@.topics.len()
                && self@.keys[i as int] == key@,
    {
        let n = self.keys.len();
        let mut j: usize = 0;
        while j < n
            invariant
                j <= n,
                n == self.keys@.len(),
                self.wf(),
                forall|k: int| 0 <= k < j ==> self@.keys[k] != key@,
                self@.keys.len() == self.keys@.len(),
                forall|k: int| 0 <= k < self.keys@.len() ==> self@.keys[k] == self.keys@[k]@,
            decreases n - j,
        {
            if self.keys[j] == *key {
                assert(self@.has_key(key@)) by {
                    assert(self@.keys[j as int] == key@);
                }
                return Some(j);
            }
            j = j + 1;
        }
        None
    }

    /// Publishes one frame to the topic at index `i`; no other topic and
    /// no key changes. Never waits for any subscriber.
    pub fn publish_to(&mut self, i: usize, frame: String)
        requires
            old(self).wf(),
            i < old(self)@.topics.len(),
            !old(self)@.topics[i as int].closed,
            old(self)@.topics[i as int].total() < u64::MAX,
        ensures
            final(self).wf(),
            final(self)@.keys == old(self)@.keys,
            final(self)@.capacity == old(self)@.capacity,
            final(self)@.topics == old(self)@.topics.update(
                i as int,
                old(self)@.topics[i as int].publish(frame@),
            ),
    {
        self.topics[i].publish(frame);
        assert(final(self)@.topics =~= old(self)@.topics.update(
            i as int,
            old(self)@.topics[i as int].publish(frame@),
        ));
        assert(final(self)@.keys =~= old(self)@.keys);
    }

    /// Attaches a new cursor to the topic at index `i`, positioned at its
    /// current tail: it sees nothing published before this call.
    pub fn subscribe_to(&self, i: usize) -> (c: Cursor)
        requires
            self.wf(),
            i < self@.topics.len(),
        ensures
            c.position() == self@.topics[i as int].total(),
    {
        self.topics[i].subscribe()
    }

    /// Reads one step for `cursor` from the topic at index `i`, exactly as
    /// `TopicModel::receive_at` describes.
    pub fn receive_from(&self, i: usize, cursor: &mut Cursor) -> (r: Receive)
        requires
            self.wf(),
            i < self@.topics.len(),
        ensures
            r@ == self@.topics[i as int].receive_at(old(cursor).position()).0,
            final(cursor).position() == self@.topics[i as int].receive_at(
                old(cursor).position(),
            ).1,
    {
        self.topics[i].receive(cursor)
    }

    /// Publishes the heartbeat frame to every topic, in index order. A
    /// heartbeat takes a backlog slot exactly as a data frame does.
    pub fn heartbeat_all(&mut self)
        requires
            old(self).wf(),
            forall|i: int|
                0 <= i < old(self)@.topics.len() ==> !(#[trigger] old(self)@.topics[i]).closed,
            forall|i: int|
                0 <= i < old(self)@.topics.len() ==> (#[trigger] old(self)@.topics[i]).total()
                    < u64::MAX,
        ensures
            final(self).wf(),
            final(self)@.keys == old(self)@.keys,
            final(self)@.capacity == old(self)@.capacity,
            final(self)@.topics.len() == old(self)@.topics.len(),
            forall|i: int|
                0 <= i < old(self)@.topics.len() ==> final(self)@.topics[i] == (
                #[trigger] old(self)@.topics[i]).publish(heartbeat_view()),
    {
        let n = self.topics.len();
        let mut j: usize = 0;
        while j < n
            invariant
                j <= n,
                self.wf(),
                n == self@.topics.len(),
                self@.keys == old(self)@.keys,
                self@.capacity == old(self)@.capacity,
                self@.topics.len() == old(self)@.topics.len(),
                forall|k: int|
                    0 <= k < j ==> self@.topics[k] == (#[trigger] old(self)@.topics[k]).publish(
                        heartbeat_view(),
                    ),
                forall|k: int|
                    j <= k < n ==> self@.topics[k] == (#[trigger] old(self)@.topics[k]),
                forall|k: int|
                    0 <= k < n ==> !(#[trigger] old(self)@.topics[k]).closed,
                forall|k: int|
                    0 <= k < n ==> (#[trigger] old(self)@.topics[k]).total() < u64::MAX,
            decreases n - j,
        {
            let hb = heartbeat_frame();
            assert(self@.topics[j as int] == old(self)@.topics[j as int]);
            assert(self@.topics[j as int] == self.topics@[j as int]@);
            self.topics[j].publish(hb);
            j = j + 1;
        }
    }

    /// Closes every topic, preserving every history: readers drain what is
    /// retained and then see `Closed`. Used only at shutdown.
    pub fn close_all(&mut self)
        requires
            old(self).wf(),
        ensures
            final(self).wf(),
            final(self)@.keys == old(self)@.keys,
            final(self)@.capacity == old(self)@.capacity,
            final(self)@.topics.len() == old(self)@.topics.len(),
            forall|i: int|
                0 <= i < old(self)@.topics.len() ==> final(self)@.topics[i] == (TopicModel {
                    capacity: (#[trigger] old(self)@.topics[i]).capacity,
                    hist: old(self)@.topics[i].hist,
                    closed: true,
                }),
    {
        let n = self.topics.len();
        let mut j: usize = 0;
        while j < n
            invariant
                j <= n,
                self.wf(),
                n == self@.topics.len(),
                self@.keys == old(self)@.keys,
                self@.capacity == old(self)@.capacity,
                self@.topics.len() == old(self)@.topics.len(),
                forall|k: int|
                    0 <= k < j ==> self@.topics[k] == (TopicModel {
                        capacity: (#[trigger] old(self)@.topics[k]).capacity,
                        hist: old(self)@.topics[k].hist,
                        closed: true,
                    }),
                forall|k: int|
                    j <= k < n ==> self@.topics[k] == (#[trigger] old(self)@.topics[k]),
            decreases n - j,
        {
            self.topics[j].close();
            j = j + 1;
        }
    }
}

/// Distinct routing keys own distinct topics: with the registry's keys
/// pairwise distinct, two different indices — so two different topics —
/// never share a key, and a key's index under `resolve` is unique.
pub proof fn lemma_resolve_unique_topic(m: RegistryModel, i: int, j: int)
    requires
        m.distinct_keys(),
        0 <= i < m.keys.len(),
        0 <= j < m.keys.len(),
        i != j,
    ensures
        m.keys[i] != m.keys[j],
{
}

} // verus!
