use vstd::prelude::*;
use vstd::pervasive::VecAdditionalExecFns;
use crate::batch::Batch;
use crate::batch::Query;

verus! {

/// Abstract state of the batch broadcast channel.
///
/// `history` is every batch ever published, in publication order; the ring
/// itself retains only the newest `capacity` of them, so `dropped` counts how
/// many of the oldest entries have been discarded.  Each subscriber owns a
/// cursor: the absolute position (an index into `history`) of the next batch
/// it will read.  A subscriber that falls more than `capacity` behind skips
/// ahead instead of blocking the publisher: broadcast with bounded lag.
#[verifier::ext_equal]
pub struct ChannelModel {
    pub capacity: nat,
    pub history: Seq<Seq<Query>>,
    pub dropped: nat,
    pub cursors: Seq<nat>,
}

pub open spec fn channel_wf(m: ChannelModel) -> bool {
    &&& m.capacity >= 1
    &&& m.dropped <= m.history.len()
    &&& m.history.len() - m.dropped <= m.capacity
    &&& forall|s: int| 0 <= s < m.cursors.len() ==> #[trigger] m.cursors[s] <= m.history.len()
}

/// A new subscriber starts at the head of the stream: it sees only batches
/// published after it subscribed.
pub open spec fn spec_subscribe(m: ChannelModel) -> ChannelModel {
    ChannelModel { cursors: m.cursors.push(m.history.len()), ..m }
}

/// Publication appends to the history unconditionally; when the ring is full
/// the oldest retained entry is discarded.  No subscriber state is consulted:
/// publishing with zero subscribers, or past a slow one, succeeds.
pub open spec fn spec_publish(m: ChannelModel, b: Seq<Query>) -> ChannelModel {
    ChannelModel {
        history: m.history.push(b),
        dropped: if m.history.len() - m.dropped == m.capacity {
            (m.dropped + 1) as nat
        } else {
            m.dropped
        },
        ..m
    }
}

/// The position subscriber `s` actually reads from: its cursor, unless the
/// ring has already discarded that entry, in which case the subscriber skips
/// ahead to the oldest retained batch.
pub open spec fn read_position(m: ChannelModel, s: int) -> nat {
    if m.cursors[s] < m.dropped {
        m.dropped
    } else {
        m.cursors[s]
    }
}

/// What subscriber `s` receives next: the batch at its read position, or
/// nothing when it has consumed everything published so far.
pub open spec fn spec_recv_result(m: ChannelModel, s: int) -> Option<Seq<Query>> {
    if read_position(m, s) < m.history.len() {
        Some(m.history[read_position(m, s) as int])
    } else {
        None
    }
}

/// The channel state after subscriber `s` receives: its cursor advances past
/// the batch it read (or just past any skipped entries); nothing else moves.
pub open spec fn spec_recv_state(m: ChannelModel, s: int) -> ChannelModel {
    let pos = read_position(m, s);
    let next = if pos < m.history.len() {
        (pos + 1) as nat
    } else {
        pos
    };
    ChannelModel { cursors: m.cursors.update(s, next), ..m }
}

/// A bounded multi-producer broadcast conduit of batches: a fixed-size ring
/// with one cursor per subscriber.  Created once at startup; each worker
/// subscribes once, each generation task publishes into it.
pub struct BatchChannel {
    capacity: usize,
    ring: Vec<Batch>,
    dropped: usize,
    published: usize,
    cursors: Vec<usize>,
    history: Ghost<Seq<Seq<Query>>>,
}

impl BatchChannel {
    pub closed spec fn model(&self) -> ChannelModel {
        ChannelModel {
            capacity: self.capacity as nat,
            history: self.history@,
            dropped: self.dropped as nat,
            cursors: Seq::new(self.cursors@.len(), |i: int| self.cursors@[i] as nat),
        }
    }

    /// The exec fields agree with the abstract model: the ring holds exactly
    /// the retained suffix of the history.
    pub closed spec fn inv(&self) -> bool {
        &&& self.published == self.history@.len()
        &&& self.dropped <= self.published
        &&& self.ring@.len() == self.published - self.dropped
        &&& forall|i: int|
            0 <= i < self.ring@.len() ==> #[trigger] self.ring@[i]@ == self.history@[self.dropped
                + i]
        &&& forall|s: int|
            0 <= s < self.cursors@.len() ==> #[trigger] self.cursors@[s] <= self.published
    }

    pub open spec fn wf(&self) -> bool {
        &&& self.inv()
        &&& channel_wf(self.model())
    }

    pub fn new(capacity: usize) -> (channel: BatchChannel)
        requires
            capacity >= 1,
        ensures
            channel.wf(),
            channel.model() == (ChannelModel {
                capacity: capacity as nat,
                history: Seq::<Seq<Query>>::empty(),
                dropped: 0,
                cursors: Seq::<nat>::empty(),
            }),
    {
        let channel = BatchChannel {
            capacity,
            ring: Vec::new(),
            dropped: 0,
            published: 0,
            cursors: Vec::new(),
            history: Ghost(Seq::empty()),
        };
        proof {
            assert(channel.model().cursors =~= Seq::<nat>::empty());
            assert(channel.model() =~= (ChannelModel {
                capacity: capacity as nat,
                history: Seq::<Seq<Query>>::empty(),
                dropped: 0,
                cursors: Seq::<nat>::empty(),
            }));
        }
        channel
    }

    pub fn capacity(&self) -> (c: usize)
        ensures
            c == self.model().capacity,
    {
        self.capacity
    }

    pub fn total_published(&self) -> (n: usize)
        requires
            self.wf(),
        ensures
            n == self.model().history.len(),
    {
        self.published
    }

    pub fn subscriber_count(&self) -> (n: usize)
        ensures
            n == self.model().cursors.len(),
    {
        self.cursors.len()
    }

    /// Register one more subscriber and hand back its id.  The subscriber
    /// starts fully caught up: it will see exactly the batches published
    /// after this call.
    pub fn subscribe(&mut self) -> (s: usize)
        requires
            old(self).wf(),
        ensures
            final(self).wf(),
            final(self).model() == spec_subscribe(old(self).model()),
            s == old(self).model().cursors.len(),
    {
        let s = self.cursors.len();
        self.cursors.push(self.published);
        proof {
            assert(self.model().cursors =~= spec_subscribe(old(self).model()).cursors);
            assert(self.model() =~= spec_subscribe(old(self).model()));
        }
        s
    }

    /// Publish one batch to every current subscriber.  The publisher never
    /// waits and never fails: with the ring full the oldest retained batch is
    /// discarded, and the subscriber set — including an empty one — is not
    /// consulted.
    pub fn publish(&mut self, batch: Batch)
        requires
            old(self).wf(),
            old(self).model().history.len() < usize::MAX,
        ensures
            final(self).wf(),
            final(self).model() == spec_publish(old(self).model(), batch@),
    {
        if self.ring.len() >= self.capacity {
            self.ring.remove(0);
            self.dropped = self.dropped + 1;
        }
        let ghost b = batch@;
        self.ring.push(batch);
        self.published = self.published + 1;
        self.history = Ghost(self.history@.push(b));
        proof {
            assert(self.model().cursors =~= spec_publish(old(self).model(), b).cursors);
            assert(self.model() =~= spec_publish(old(self).model(), b));
        }
    }

    /// Receive the next batch for subscriber `s`, skipping ahead first if the
    /// ring has outrun this subscriber's cursor; `None` when the subscriber
    /// has already consumed everything published.
    pub fn recv(&mut self, s: usize) -> (received: Option<Batch>)
        requires
            old(self).wf(),
            s < old(self).model().cursors.len(),
        ensures
            final(self).wf(),
            final(self).model() == spec_recv_state(old(self).model(), s as int),
            match received {
                Some(b) => spec_recv_result(old(self).model(), s as int) == Some(b@),
                None => spec_recv_result(old(self).model(), s as int) is None,
            },
    {
        let mut pos = self.cursors[s];
        if pos < self.dropped {
            pos = self.dropped;
        }
        let received = if pos < self.published {
            let batch = self.ring[pos - self.dropped].share();
            self.cursors.set(s, pos + 1);
            Some(batch)
        } else {
            self.cursors.set(s, pos);
            None
        };
        proof {
            assert(self.model().cursors =~= spec_recv_state(
                old(self).model(),
                s as int,
            ).cursors);
            assert(self.model() =~= spec_recv_state(old(self).model(), s as int));
        }
        received
    }
}

/// A subscriber that is fully caught up at the moment a batch is published —
/// in particular one that subscribed after the warm-up delay but before the
/// first publication of a window — receives exactly that batch on its next
/// receive.
pub proof fn lemma_timely_subscriber_receives(m: ChannelModel, b: Seq<Query>, s: int)
    requires
        channel_wf(m),
        0 <= s < m.cursors.len(),
        m.cursors[s] == m.history.len(),
    ensures
        spec_recv_result(spec_publish(m, b), s) == Some(b),
{
}

/// A freshly subscribed worker receives the very next published batch: the
/// warm-up discipline (subscribe every worker before the first publish of the
/// window) is sufficient for delivery.
pub proof fn lemma_new_subscriber_receives_next(m: ChannelModel, b: Seq<Query>)
    requires
        channel_wf(m),
    ensures
        spec_recv_result(spec_publish(spec_subscribe(m), b), m.cursors.len() as int) == Some(b),
{
    lemma_timely_subscriber_receives(spec_subscribe(m), b, m.cursors.len() as int);
}

/// The channel after publishing the batches of `batches`, in order.
pub open spec fn spec_publish_seq(m: ChannelModel, batches: Seq<Seq<Query>>) -> ChannelModel
    decreases batches.len(),
{
    if batches.len() == 0 {
        m
    } else {
        spec_publish_seq(spec_publish(m, batches.first()), batches.drop_first())
    }
}

/// The channel after subscriber `s` has received `k` times.
pub open spec fn spec_recv_iter(m: ChannelModel, s: int, k: nat) -> ChannelModel
    decreases k,
{
    if k == 0 {
        m
    } else {
        spec_recv_state(spec_recv_iter(m, s, (k - 1) as nat), s)
    }
}

/// Publishing one more batch after a sequence is publishing the lengthened
/// sequence.
pub proof fn lemma_publish_seq_snoc(m: ChannelModel, batches: Seq<Seq<Query>>, b: Seq<Query>)
    ensures
        spec_publish_seq(m, batches.push(b)) == spec_publish(spec_publish_seq(m, batches), b),
    decreases batches.len(),
{
    if batches.len() == 0 {
        let empty = Seq::<Seq<Query>>::empty();
        assert(batches.push(b).first() == b);
        assert(batches.push(b).drop_first() =~= empty);
        assert(spec_publish_seq(m, batches) == m);
        assert(spec_publish_seq(spec_publish(m, b), empty) == spec_publish(m, b));
        assert(spec_publish_seq(m, batches.push(b)) == spec_publish_seq(
            spec_publish(m, b),
            empty,
        ));
    } else {
        let m1 = spec_publish(m, batches.first());
        let tail = batches.drop_first();
        assert(batches.push(b).first() == batches.first());
        assert(batches.push(b).drop_first() =~= tail.push(b));
        assert(spec_publish_seq(m, batches.push(b)) == spec_publish_seq(m1, tail.push(b)));
        lemma_publish_seq_snoc(m1, tail, b);
        assert(spec_publish_seq(m, batches) == spec_publish_seq(m1, tail));
    }
}

/// Publishing a whole sequence appends it to the history, touches no cursor,
/// and discards from the ring exactly as far as the capacity forces: the
/// final drop point is the larger of the old one and `history - capacity`.
pub proof fn lemma_publish_seq_shape(m: ChannelModel, batches: Seq<Seq<Query>>)
    requires
        channel_wf(m),
    ensures
        ({
            let r = spec_publish_seq(m, batches);
            &&& channel_wf(r)
            &&& r.capacity == m.capacity
            &&& r.cursors == m.cursors
            &&& r.history == m.history + batches
            &&& r.dropped as int == (if m.history.len() + batches.len() - m.capacity > m.dropped {
                m.history.len() + batches.len() - m.capacity
            } else {
                m.dropped as int
            })
        }),
    decreases batches.len(),
{
    if batches.len() == 0 {
        assert(m.history + batches =~= m.history);
    } else {
        let m1 = spec_publish(m, batches.first());
        lemma_publish_seq_shape(m1, batches.drop_first());
        assert(m1.history + batches.drop_first() =~= m.history + batches);
    }
}

/// Receiving `k` times moves subscriber `s`'s cursor forward `k` places and
/// changes nothing else, so long as the subscriber is not lagging and `k`
/// batches are there to be read.
pub proof fn lemma_recv_iter_shape(m: ChannelModel, s: int, k: nat)
    requires
        channel_wf(m),
        0 <= s < m.cursors.len(),
        m.dropped <= m.cursors[s],
        m.cursors[s] + k <= m.history.len(),
    ensures
        ({
            let r = spec_recv_iter(m, s, k);
            &&& channel_wf(r)
            &&& r.capacity == m.capacity
            &&& r.history == m.history
            &&& r.dropped == m.dropped
            &&& r.cursors.len() == m.cursors.len()
            &&& r.cursors[s] == m.cursors[s] + k
            &&& forall|t: int|
                0 <= t < m.cursors.len() && t != s ==> #[trigger] r.cursors[t] == m.cursors[t]
        }),
    decreases k,
{
    if k == 0 {
    } else {
        lemma_recv_iter_shape(m, s, (k - 1) as nat);
        let r1 = spec_recv_iter(m, s, (k - 1) as nat);
        assert(read_position(r1, s) == m.cursors[s] + k - 1);
    }
}

/// A subscriber that is fully caught up when a window opens — one that
/// subscribed during the warm-up delay, before the window's first publish —
/// receives every batch of that window in publication order, provided the
/// window's batches fit the channel capacity: its `k`-th receive after the
/// window returns exactly the window's `k`-th batch.
pub proof fn lemma_caught_up_subscriber_receives_window(
    m: ChannelModel,
    batches: Seq<Seq<Query>>,
    s: int,
    k: int,
)
    requires
        channel_wf(m),
        0 <= s < m.cursors.len(),
        m.cursors[s] == m.history.len(),
        batches.len() <= m.capacity,
        0 <= k < batches.len(),
    ensures
        spec_recv_result(spec_recv_iter(spec_publish_seq(m, batches), s, k as nat), s) == Some(
            batches[k],
        ),
{
    lemma_publish_seq_shape(m, batches);
    let p = spec_publish_seq(m, batches);
    lemma_recv_iter_shape(p, s, k as nat);
    let r = spec_recv_iter(p, s, k as nat);
    assert(read_position(r, s) == m.history.len() + k);
    assert(r.history[m.history.len() + k] == batches[k]);
}

} // verus!
