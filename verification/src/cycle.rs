use vstd::prelude::*;
use crate::batch::Query;
use crate::batch::derived_from;
use crate::batch::synthesize;
use crate::channel::BatchChannel;
use crate::channel::ChannelModel;
use crate::channel::channel_wf;
use crate::channel::lemma_caught_up_subscriber_receives_window;
use crate::channel::lemma_publish_seq_shape;
use crate::channel::lemma_publish_seq_snoc;
use crate::channel::spec_publish;
use crate::channel::spec_publish_seq;
use crate::channel::spec_recv_iter;
use crate::channel::spec_recv_result;
use crate::experiment::ExperimentDefinition;

verus! {

/// Length of one generation window, in milliseconds.
pub const WINDOW_MILLIS: u64 = 60_000;

/// Number of generation tasks dispatched per window: roughly one per second
/// of the window.
pub const COHORT_SIZE: usize = 60;

/// Smallest batch size a generation task may draw (inclusive).
pub const BATCH_SIZE_MIN: usize = 100;

/// Largest batch size a generation task may draw (exclusive).
pub const BATCH_SIZE_MAX: usize = 200;

/// Capacity of the batch broadcast channel.
pub const CHANNEL_CAPACITY: usize = 1000;

/// Delay each worker waits after being spawned and before consuming, so that
/// every worker is subscribed by the time the first window publishes.
pub const WARMUP_MILLIS: u64 = 5000;

/// Relies on rand::random_range: a uniform sample from `lo..hi` drawn from
/// the thread-local generator; it panics only on an empty range, which the
/// precondition rules out.  Nothing more is promised of a random draw than
/// its bounds.
#[verifier::external_body]
fn draw_batch_size(lo: usize, hi: usize) -> (size: usize)
    requires
        lo < hi,
    ensures
        lo <= size < hi,
{
    rand::random_range(lo..hi)
}

/// The mark one window's cohort leaves on the channel history: exactly
/// `count` batches were appended after `before`, each sized within the
/// configured range and derived only from definitions in `snapshot`.
pub open spec fn cohort_published(
    before: Seq<Seq<Query>>,
    after: Seq<Seq<Query>>,
    count: int,
    snapshot: Seq<ExperimentDefinition>,
) -> bool {
    &&& after.len() == before.len() + count
    &&& after.take(before.len() as int) == before
    &&& forall|i: int|
        before.len() <= i < after.len() ==> BATCH_SIZE_MIN <= (#[trigger] after[i]).len()
            < BATCH_SIZE_MAX
    &&& forall|i: int|
        before.len() <= i < after.len() ==> derived_from(#[trigger] after[i], snapshot)
}

/// One generation task: draw a batch size independently at random,
/// synthesize that many queries from the task's registry snapshot, and
/// publish the result as one immutable batch.  Publication succeeds whatever
/// the subscriber set looks like.
pub fn generation_task(snapshot: &Vec<ExperimentDefinition>, channel: &mut BatchChannel) -> (published: Ghost<Seq<Query>>)
    requires
        snapshot@.len() > 0,
        old(channel).wf(),
        old(channel).model().history.len() < usize::MAX,
    ensures
        final(channel).wf(),
        final(channel).model() == spec_publish(old(channel).model(), published@),
        BATCH_SIZE_MIN <= published@.len() < BATCH_SIZE_MAX,
        derived_from(published@, snapshot@),
{
    let size = draw_batch_size(BATCH_SIZE_MIN, BATCH_SIZE_MAX);
    let batch = synthesize(snapshot, size);
    let ghost published = batch@;
    channel.publish(batch);
    Ghost(published)
}

/// Dispatch one window's whole cohort: `COHORT_SIZE` generation tasks, each
/// publishing one batch.  The call returns only when every task of the
/// cohort has run, so the caller cannot start window N+1's cohort while
/// window N's is still incomplete.
pub fn run_cohort(snapshot: &Vec<ExperimentDefinition>, channel: &mut BatchChannel) -> (published: Ghost<Seq<Seq<Query>>>)
    requires
        snapshot@.len() > 0,
        old(channel).wf(),
        old(channel).model().history.len() + COHORT_SIZE <= usize::MAX,
    ensures
        final(channel).wf(),
        final(channel).model() == spec_publish_seq(old(channel).model(), published@),
        published@.len() == COHORT_SIZE,
        forall|i: int|
            0 <= i < published@.len() ==> BATCH_SIZE_MIN <= (#[trigger] published@[i]).len()
                < BATCH_SIZE_MAX,
        forall|i: int| 0 <= i < published@.len() ==> derived_from(#[trigger] published@[i], snapshot@),
        final(channel).model().capacity == old(channel).model().capacity,
        final(channel).model().cursors == old(channel).model().cursors,
        cohort_published(
            old(channel).model().history,
            final(channel).model().history,
            COHORT_SIZE as int,
            snapshot@,
        ),
{
    let ghost initial = old(channel).model();
    let mut dispatched: usize = 0;
    let ghost mut published: Seq<Seq<Query>> = Seq::empty();
    while dispatched < COHORT_SIZE
        invariant
            snapshot@.len() > 0,
            dispatched <= COHORT_SIZE,
            channel.wf(),
            channel_wf(initial),
            initial == old(channel).model(),
            initial.history.len() + COHORT_SIZE <= usize::MAX,
            channel.model() == spec_publish_seq(initial, published),
            published.len() == dispatched,
            forall|i: int|
                0 <= i < published.len() ==> BATCH_SIZE_MIN <= (#[trigger] published[i]).len()
                    < BATCH_SIZE_MAX,
            forall|i: int|
                0 <= i < published.len() ==> derived_from(#[trigger] published[i], snapshot@),
        decreases COHORT_SIZE - dispatched,
    {
        proof {
            lemma_publish_seq_shape(initial, published);
        }
        let batch = generation_task(snapshot, channel);
        proof {
            lemma_publish_seq_snoc(initial, published, batch@);
            published = published.push(batch@);
        }
        dispatched = dispatched + 1;
    }
    proof {
        lemma_publish_seq_shape(initial, published);
        let after = channel.model().history;
        assert(after.take(initial.history.len() as int) =~= initial.history);
        assert forall|i: int|
            initial.history.len() <= i < after.len() implies BATCH_SIZE_MIN
            <= (#[trigger] after[i]).len() < BATCH_SIZE_MAX && derived_from(after[i], snapshot@) by {
            assert(after[i] == published[i - initial.history.len()]);
        }
    }
    Ghost(published)
}

/// The join point of one window: a counting barrier over the cohort,
/// combined with the window timer.  The coordinator opens one barrier per
/// window and dispatches the next window's cohort only once the barrier
/// reports closed — every task completed and the timer elapsed, whichever
/// came later.
pub struct WindowBarrier {
    cohort_size: usize,
    completed: usize,
    timer_elapsed: bool,
}

impl WindowBarrier {
    pub closed spec fn spec_cohort_size(&self) -> nat {
        self.cohort_size as nat
    }

    pub closed spec fn spec_completed(&self) -> nat {
        self.completed as nat
    }

    pub closed spec fn spec_timer_elapsed(&self) -> bool {
        self.timer_elapsed
    }

    pub open spec fn wf(&self) -> bool {
        self.spec_completed() <= self.spec_cohort_size()
    }

    /// The window closes only when the whole cohort has completed and the
    /// window timer has elapsed.
    pub open spec fn spec_closed(&self) -> bool {
        &&& self.spec_completed() == self.spec_cohort_size()
        &&& self.spec_timer_elapsed()
    }

    /// A fresh barrier for a window of `cohort_size` tasks.
    pub fn new(cohort_size: usize) -> (barrier: WindowBarrier)
        ensures
            barrier.wf(),
            barrier.spec_cohort_size() == cohort_size,
            barrier.spec_completed() == 0,
            !barrier.spec_timer_elapsed(),
    {
        WindowBarrier { cohort_size, completed: 0, timer_elapsed: false }
    }

    /// Record that one more task of this window's cohort has finished.
    pub fn task_completed(&mut self)
        requires
            old(self).wf(),
            old(self).spec_completed() < old(self).spec_cohort_size(),
        ensures
            final(self).wf(),
            final(self).spec_cohort_size() == old(self).spec_cohort_size(),
            final(self).spec_completed() == old(self).spec_completed() + 1,
            final(self).spec_timer_elapsed() == old(self).spec_timer_elapsed(),
    {
        self.completed = self.completed + 1;
    }

    /// Record that the window timer has elapsed.
    pub fn timer_fired(&mut self)
        ensures
            final(self).wf() == old(self).wf(),
            final(self).spec_cohort_size() == old(self).spec_cohort_size(),
            final(self).spec_completed() == old(self).spec_completed(),
            final(self).spec_timer_elapsed(),
    {
        self.timer_elapsed = true;
    }

    pub fn completed(&self) -> (n: usize)
        ensures
            n == self.spec_completed(),
    {
        self.completed
    }

    pub fn is_closed(&self) -> (closed: bool)
        ensures
            closed == self.spec_closed(),
    {
        self.completed == self.cohort_size && self.timer_elapsed
    }
}

/// Two consecutive generation windows never overlap: the coordinator may
/// dispatch window N+1 only once window N's barrier reports closed, and a
/// closed barrier means every one of window N's cohort tasks has completed
/// (and the window timer has elapsed besides).
pub proof fn lemma_windows_never_overlap(barrier: WindowBarrier)
    requires
        barrier.wf(),
        barrier.spec_closed(),
    ensures
        barrier.spec_completed() == barrier.spec_cohort_size(),
        barrier.spec_timer_elapsed(),
{
}

/// Consecutive windows leave disjoint, ordered spans on the channel history:
/// once window N+1's cohort runs, window N's whole span already stands and
/// is never touched again, and each span's batches derive only from the
/// registry snapshot of their own window.  A definition accepted for window
/// N+1 therefore never influences a batch of window N.
pub proof fn lemma_consecutive_windows_ordered(
    h0: Seq<Seq<Query>>,
    h1: Seq<Seq<Query>>,
    h2: Seq<Seq<Query>>,
    count: int,
    snap1: Seq<ExperimentDefinition>,
    snap2: Seq<ExperimentDefinition>,
)
    requires
        count >= 0,
        cohort_published(h0, h1, count, snap1),
        cohort_published(h1, h2, count, snap2),
    ensures
        h2.len() == h0.len() + count + count,
        forall|i: int| h0.len() <= i < h1.len() ==> #[trigger] h2[i] == h1[i],
        forall|i: int|
            h0.len() <= i < h1.len() ==> BATCH_SIZE_MIN <= (#[trigger] h2[i]).len()
                < BATCH_SIZE_MAX && derived_from(h2[i], snap1),
        forall|i: int|
            h1.len() <= i < h2.len() ==> BATCH_SIZE_MIN <= (#[trigger] h2[i]).len()
                < BATCH_SIZE_MAX && derived_from(h2[i], snap2),
{
    assert forall|i: int| h0.len() <= i < h1.len() implies #[trigger] h2[i] == h1[i] by {
        assert(h2[i] == h2.take(h1.len() as int)[i]);
    }
}

/// With the reference parameters a whole cohort fits the channel: the cohort
/// publishes `COHORT_SIZE` batches into a ring of `CHANNEL_CAPACITY`, so a
/// worker that subscribed before the window's first publish receives every
/// one of the window's batches, in publication order, before any is
/// discarded.
pub proof fn lemma_cohort_fits_channel(
    m: ChannelModel,
    batches: Seq<Seq<Query>>,
    s: int,
    k: int,
)
    requires
        channel_wf(m),
        m.capacity == CHANNEL_CAPACITY,
        0 <= s < m.cursors.len(),
        m.cursors[s] == m.history.len(),
        batches.len() == COHORT_SIZE,
        0 <= k < batches.len(),
    ensures
        spec_recv_result(spec_recv_iter(spec_publish_seq(m, batches), s, k as nat), s) == Some(
            batches[k],
        ),
{
    lemma_caught_up_subscriber_receives_window(m, batches, s, k);
}

} // verus!
