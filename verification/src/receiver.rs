use vstd::prelude::*;
use crate::batch::Query;
use crate::batch::derived_from;
use crate::channel::BatchChannel;
use crate::channel::spec_publish_seq;
use crate::cycle::BATCH_SIZE_MAX;
use crate::cycle::BATCH_SIZE_MIN;
use crate::cycle::COHORT_SIZE;
use crate::cycle::WARMUP_MILLIS;
use crate::cycle::cohort_published;
use crate::cycle::run_cohort;
use crate::experiment::ExperimentDefinition;
use crate::experiment::ExperimentRegistry;
use crate::hosts::ExperimentReceiverConfig;
use crate::hosts::Host;

verus! {

/// The unrecoverable startup conditions.  Everything after startup is either
/// contained to one worker or an accepted lossy-delivery outcome; only these
/// abort the process.
#[derive(Clone, Copy, PartialEq, Eq, Structural, Debug)]
pub enum StartupError {
    /// The intake source closed before the first experiment definition
    /// arrived, so generation could never begin.
    IntakeClosed,
}

/// One long-lived worker: bound to exactly one host, owning exactly one
/// subscription on the broadcast channel, and instructed to wait out the
/// warm-up delay before consuming.  The embedding program runs it; a worker's
/// failures are recorded against its host and never propagated.
pub struct Worker {
    pub host: Host,
    pub subscription: usize,
    pub warmup_millis: u64,
}

/// The coordinator: the host configuration it was started with and the
/// registry of accepted experiment definitions.  It decides what each phase
/// of the generation cycle does; the embedding program supplies timers,
/// tasks and the intake source.
pub struct ExperimentReceiver {
    config: ExperimentReceiverConfig,
    registry: ExperimentRegistry,
}

impl ExperimentReceiver {
    pub closed spec fn spec_hosts(&self) -> Seq<Host> {
        self.config.spec_hosts()
    }

    pub closed spec fn spec_registry(&self) -> Seq<ExperimentDefinition> {
        self.registry@
    }

    /// A receiver starts with the loaded configuration and an empty
    /// registry; nothing is generated until the first definition arrives.
    pub fn new(config: ExperimentReceiverConfig) -> (receiver: ExperimentReceiver)
        ensures
            receiver.spec_hosts() == config.spec_hosts(),
            receiver.spec_registry() == Seq::<ExperimentDefinition>::empty(),
    {
        ExperimentReceiver { config, registry: ExperimentRegistry::new() }
    }

    pub fn host_count(&self) -> (n: usize)
        ensures
            n == self.spec_hosts().len(),
    {
        self.config.host_count()
    }

    pub fn registry_len(&self) -> (n: usize)
        ensures
            n == self.spec_registry().len(),
    {
        self.registry.len()
    }

    /// The one blocking wait of startup, decided.  The embedding program
    /// performs the wait on the intake source and hands over what it got:
    /// the first definition, or `None` when the source closed first — the
    /// fatal startup condition.  On success the registry is non-empty and,
    /// being append-only, stays non-empty forever.
    pub fn add_first_experiment(&mut self, first: Option<ExperimentDefinition>) -> (outcome: Result<
        (),
        StartupError,
    >)
        ensures
            final(self).spec_hosts() == old(self).spec_hosts(),
            match first {
                Some(definition) => {
                    &&& outcome is Ok
                    &&& final(self).spec_registry() == old(self).spec_registry().push(definition)
                    &&& final(self).spec_registry().len() > 0
                },
                None => {
                    &&& outcome == Result::<(), StartupError>::Err(StartupError::IntakeClosed)
                    &&& final(self).spec_registry() == old(self).spec_registry()
                },
            },
    {
        match first {
            Some(definition) => {
                self.registry.accept(definition);
                Ok(())
            },
            None => Err(StartupError::IntakeClosed),
        }
    }

    /// The intake phase: drain everything currently pending on the intake
    /// into the registry, preserving submission order, and return at once
    /// when nothing is pending.  The registry never shrinks.
    pub fn receive_experiments(&mut self, pending: &Vec<ExperimentDefinition>)
        ensures
            final(self).spec_hosts() == old(self).spec_hosts(),
            final(self).spec_registry() == old(self).spec_registry() + pending@,
            final(self).spec_registry().len() >= old(self).spec_registry().len(),
    {
        self.registry.accept_pending(pending);
    }

    /// Plan the worker fleet: exactly one worker per configured host, in
    /// configuration order, each bound to its own host, holding its own
    /// fresh subscription on the broadcast channel, and told to wait the
    /// warm-up delay before consuming.  Distinct workers hold distinct
    /// subscriptions, and every subscription starts fully caught up.
    pub fn create_requestors(&self, channel: &mut BatchChannel) -> (workers: Vec<Worker>)
        requires
            old(channel).wf(),
        ensures
            final(channel).wf(),
            final(channel).model().history == old(channel).model().history,
            final(channel).model().capacity == old(channel).model().capacity,
            final(channel).model().dropped == old(channel).model().dropped,
            final(channel).model().cursors.len() == old(channel).model().cursors.len()
                + self.spec_hosts().len(),
            workers@.len() == self.spec_hosts().len(),
            forall|i: int|
                0 <= i < workers@.len() ==> {
                    let w = #[trigger] workers@[i];
                    &&& w.host.address@ == self.spec_hosts()[i].address@
                    &&& w.host.port == self.spec_hosts()[i].port
                    &&& w.subscription == old(channel).model().cursors.len() + i
                    &&& w.warmup_millis == WARMUP_MILLIS
                },
            forall|i: int, j: int|
                0 <= i < workers@.len() && 0 <= j < workers@.len() && i != j
                    ==> #[trigger] workers@[i].subscription != #[trigger] workers@[j].subscription,
            forall|s: int|
                old(channel).model().cursors.len() <= s < final(channel).model().cursors.len()
                    ==> #[trigger] final(channel).model().cursors[s] == final(channel).model().history.len(),
    {
        let hosts = self.config.hosts();
        let mut workers: Vec<Worker> = Vec::new();
        let mut i: usize = 0;
        while i < hosts.len()
            invariant
                hosts@ == self.spec_hosts(),
                i <= hosts@.len(),
                channel.wf(),
                channel.model().history == old(channel).model().history,
                channel.model().capacity == old(channel).model().capacity,
                channel.model().dropped == old(channel).model().dropped,
                channel.model().cursors.len() == old(channel).model().cursors.len() + i,
                channel.model().cursors.take(old(channel).model().cursors.len() as int) == old(channel).model().cursors,
                workers@.len() == i,
                forall|k: int|
                    0 <= k < workers@.len() ==> {
                        let w = #[trigger] workers@[k];
                        &&& w.host.address@ == self.spec_hosts()[k].address@
                        &&& w.host.port == self.spec_hosts()[k].port
                        &&& w.subscription == old(channel).model().cursors.len() + k
                        &&& w.warmup_millis == WARMUP_MILLIS
                    },
                forall|s: int|
                    old(channel).model().cursors.len() <= s < channel.model().cursors.len()
                        ==> #[trigger] channel.model().cursors[s] == channel.model().history.len(),
            decreases hosts@.len() - i,
        {
            let ghost cursors_before = channel.model().cursors;
            let subscription = channel.subscribe();
            workers.push(
                Worker { host: hosts[i].share(), subscription, warmup_millis: WARMUP_MILLIS },
            );
            proof {
                assert(channel.model().cursors.take(old(channel).model().cursors.len() as int)
                    =~= cursors_before.take(old(channel).model().cursors.len() as int));
            }
            i = i + 1;
        }
        workers
    }

    /// One full iteration of the generation cycle: accept whatever intake is
    /// pending, snapshot the registry, then dispatch the whole cohort for
    /// this window against that snapshot.  The registry must already be
    /// non-empty — the coordinator never dispatches a generation cohort
    /// before at least one definition has been accepted — and definitions
    /// submitted after this window's intake phase influence only later
    /// windows.  The call returns only once the cohort is complete, so
    /// consecutive windows' cohorts never overlap.
    pub fn run_window(&mut self, pending: &Vec<ExperimentDefinition>, channel: &mut BatchChannel) -> (published: Ghost<Seq<Seq<Query>>>)
        requires
            old(self).spec_registry().len() > 0,
            old(channel).wf(),
            old(channel).model().history.len() + COHORT_SIZE <= usize::MAX,
        ensures
            final(self).spec_hosts() == old(self).spec_hosts(),
            final(self).spec_registry() == old(self).spec_registry() + pending@,
            final(self).spec_registry().len() > 0,
            final(channel).wf(),
            final(channel).model() == spec_publish_seq(old(channel).model(), published@),
            published@.len() == COHORT_SIZE,
            forall|i: int|
                0 <= i < published@.len() ==> BATCH_SIZE_MIN <= (#[trigger] published@[i]).len()
                    < BATCH_SIZE_MAX,
            forall|i: int|
                0 <= i < published@.len() ==> derived_from(
                    #[trigger] published@[i],
                    final(self).spec_registry(),
                ),
            final(channel).model().capacity == old(channel).model().capacity,
            final(channel).model().cursors == old(channel).model().cursors,
            cohort_published(
                old(channel).model().history,
                final(channel).model().history,
                COHORT_SIZE as int,
                final(self).spec_registry(),
            ),
    {
        self.receive_experiments(pending);
        let snapshot = self.registry.snapshot();
        run_cohort(&snapshot, channel)
    }
}

} // verus!
