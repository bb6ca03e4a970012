use vstd::prelude::*;

verus! {

/// An accepted description of a query mix, identified by the id its submitter
/// chose.  A definition is immutable once accepted and is shared by every
/// generation task that snapshots the registry; the coordination core routes
/// definitions without interpreting them, so it carries only their identity.
#[derive(Clone, Copy, PartialEq, Eq, Structural, Debug)]
pub struct ExperimentDefinition {
    pub id: u64,
}

/// The ordered collection of currently active experiment definitions.
///
/// The registry starts empty and grows only by appending, in submission
/// order; entries are never removed or reordered for the lifetime of the
/// process.  Every snapshot a reader takes is therefore a prefix of every
/// later snapshot.
pub struct ExperimentRegistry {
    entries: Vec<ExperimentDefinition>,
}

impl View for ExperimentRegistry {
    type V = Seq<ExperimentDefinition>;

    closed spec fn view(&self) -> Seq<ExperimentDefinition> {
        self.entries@
    }
}

impl ExperimentRegistry {
    /// The empty registry every process starts from.
    pub fn new() -> (registry: ExperimentRegistry)
        ensures
            registry@ == Seq::<ExperimentDefinition>::empty(),
    {
        ExperimentRegistry { entries: Vec::new() }
    }

    /// Accept one definition at the end of the registry.
    pub fn accept(&mut self, definition: ExperimentDefinition)
        ensures
            final(self)@ == old(self)@.push(definition),
    {
        self.entries.push(definition);
    }

    /// Accept every pending definition, preserving submission order.
    /// With nothing pending the registry is unchanged (a non-blocking drain).
    pub fn accept_pending(&mut self, pending: &Vec<ExperimentDefinition>)
        ensures
            final(self)@ == old(self)@ + pending@,
    {
        let ghost initial = self@;
        let mut i: usize = 0;
        while i < pending.len()
            invariant
                i <= pending.len(),
                self@ == initial + pending@.take(i as int),
            decreases pending.len() - i,
        {
            self.entries.push(pending[i]);
            i = i + 1;
        }
        proof {
            assert(pending@.take(pending.len() as int) =~= pending@);
        }
    }

    pub fn len(&self) -> (n: usize)
        ensures
            n == self@.len(),
    {
        self.entries.len()
    }

    pub fn is_empty(&self) -> (empty: bool)
        ensures
            empty == (self@.len() == 0),
    {
        self.entries.len() == 0
    }

    /// An immutable snapshot of the current definitions, for read-only use by
    /// a generation task.  The snapshot holds exactly the entries accepted so
    /// far, in acceptance order.
    pub fn snapshot(&self) -> (snap: Vec<ExperimentDefinition>)
        ensures
            snap@ == self@,
    {
        let mut snap: Vec<ExperimentDefinition> = Vec::new();
        let mut i: usize = 0;
        while i < self.entries.len()
            invariant
                i <= self.entries.len(),
                snap@ == self@.take(i as int),
            decreases self.entries.len() - i,
        {
            snap.push(self.entries[i]);
            i = i + 1;
        }
        proof {
            assert(self@.take(self.entries.len() as int) =~= self@);
        }
        snap
    }
}

/// Registry growth is monotone: for any sequence of intake submissions,
/// intake never shrinks the registry, and the earlier contents stay an
/// unchanged prefix of the later contents.  In particular a registry that has
/// become non-empty never becomes empty again.
pub proof fn lemma_intake_monotonic(
    before: Seq<ExperimentDefinition>,
    pending: Seq<ExperimentDefinition>,
)
    ensures
        (before + pending).len() >= before.len(),
        before.is_prefix_of(before + pending),
        before.len() > 0 ==> (before + pending).len() > 0,
{
    assert(before =~= (before + pending).take(before.len() as int));
}

} // verus!
