use vstd::prelude::*;
use crate::experiment::ExperimentDefinition;

verus! {

/// One synthesized unit of load.  A query is immutable once created and
/// records which experiment definition it was derived from; the concrete
/// payload is the synthesis collaborator's concern, not the coordinator's.
#[derive(Clone, Copy, PartialEq, Eq, Structural, Debug)]
pub struct Query {
    /// Identity of the experiment definition this query was derived from.
    pub experiment_id: u64,
}

/// An ordered, immutable collection of queries, produced by exactly one
/// generation task and then shared unchanged with every worker it reaches.
pub struct Batch {
    queries: Vec<Query>,
}

impl View for Batch {
    type V = Seq<Query>;

    closed spec fn view(&self) -> Seq<Query> {
        self.queries@
    }
}

/// `q` was derived from some definition in `snapshot`.
pub open spec fn query_from(q: Query, snapshot: Seq<ExperimentDefinition>) -> bool {
    exists|j: int| 0 <= j < snapshot.len() && q.experiment_id == #[trigger] snapshot[j].id
}

/// Every query of `queries` was derived from some definition in `snapshot`.
pub open spec fn derived_from(queries: Seq<Query>, snapshot: Seq<ExperimentDefinition>) -> bool {
    forall|i: int| 0 <= i < queries.len() ==> query_from(#[trigger] queries[i], snapshot)
}

impl Batch {
    pub fn len(&self) -> (n: usize)
        ensures
            n == self@.len(),
    {
        self.queries.len()
    }

    pub fn query(&self, i: usize) -> (q: Query)
        requires
            i < self@.len(),
        ensures
            q == self@[i as int],
    {
        self.queries[i]
    }

    /// A second handle on the same immutable batch, as handed to each
    /// subscriber of the broadcast channel.
    pub fn share(&self) -> (copy: Batch)
        ensures
            copy@ == self@,
    {
        let mut queries: Vec<Query> = Vec::new();
        let mut i: usize = 0;
        while i < self.queries.len()
            invariant
                i <= self.queries.len(),
                queries@ == self@.take(i as int),
            decreases self.queries.len() - i,
        {
            queries.push(self.queries[i]);
            i = i + 1;
        }
        proof {
            assert(self@.take(self.queries.len() as int) =~= self@);
        }
        Batch { queries }
    }
}

/// Synthesize a batch of exactly `count` queries from a registry snapshot,
/// drawing on the definitions round-robin.  The distribution over experiments
/// is deliberately simple here: the coordination contract only promises that
/// the batch has the requested size and that every query derives from some
/// definition in the snapshot taken when the task started.
pub fn synthesize(snapshot: &Vec<ExperimentDefinition>, count: usize) -> (batch: Batch)
    requires
        snapshot@.len() > 0,
    ensures
        batch@.len() == count,
        derived_from(batch@, snapshot@),
{
    let mut queries: Vec<Query> = Vec::new();
    let mut next: usize = 0;
    let mut i: usize = 0;
    while i < count
        invariant
            i <= count,
            queries@.len() == i,
            next < snapshot@.len(),
            derived_from(queries@, snapshot@),
        decreases count - i,
    {
        let definition = snapshot[next];
        queries.push(Query { experiment_id: definition.id });
        proof {
            assert(snapshot@[next as int].id == definition.id);
            assert(query_from(Query { experiment_id: definition.id }, snapshot@));
        }
        next = if next >= snapshot.len() - 1 {
            0
        } else {
            next + 1
        };
        i = i + 1;
    }
    Batch { queries }
}

} // verus!
