//! Pipeline scheduler: bookkeeping for a bounded pool of workers.
//!
//! The caller asks for the next project to hand to a free worker
//! (`dispatch`) and reports each finished project back (`record`).  The
//! contracts keep two facts: never more than `capacity` projects are out at
//! once, and the multiset of submitted projects is conserved — once the
//! scheduler is idle, every submitted project appears among the recorded
//! results exactly once, in whatever order the workers finished.

use vstd::prelude::*;

use vstd::multiset::Multiset;
use vstd::seq_lib::group_to_multiset_ensures;

use crate::pipeline::{PipelineResult, ProjectRef, ProjectView};

verus! {

broadcast use group_to_multiset_ensures;

/// The views of the projects in `v`.
pub open spec fn project_views(v: Seq<ProjectRef>) -> Seq<ProjectView> {
    v.map_values(|p: ProjectRef| p@)
}

/// Dispatch and collection state of one run over a selection of projects.
pub struct Scheduler {
    pending: Vec<ProjectRef>,
    active: Vec<ProjectRef>,
    results: Vec<PipelineResult>,
    capacity: usize,
}

impl Scheduler {
    /// Projects not yet handed to a worker.
    pub closed spec fn pending_views(&self) -> Seq<ProjectView> {
        project_views(self.pending@)
    }

    /// Projects currently out with a worker.
    pub closed spec fn active_views(&self) -> Seq<ProjectView> {
        project_views(self.active@)
    }

    /// The results recorded so far, in recording order.
    pub closed spec fn recorded(&self) -> Seq<PipelineResult> {
        self.results@
    }

    /// The bound on concurrent work.
    pub closed spec fn capacity_spec(&self) -> nat {
        self.capacity as nat
    }

    /// The bookkeeping is sound: the pool bound is positive and the number
    /// of projects out with workers never exceeds it.
    pub open spec fn wf(&self) -> bool {
        self.capacity_spec() >= 1 && self.active_views().len() <= self.capacity_spec()
    }

    /// The conserved multiset: every submitted project is pending, out
    /// with a worker, or recorded — and with the right multiplicity.
    pub open spec fn accounted(&self) -> Multiset<ProjectView> {
        self.pending_views().to_multiset().add(self.active_views().to_multiset()).add(
            self.recorded().map_values(|r: PipelineResult| r.project@).to_multiset(),
        )
    }

    /// A scheduler over `projects` with a pool of `capacity` workers;
    /// refused when the pool would be empty.
    pub fn new(projects: Vec<ProjectRef>, capacity: usize) -> (r: Option<Scheduler>)
        ensures
            (r is Some) == (capacity >= 1),
            r matches Some(s) ==> s.wf() && s.pending_views() == project_views(projects@)
                && s.active_views() == Seq::<ProjectView>::empty() && s.recorded()
                == Seq::<PipelineResult>::empty() && s.capacity_spec() == capacity as nat,
    {
        if capacity == 0 {
            None
        } else {
            let s = Scheduler { pending: projects, active: Vec::new(), results: Vec::new(), capacity };
            proof {
                assert(s.active_views() =~= Seq::<ProjectView>::empty());
            }
            Some(s)
        }
    }

    /// True iff nothing is pending and nothing is out with a worker.
    pub fn idle(&self) -> (r: bool)
        ensures
            r == (self.pending_views().len() == 0 && self.active_views().len() == 0),
    {
        self.pending.is_empty() && self.active.is_empty()
    }

    /// Hand out the next project when a worker is free: some project while
    /// any is pending and fewer than `capacity` are out, none otherwise.
    /// The conserved multiset does not change, and the bound is kept.
    pub fn dispatch(&mut self) -> (r: Option<ProjectRef>)
        requires
            old(self).wf(),
        ensures
            final(self).wf(),
            final(self).capacity_spec() == old(self).capacity_spec(),
            final(self).recorded() == old(self).recorded(),
            final(self).accounted() == old(self).accounted(),
            (r is Some) == (old(self).pending_views().len() > 0 && old(self).active_views().len()
                < old(self).capacity_spec()),
            r matches Some(p) ==> p@ == old(self).pending_views().last()
                && final(self).pending_views() == old(self).pending_views().drop_last()
                && final(self).active_views() == old(self).active_views().push(p@),
            r is None ==> final(self).pending_views() == old(self).pending_views()
                && final(self).active_views() == old(self).active_views(),
    {
        if self.active.len() < self.capacity {
            match self.pending.pop() {
                Some(p) => {
                    let copy = p.clone();
                    self.active.push(copy);
                    proof {
                        assert(self.pending_views() =~= old(self).pending_views().drop_last());
                        assert(self.active_views() =~= old(self).active_views().push(p@));
                        assert(old(self).pending_views() =~= self.pending_views().push(p@));
                        assert(self.accounted() =~= old(self).accounted());
                    }
                    Some(p)
                },
                None => None,
            }
        } else {
            None
        }
    }

    /// Record the result of a project that is out with a worker: the
    /// project comes off the active list, the result joins the record, and
    /// the conserved multiset does not change.
    pub fn record(&mut self, result: PipelineResult)
        requires
            old(self).wf(),
            old(self).active_views().contains(result.project@),
        ensures
            final(self).wf(),
            final(self).capacity_spec() == old(self).capacity_spec(),
            final(self).pending_views() == old(self).pending_views(),
            final(self).recorded() == old(self).recorded().push(result),
            final(self).active_views().to_multiset() == old(self).active_views().to_multiset()
                .remove(result.project@),
            final(self).accounted() == old(self).accounted(),
    {
        let n = self.active.len();
        let mut i: usize = 0;
        while i < n && !same_project(&self.active[i], &result.project)
            invariant
                n == self.active@.len(),
                0 <= i <= n,
                forall|j: int| 0 <= j < i ==> (#[trigger] self.active@[j])@ != result.project@,
                exists|j: int| 0 <= j < n && (#[trigger] self.active@[j])@ == result.project@,
            decreases n - i,
        {
            i = i + 1;
        }
        proof {
            assert(i < n);
            assert(self.active_views()[i as int] == result.project@);
        }
        self.active.remove(i);
        self.results.push(result);
        proof {
            assert(self.active_views() =~= old(self).active_views().remove(i as int));
            assert(self.active_views().to_multiset() == old(self).active_views().to_multiset()
                .remove(result.project@));
            assert(self.recorded().map_values(|r: PipelineResult| r.project@)
                =~= old(self).recorded().map_values(
                |r: PipelineResult| r.project@,
            ).push(result.project@));
            assert(self.accounted() =~= old(self).accounted());
        }
    }

    /// The collected results, once the run is over.
    pub fn into_results(self) -> (r: Vec<PipelineResult>)
        ensures
            r@ == self.recorded(),
    {
        self.results
    }
}

fn same_project(a: &ProjectRef, b: &ProjectRef) -> (r: bool)
    ensures
        r == (a@ == b@),
{
    let path_eq = a.path == b.path;
    let label_eq = a.label == b.label;
    path_eq && label_eq
}

/// Exactly-once delivery: once the scheduler is idle — nothing pending and
/// nothing out with a worker — the projects of the recorded results are,
/// as a multiset, exactly the conserved multiset, which the constructor
/// and every method tie to the submitted projects.  Each submitted project
/// therefore appears among the results exactly once.
pub proof fn lemma_idle_results_account_for_all(s: &Scheduler)
    requires
        s.pending_views().len() == 0,
        s.active_views().len() == 0,
    ensures
        s.recorded().map_values(|r: PipelineResult| r.project@).to_multiset() == s.accounted(),
{
    assert(s.pending_views().to_multiset() =~= Multiset::<ProjectView>::empty());
    assert(s.active_views().to_multiset() =~= Multiset::<ProjectView>::empty());
    assert(s.recorded().map_values(|r: PipelineResult| r.project@).to_multiset() =~= s.accounted());
}

} // verus!
