use vstd::prelude::*;
use crate::error::ProjectError;
use crate::error::ProjectErrorView;

verus! {

/// How one project's synchronization ended: cleanly, or with the error
/// that made the run skip to the next project.
pub struct ProjectOutcome {
    pub project_name: String,
    pub error: Option<ProjectError>,
}

pub struct ProjectOutcomeView {
    pub project_name: Seq<char>,
    pub error: Option<ProjectErrorView>,
}

impl View for ProjectOutcome {
    type V = ProjectOutcomeView;

    open spec fn view(&self) -> ProjectOutcomeView {
        ProjectOutcomeView {
            project_name: self.project_name@,
            error: match self.error {
                Some(ref e) => Some(e@),
                None => None,
            },
        }
    }
}

impl DeepView for ProjectOutcome {
    type V = ProjectOutcomeView;

    open spec fn deep_view(&self) -> ProjectOutcomeView {
        self@
    }
}

/// Whether some recorded outcome carries an error.
pub open spec fn spec_any_failure(outcomes: Seq<ProjectOutcomeView>) -> bool {
    exists|i: int| 0 <= i < outcomes.len() && (#[trigger] outcomes[i].error) is Some
}

/// The aggregate of one run: every project's outcome, in the order the
/// projects were processed.
pub struct RunSummary {
    pub outcomes: Vec<ProjectOutcome>,
}

impl View for RunSummary {
    type V = Seq<ProjectOutcomeView>;

    open spec fn view(&self) -> Seq<ProjectOutcomeView> {
        self.outcomes.deep_view()
    }
}

impl RunSummary {
    /// An empty summary, before any project has run.
    pub fn new() -> (s: RunSummary)
        ensures
            s@ == Seq::<ProjectOutcomeView>::empty(),
    {
        let s = RunSummary { outcomes: Vec::new() };
        proof {
            assert(s@ =~= Seq::<ProjectOutcomeView>::empty());
        }
        s
    }

    /// Records one project's result. Every earlier outcome is kept
    /// unchanged, whatever the new result is: a failure is written down
    /// and the run moves on.
    pub fn record(&mut self, project_name: String, result: Result<(), ProjectError>)
        ensures
            final(self)@ == old(self)@.push(
                ProjectOutcomeView {
                    project_name: project_name@,
                    error: match result {
                        Ok(_) => None,
                        Err(e) => Some(e@),
                    },
                },
            ),
    {
        let error = match result {
            Ok(_) => None,
            Err(e) => Some(e),
        };
        let outcome = ProjectOutcome { project_name, error };
        let ghost ov = outcome@;
        self.outcomes.push(outcome);
        proof {
            assert(self.outcomes.deep_view() =~= old(self)@.push(ov));
        }
    }

    /// How many projects have been processed.
    pub fn processed(&self) -> (n: usize)
        ensures
            n == self@.len(),
    {
        self.outcomes.len()
    }

    /// Whether any project failed during the run.
    pub fn any_failure(&self) -> (r: bool)
        ensures
            r == spec_any_failure(self@),
    {
        let n = self.outcomes.len();
        let mut i: usize = 0;
        while i < n
            invariant
                0 <= i <= n,
                n == self@.len(),
                forall|j: int| 0 <= j < i ==> !((#[trigger] self@[j].error) is Some),
            decreases n - i,
        {
            if self.outcomes[i].error.is_some() {
                proof {
                    assert(self@[i as int] == self.outcomes@[i as int].deep_view());
                    assert(self@[i as int].error is Some);
                    assert(spec_any_failure(self@));
                }
                return true;
            }
            proof {
                assert(self@[i as int] == self.outcomes@[i as int].deep_view());
                assert(!(self@[i as int].error is Some));
            }
            i = i + 1;
        }
        false
    }
}

/// Law: one project's failure is isolated. Recording an outcome — failed
/// or not — extends the summary by exactly that outcome, keeps every
/// earlier outcome unchanged, and the summary reports a failure exactly
/// when some recorded project failed.
pub proof fn lemma_failure_isolated(prev: Seq<ProjectOutcomeView>, o: ProjectOutcomeView)
    ensures
        prev.push(o).len() == prev.len() + 1,
        forall|i: int| 0 <= i < prev.len() ==> prev.push(o)[i] == prev[i],
        spec_any_failure(prev.push(o)) == (spec_any_failure(prev) || o.error is Some),
{
    let all = prev.push(o);
    if spec_any_failure(prev) {
        let i = choose|i: int| 0 <= i < prev.len() && (#[trigger] prev[i].error) is Some;
        assert(all[i].error is Some);
    }
    if o.error is Some {
        assert(all[prev.len() as int].error is Some);
    }
    if spec_any_failure(all) && !(o.error is Some) {
        let i = choose|i: int| 0 <= i < all.len() && (#[trigger] all[i].error) is Some;
        assert(i < prev.len());
        assert(prev[i].error is Some);
    }
}

} // verus!
