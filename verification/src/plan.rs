//! The plan of a finish: the ordered steps that retire a workflow branch.

use vstd::prelude::*;
use vstd::string::*;
use crate::branch::{qualified, resolve};
use crate::category::BranchCategory;
use crate::config::WorkflowConfig;
use crate::error::{Failure, FlowError};
use crate::strategy::MergePolicy;

verus! {

/// One step of a finish.
#[derive(Clone, Debug, PartialEq, Eq)]
pub enum PlanStep {
    /// Merge the branch `source` into the branch `target`.
    Merge { source: String, target: String, policy: MergePolicy },
    /// Tag the tip of the branch `target`.
    Tag { target: String },
    /// Remove the local branch `name`.
    DeleteBranch { name: String },
}

/// The mathematical value of a [`PlanStep`].
pub enum Step {
    Merge { source: Seq<char>, target: Seq<char>, policy: MergePolicy },
    Tag { target: Seq<char> },
    DeleteBranch { name: Seq<char> },
}

impl View for PlanStep {
    type V = Step;

    open spec fn view(&self) -> Step {
        match self {
            PlanStep::Merge { source, target, policy } => Step::Merge {
                source: source@,
                target: target@,
                policy: *policy,
            },
            PlanStep::Tag { target } => Step::Tag { target: target@ },
            PlanStep::DeleteBranch { name } => Step::DeleteBranch { name: name@ },
        }
    }
}

/// The steps of each plan step of a list.
pub open spec fn steps_of(v: Seq<PlanStep>) -> Seq<Step> {
    v.map_values(|s: PlanStep| s@)
}

/// The ordered steps that retire a workflow branch.
#[derive(Clone, Debug, PartialEq, Eq)]
pub struct FinishPlan {
    pub steps: Vec<PlanStep>,
}

impl View for FinishPlan {
    type V = Seq<Step>;

    open spec fn view(&self) -> Seq<Step> {
        steps_of(self.steps@)
    }
}

/// The steps that finish the branch `branch` of `category`.
///
/// A feature or bugfix branch is merged into the integration branch and
/// deleted. A release or hotfix branch is merged into the stable branch by a
/// commit of its own, the stable branch is tagged and merged back into the
/// integration branch, and the branch is deleted.
pub open spec fn steps_for(config: WorkflowConfig, category: BranchCategory, branch: Seq<char>)
    -> Seq<Step> {
    if category.tagged() {
        seq![
            Step::Merge {
                source: branch,
                target: config.stable@,
                policy: MergePolicy::AlwaysCommit,
            },
            Step::Tag { target: config.stable@ },
            Step::Merge {
                source: config.stable@,
                target: config.integration@,
                policy: MergePolicy::AllowFastForward,
            },
            Step::DeleteBranch { name: branch },
        ]
    } else {
        seq![
            Step::Merge {
                source: branch,
                target: config.integration@,
                policy: MergePolicy::AllowFastForward,
            },
            Step::DeleteBranch { name: branch },
        ]
    }
}

/// The plan of a finish, or why there is none: the category's prefix is not
/// configured, or the category has no branch of its own to finish into.
pub open spec fn planned(config: WorkflowConfig, category: BranchCategory, short: Seq<char>)
    -> Result<Seq<Step>, Failure> {
    match qualified(config, category, short) {
        Err(e) => Err(e),
        Ok(branch) => if category.caller_based() {
            Err(Failure::MissingArgument)
        } else {
            Ok(steps_for(config, category, branch))
        },
    }
}

/// The mathematical value of a plan or of the error in its place.
pub open spec fn plan_view(r: Result<FinishPlan, FlowError>) -> Result<Seq<Step>, Failure> {
    match r {
        Ok(p) => Ok(p@),
        Err(e) => Err(e@),
    }
}

impl FinishPlan {
    /// The plan that finishes the branch `short_name` of `category`.
    pub fn build(config: &WorkflowConfig, category: BranchCategory, short_name: &str) -> (r: Result<
        FinishPlan,
        FlowError,
    >)
        ensures
            plan_view(r) == planned(*config, category, short_name@),
    {
        let branch = match resolve(config, category, short_name) {
            Ok(b) => b,
            Err(e) => {
                return Err(e);
            },
        };
        if category.needs_base() {
            return Err(FlowError::MissingArgument);
        }
        let mut steps: Vec<PlanStep> = Vec::new();
        if category.uses_tag() {
            steps.push(
                PlanStep::Merge {
                    source: branch.clone(),
                    target: config.stable.clone(),
                    policy: MergePolicy::AlwaysCommit,
                },
            );
            steps.push(PlanStep::Tag { target: config.stable.clone() });
            steps.push(
                PlanStep::Merge {
                    source: config.stable.clone(),
                    target: config.integration.clone(),
                    policy: MergePolicy::AllowFastForward,
                },
            );
            steps.push(PlanStep::DeleteBranch { name: branch });
        } else {
            steps.push(
                PlanStep::Merge {
                    source: branch.clone(),
                    target: config.integration.clone(),
                    policy: MergePolicy::AllowFastForward,
                },
            );
            steps.push(PlanStep::DeleteBranch { name: branch });
        }
        let plan = FinishPlan { steps };
        assert(plan@ =~= steps_for(*config, category, qualified(*config, category, short_name@)->Ok_0));
        Ok(plan)
    }

    /// The number of steps.
    pub fn len(&self) -> (r: usize)
        ensures
            r == self@.len(),
    {
        self.steps.len()
    }
}

/// Every plan begins by merging the finished branch, ends by deleting it, and
/// deletes nothing else.
pub proof fn plan_deletes_last(config: WorkflowConfig, category: BranchCategory, short: Seq<char>)
    requires
        planned(config, category, short) is Ok,
    ensures
        ({
            let plan = planned(config, category, short)->Ok_0;
            let branch = qualified(config, category, short)->Ok_0;
            &&& plan.len() >= 2
            &&& plan.last() == Step::DeleteBranch { name: branch }
            &&& forall|i: int| 0 <= i < plan.len() - 1 ==> !(#[trigger] plan[i] is DeleteBranch)
            &&& plan[0] matches Step::Merge { source, .. } && source == branch
        }),
{
}

/// A plan tags exactly when the category calls for a tag; the tag follows a
/// merge that is always recorded by a commit, and the merge back into the
/// integration branch may fast-forward.
pub proof fn plan_tags_after_recorded_merge(
    config: WorkflowConfig,
    category: BranchCategory,
    short: Seq<char>,
)
    requires
        planned(config, category, short) is Ok,
    ensures
        ({
            let plan = planned(config, category, short)->Ok_0;
            &&& (exists|i: int| 0 <= i < plan.len() && #[trigger] plan[i] is Tag)
                <==> category.tagged()
            &&& category.tagged() ==> {
                &&& plan.len() == 4
                &&& plan[0] matches Step::Merge { target, policy, .. } && target == config.stable@
                    && policy == MergePolicy::AlwaysCommit
                &&& plan[1] == Step::Tag { target: config.stable@ }
                &&& plan[2] == Step::Merge {
                    source: config.stable@,
                    target: config.integration@,
                    policy: MergePolicy::AllowFastForward,
                }
            }
            &&& !category.tagged() ==> {
                &&& plan.len() == 2
                &&& plan[0] matches Step::Merge { target, policy, .. } && target
                    == config.integration@ && policy == MergePolicy::AllowFastForward
            }
        }),
{
    let plan = planned(config, category, short)->Ok_0;
    if category.tagged() {
        assert(plan[1] is Tag);
    }
}

} // verus!
