//! Carrying out a finish plan step by step.

use vstd::prelude::*;
use vstd::string::*;
use crate::category::BranchCategory;
use crate::config::WorkflowConfig;
use crate::error::{Failure, FlowError, Stage};
use crate::lifecycle::{delete, possible};
use crate::merge::merge_branch;
use crate::operator::Operator;
use crate::plan::{planned, FinishPlan, PlanStep, Step};
use crate::strategy::{MergeOutcome, MergePolicy, Outcome};
use crate::tag::create_tag;

verus! {

/// What a completed step of a finish did.
#[derive(Clone, Debug, PartialEq, Eq)]
pub enum StepOutcome {
    Merged(MergeOutcome),
    /// The stable line was tagged; this is the tag's id.
    Tagged(String),
    Deleted,
}

/// How far a finish got: what each completed step did, in the plan's order,
/// and the error that halted it, if one did.
#[derive(Clone, Debug, PartialEq, Eq)]
pub struct PlanRun {
    pub done: Vec<StepOutcome>,
    pub halted: Option<FlowError>,
}

/// What a completed step may report: a merge reports an outcome without
/// conflict, with a commit of its own where the plan demands one; a tag
/// reports the tag; a deletion reports itself.
pub open spec fn outcome_fits(step: Step, outcome: StepOutcome) -> bool {
    match step {
        Step::Merge { policy, .. } => outcome matches StepOutcome::Merged(o) && o@.proceeds() && (
        policy == MergePolicy::AlwaysCommit ==> o@.made_commit()),
        Step::Tag { .. } => outcome is Tagged,
        Step::DeleteBranch { .. } => outcome is Deleted,
    }
}

/// The errors that can halt a finish at a step. Only a merge halts on a
/// conflict, and then with at least one path; only a tag halts on an empty
/// name.
pub open spec fn halt_fits(step: Step, failure: Failure) -> bool {
    match step {
        Step::Merge { .. } => (failure matches Failure::MergeConflict(paths) && paths.len() > 0)
            || possible(Stage::FindBranch, failure) || possible(Stage::Checkout, failure),
        Step::Tag { .. } => failure is EmptyTagName || possible(Stage::CreateTag, failure)
            || possible(Stage::FindBranch, failure),
        Step::DeleteBranch { .. } => possible(Stage::FindBranch, failure) || possible(
            Stage::Checkout,
            failure,
        ),
    }
}

/// A run of `plan`: the completed steps are a prefix of the plan, each with an
/// outcome that fits its step; the run halted exactly if steps are left, and
/// then with an error that fits the first step left.
pub open spec fn run_fits(plan: Seq<Step>, run: PlanRun) -> bool {
    &&& run.done@.len() <= plan.len()
    &&& forall|i: int| 0 <= i < run.done@.len() ==> outcome_fits(plan[i], #[trigger] run.done@[i])
    &&& run.halted is None <==> run.done@.len() == plan.len()
    &&& run.halted matches Some(e) ==> halt_fits(plan[run.done@.len() as int], e@)
}

/// Carries out one step of a plan.
pub fn run_step<O: Operator>(
    repo: &git2::Repository,
    config: &WorkflowConfig,
    step: &PlanStep,
    operator: &mut O,
) -> (r: Result<StepOutcome, FlowError>)
    ensures
        r matches Ok(o) ==> outcome_fits(step@, o),
        r matches Err(e) ==> halt_fits(step@, e@),
{
    match step {
        PlanStep::Merge { source, target, policy } => {
            let merged = match merge_branch(
                repo,
                config,
                target.as_str(),
                source.as_str(),
                *policy,
                operator,
            ) {
                Ok(outcome) => outcome,
                Err(e) => {
                    return Err(e);
                },
            };
            match merged.settle() {
                Ok(outcome) => Ok(StepOutcome::Merged(outcome)),
                Err(e) => Err(e),
            }
        },
        PlanStep::Tag { target } => match create_tag(repo, target.as_str(), operator) {
            Ok(id) => Ok(StepOutcome::Tagged(id)),
            Err(e) => Err(e),
        },
        PlanStep::DeleteBranch { name } => match delete(repo, config, name.as_str()) {
            Ok(()) => Ok(StepOutcome::Deleted),
            Err(e) => Err(e),
        },
    }
}

/// Carries out the steps of `plan` in their order and halts at the first one
/// that fails. What was completed stays as it is: nothing is rolled back.
pub fn run_plan<O: Operator>(
    repo: &git2::Repository,
    config: &WorkflowConfig,
    plan: &FinishPlan,
    operator: &mut O,
) -> (r: PlanRun)
    ensures
        run_fits(plan@, r),
{
    let mut done: Vec<StepOutcome> = Vec::new();
    let mut i: usize = 0;
    while i < plan.steps.len()
        invariant
            i <= plan.steps.len(),
            done@.len() == i,
            forall|k: int| 0 <= k < i ==> outcome_fits(plan@[k], #[trigger] done@[k]),
        decreases plan.steps.len() - i,
    {
        assert(plan@[i as int] == plan.steps@[i as int]@);
        match run_step(repo, config, &plan.steps[i], operator) {
            Ok(outcome) => {
                done.push(outcome);
            },
            Err(e) => {
                return PlanRun { done, halted: Some(e) };
            },
        }
        i += 1;
    }
    PlanRun { done, halted: None }
}

/// Finishes the branch `short_name` of `category`: builds its plan and
/// carries it out.
///
/// Without a plan nothing is asked of the engine, and the error is the one
/// for which there is no plan. With one, the result is what each step did
/// where every step was completed, and else the error that halted a step.
pub fn finish<O: Operator>(
    repo: &git2::Repository,
    config: &WorkflowConfig,
    category: BranchCategory,
    short_name: &str,
    operator: &mut O,
) -> (r: Result<Vec<StepOutcome>, FlowError>)
    ensures
        planned(*config, category, short_name@) matches Err(f) ==> r matches Err(e) && e@ == f,
        planned(*config, category, short_name@) matches Ok(plan) ==> (r matches Ok(done)
            ==> done@.len() == plan.len() && forall|i: int|
            0 <= i < plan.len() ==> outcome_fits(plan[i], #[trigger] done@[i])),
        planned(*config, category, short_name@) matches Ok(plan) ==> (r matches Err(e)
            ==> exists|i: int| 0 <= i < plan.len() && #[trigger] halt_fits(plan[i], e@)),
{
    let plan = match FinishPlan::build(config, category, short_name) {
        Ok(p) => p,
        Err(e) => {
            return Err(e);
        },
    };
    let ghost steps = planned(*config, category, short_name@)->Ok_0;
    assert(steps == plan@);
    let run = run_plan(repo, config, &plan, operator);
    let ghost at = run.done@.len() as int;
    match run.halted {
        None => Ok(run.done),
        Some(e) => {
            assert(0 <= at < steps.len());
            assert(halt_fits(steps[at], e@));
            Err(e)
        },
    }
}

/// A finish fails on a conflict only with at least one path in conflict, and
/// fails for want of a setting or of an argument only where it has no plan.
pub proof fn finish_errors_are_told_apart(
    config: WorkflowConfig,
    category: BranchCategory,
    short: Seq<char>,
    failure: Failure,
)
    requires
        match planned(config, category, short) {
            Err(f) => failure == f,
            Ok(plan) => exists|i: int| 0 <= i < plan.len() && #[trigger] halt_fits(plan[i], failure),
        },
    ensures
        failure matches Failure::MergeConflict(paths) ==> paths.len() > 0,
        failure is ConfigMissing <==> config.prefix(category) is None,
        failure is MissingArgument <==> config.prefix(category) is Some && category.caller_based(),
{
}

/// A run that halted has not deleted the finished branch: the deletion ends
/// the plan, and no step before the one that failed was a deletion. The
/// branch is still there for the finish to be asked again.
pub proof fn halted_finish_keeps_the_branch(
    config: WorkflowConfig,
    category: BranchCategory,
    short: Seq<char>,
    run: PlanRun,
)
    requires
        planned(config, category, short) is Ok,
        run_fits(planned(config, category, short)->Ok_0, run),
        run.halted is Some,
    ensures
        ({
            let plan = planned(config, category, short)->Ok_0;
            let at = run.done@.len() as int;
            &&& at < plan.len()
            &&& plan.last() is DeleteBranch
            &&& forall|i: int| 0 <= i < at ==> !(#[trigger] run.done@[i] is Deleted)
        }),
{
    let plan = planned(config, category, short)->Ok_0;
    let at = run.done@.len() as int;
    assert forall|i: int| 0 <= i < at implies !(#[trigger] run.done@[i] is Deleted) by {
        assert(outcome_fits(plan[i], run.done@[i]));
    }
}

/// A run that halted on a conflict halted at a merge and reports at least one
/// path; the deletion that ends the plan was not reached.
pub proof fn conflict_halts_at_a_merge(
    config: WorkflowConfig,
    category: BranchCategory,
    short: Seq<char>,
    run: PlanRun,
)
    requires
        planned(config, category, short) is Ok,
        run_fits(planned(config, category, short)->Ok_0, run),
        run.halted matches Some(e) && e@ is MergeConflict,
    ensures
        ({
            let plan = planned(config, category, short)->Ok_0;
            let at = run.done@.len() as int;
            &&& run.halted->Some_0@ matches Failure::MergeConflict(paths) && paths.len() > 0
            &&& at < plan.len() - 1
            &&& plan[at] is Merge
            &&& forall|i: int| 0 <= i < at ==> !(#[trigger] run.done@[i] is Deleted)
        }),
{
    let plan = planned(config, category, short)->Ok_0;
    let at = run.done@.len() as int;
    assert(halt_fits(plan[at], run.halted->Some_0@));
    halted_finish_keeps_the_branch(config, category, short, run);
}

/// A merge that the plan wants recorded never completes without a commit of
/// its own: in a completed run of a plan that tags, the first step made one.
pub proof fn tagged_finish_records_its_merge(
    config: WorkflowConfig,
    category: BranchCategory,
    short: Seq<char>,
    run: PlanRun,
)
    requires
        category.tagged(),
        planned(config, category, short) is Ok,
        run_fits(planned(config, category, short)->Ok_0, run),
        run.done@.len() >= 1,
    ensures
        run.done@[0] matches StepOutcome::Merged(o) && o@.made_commit(),
{
    let plan = planned(config, category, short)->Ok_0;
    assert(outcome_fits(plan[0], run.done@[0]));
}

} // verus!
