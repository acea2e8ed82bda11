//! Bringing a fetched tip into a local branch.

use vstd::prelude::*;
use vstd::string::*;
use crate::branch::local_ref;
use crate::engine;
use crate::error::{texts, FlowError, Stage};
use crate::lifecycle::{failure, possible};
use crate::merge::{
    merge_commit_request, merge_index, merge_result_fits, perform_commit, MergedTree,
};
use crate::strategy::{
    chosen, decide, fast_forward_note, tracking_message, Analysis, MergeOutcome, MergePolicy,
    MergeStrategy, Outcome,
};
use crate::text::join2;

verus! {

/// The reflog entry of a branch that is created at a fetched tip.
pub open spec fn creation_note_text(branch: Seq<char>, tip: Seq<char>) -> Seq<char> {
    "Setting "@ + branch + " to "@ + tip
}

/// The reflog entry of a branch that is created at a fetched tip.
pub fn creation_note(branch: &str, tip: &str) -> (r: String)
    ensures
        r@ == creation_note_text(branch@, tip@),
{
    let mut out = join2("Setting ", branch);
    out.append(" to ");
    out.append(tip);
    out
}

/// Brings the local branch `branch` to the fetched commit `tip` without a
/// commit, makes it the head and overwrites the working tree with it. A
/// branch that does not exist yet is created at `tip`.
fn fast_forward_to_fetched(repo: &git2::Repository, branch: &str, tip: &str) -> (r: Result<
    (),
    FlowError,
>)
    ensures
        r matches Err(e) ==> e@ is EngineError,
{
    let refname = local_ref(branch);
    match engine::find_reference(repo, refname.as_str()) {
        Ok(mut found) => {
            let name = match engine::reference_name(&found) {
                Some(n) => n,
                None => refname,
            };
            let note = fast_forward_note(name.as_str(), tip);
            match engine::set_target(&mut found, tip, note.as_str()) {
                Ok(()) => {},
                Err(e) => {
                    return Err(failure(Stage::Work, &e));
                },
            }
            match engine::set_head(repo, name.as_str()) {
                Ok(()) => {},
                Err(e) => {
                    return Err(failure(Stage::Work, &e));
                },
            }
            let mut options = engine::checkout_options();
            engine::options_force(&mut options);
            match engine::checkout_head(repo, &mut options) {
                Ok(()) => Ok(()),
                Err(e) => Err(failure(Stage::Work, &e)),
            }
        },
        Err(_) => {
            let note = creation_note(branch, tip);
            match engine::create_reference(repo, refname.as_str(), tip, true, note.as_str()) {
                Ok(()) => {},
                Err(e) => {
                    return Err(failure(Stage::Work, &e));
                },
            }
            match engine::set_head(repo, refname.as_str()) {
                Ok(()) => {},
                Err(e) => {
                    return Err(failure(Stage::Work, &e));
                },
            }
            let mut options = engine::checkout_options();
            engine::options_allow_conflicts(&mut options, true);
            engine::options_conflict_style_merge(&mut options, true);
            engine::options_force(&mut options);
            match engine::checkout_head(repo, &mut options) {
                Ok(()) => Ok(()),
                Err(e) => Err(failure(Stage::Work, &e)),
            }
        },
    }
}

/// Merges the fetched commit `tip` into the head by way of their common
/// ancestor, under a generated message, and checks the head out.
fn merge_fetched(repo: &git2::Repository, tip: &str) -> (r: Result<MergeOutcome, FlowError>)
    ensures
        r matches Ok(o) ==> o@ is Merged || (o@ matches Outcome::Conflicted(paths)
            && paths.len() > 0),
        r matches Err(e) ==> possible(Stage::FindBranch, e@),
{
    let head = match engine::head(repo) {
        Ok(h) => h,
        Err(e) => {
            return Err(failure(Stage::FindBranch, &e));
        },
    };
    let local = match engine::reference_target(&head) {
        Some(t) => t,
        None => {
            return Err(FlowError::BranchNotFound);
        },
    };
    let tree = match merge_index(repo, local.as_str(), tip) {
        Ok(MergedTree::Clean(t)) => t,
        Ok(MergedTree::Conflicted(paths)) => {
            assert(texts(paths@).len() == paths@.len());
            return Ok(MergeOutcome::Conflicted(paths));
        },
        Err(e) => {
            return Err(e);
        },
    };
    let message = tracking_message(tip, local.as_str());
    let request = merge_commit_request("HEAD", local.as_str(), tip, tree, message);
    let made = match perform_commit(repo, &request) {
        Ok(id) => id,
        Err(e) => {
            return Err(e);
        },
    };
    let mut options = engine::checkout_options();
    match engine::checkout_head(repo, &mut options) {
        Ok(()) => Ok(MergeOutcome::Merged(made)),
        Err(e) => Err(failure(Stage::Work, &e)),
    }
}

/// Brings the fetched commit `fetched_tip` into the local branch `branch`,
/// given the engine's analysis of that commit against the head:
/// fast-forwards where the analysis allows it, merges three-way where it
/// reports an ordinary merge, and otherwise asks nothing of the engine and
/// reports that the branch is up to date.
pub fn track_analyzed(
    repo: &git2::Repository,
    branch: &str,
    fetched_tip: &str,
    analysis: Analysis,
) -> (r: Result<MergeOutcome, FlowError>)
    ensures
        chosen(MergePolicy::AllowFastForward, analysis) is None ==> (r matches Ok(o) && o@
            == Outcome::UpToDate),
        r matches Ok(o) ==> merge_result_fits(
            MergePolicy::AllowFastForward,
            analysis,
            fetched_tip@,
            o@,
        ),
        r matches Err(e) ==> possible(Stage::FindBranch, e@),
{
    match decide(MergePolicy::AllowFastForward, analysis) {
        None => Ok(MergeOutcome::UpToDate),
        Some(MergeStrategy::FastForward) => match fast_forward_to_fetched(
            repo,
            branch,
            fetched_tip,
        ) {
            Ok(()) => Ok(MergeOutcome::FastForwarded(String::from_str(fetched_tip))),
            Err(e) => Err(e),
        },
        Some(MergeStrategy::ThreeWay) => merge_fetched(repo, fetched_tip),
    }
}

/// Brings the fetched commit `fetched_tip` into the local branch `branch` as
/// the engine's analysis of that commit against the head decides.
pub fn do_merge(repo: &git2::Repository, branch: &str, fetched_tip: &str) -> (r: Result<
    MergeOutcome,
    FlowError,
>)
    ensures
        r matches Ok(o) ==> (o@ matches Outcome::Conflicted(paths)
            ==> paths.len() > 0),
        r matches Ok(o) ==> (o@ matches Outcome::FastForwarded(tip) ==> tip
            == fetched_tip@),
        r matches Err(e) ==> possible(Stage::FindBranch, e@),
{
    let theirs = match engine::find_annotated_commit(repo, fetched_tip) {
        Ok(a) => a,
        Err(e) => {
            return Err(failure(Stage::Work, &e));
        },
    };
    let analysis = match engine::merge_analysis(repo, &theirs) {
        Ok(a) => a,
        Err(e) => {
            return Err(failure(Stage::Work, &e));
        },
    };
    track_analyzed(repo, branch, fetched_tip, analysis)
}

} // verus!
