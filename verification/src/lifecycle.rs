//! Checking out and deleting branches, and the errors that an engine failure
//! can become at each stage of an operation.

use vstd::prelude::*;
use vstd::string::*;
use crate::branch::{local_ref, local_ref_text, opt_text};
use crate::config::WorkflowConfig;
use crate::engine;
use crate::error::{classified, classify, EngineFault, Failure, FlowError, Stage};
use crate::text::same_text;

verus! {

/// The errors that an engine failure at `stage` can become.
pub open spec fn possible(stage: Stage, f: Failure) -> bool {
    f is EngineError || match stage {
        Stage::FindBranch => f is BranchNotFound,
        Stage::FindBase => f is BaseBranchNotFound,
        Stage::CreateBranch => f is BranchAlreadyExists,
        Stage::Checkout => f is DirtyWorkingTree,
        Stage::CreateTag => f is TagAlreadyExists,
        Stage::FindRemote => f is RemoteNotFound,
        Stage::Transfer => f is AuthenticationFailed || f is NonFastForwardRejected,
        Stage::Work => false,
    }
}

/// Every classification of a failure at a stage is one of the errors
/// possible there.
pub proof fn classified_is_possible(stage: Stage, fault: EngineFault, message: Seq<char>)
    ensures
        possible(stage, classified(stage, fault, message)),
{
}

/// The workflow error for an engine error met at `stage`.
pub fn failure(stage: Stage, e: &git2::Error) -> (r: FlowError)
    ensures
        possible(stage, r@),
{
    let fault = engine::fault_of(e);
    let message = engine::error_text(e);
    proof {
        classified_is_possible(stage, fault, message@);
    }
    classify(stage, fault, message)
}

/// Switches the working tree and the head to a local branch.
///
/// Fails with `BranchNotFound` where the engine finds no such branch, with
/// `DirtyWorkingTree` where it refuses to overwrite uncommitted changes.
pub fn checkout(repo: &git2::Repository, branch: &str) -> (r: Result<(), FlowError>)
    ensures
        r matches Err(e) ==> possible(Stage::FindBranch, e@) || possible(Stage::Checkout, e@),
{
    let refname = local_ref(branch);
    let object = match engine::revparse_single(repo, refname.as_str()) {
        Ok(o) => o,
        Err(e) => {
            return Err(failure(Stage::FindBranch, &e));
        },
    };
    match engine::checkout_tree(repo, &object) {
        Ok(()) => {},
        Err(e) => {
            return Err(failure(Stage::Checkout, &e));
        },
    }
    match engine::set_head(repo, refname.as_str()) {
        Ok(()) => Ok(()),
        Err(e) => Err(failure(Stage::Work, &e)),
    }
}

/// Whether a head that names `head` stands on the local branch `branch`.
pub open spec fn head_names(head: Option<Seq<char>>, branch: Seq<char>) -> bool {
    head == Some(local_ref_text(branch))
}

/// Whether a head that names `head` stands on the local branch `branch`.
pub fn head_is_on(head: Option<&str>, branch: &str) -> (r: bool)
    ensures
        r == head_names(opt_text(head), branch@),
{
    match head {
        Some(name) => same_text(name, local_ref(branch).as_str()),
        None => false,
    }
}

/// Where the head goes before the branch that it stands on is deleted: to the
/// integration branch, or to the stable branch where it is the integration
/// branch that is deleted.
pub open spec fn refuge_text(config: WorkflowConfig, branch: Seq<char>) -> Seq<char> {
    if branch == config.integration@ {
        config.stable@
    } else {
        config.integration@
    }
}

/// Where the head goes before `branch`, on which it stands, is deleted.
pub fn refuge(config: &WorkflowConfig, branch: &str) -> (r: String)
    ensures
        r@ == refuge_text(*config, branch@),
{
    if same_text(branch, config.integration.as_str()) {
        config.stable.clone()
    } else {
        config.integration.clone()
    }
}

/// Removes a local branch, merged or not. Where the head stands on that
/// branch, its refuge is checked out first.
pub fn delete(repo: &git2::Repository, config: &WorkflowConfig, branch: &str) -> (r: Result<
    (),
    FlowError,
>)
    ensures
        r matches Err(e) ==> possible(Stage::FindBranch, e@) || possible(Stage::Checkout, e@),
{
    let head = match engine::head(repo) {
        Ok(h) => engine::reference_name(&h),
        Err(_) => None,
    };
    let leave = match &head {
        Some(name) => head_is_on(Some(name.as_str()), branch),
        None => false,
    };
    if leave {
        match checkout(repo, refuge(config, branch).as_str()) {
            Ok(()) => {},
            Err(e) => {
                return Err(e);
            },
        }
    }
    let mut found = match engine::find_local_branch(repo, branch) {
        Ok(b) => b,
        Err(e) => {
            return Err(failure(Stage::FindBranch, &e));
        },
    };
    match engine::delete_found_branch(&mut found) {
        Ok(()) => Ok(()),
        Err(e) => Err(failure(Stage::Work, &e)),
    }
}

/// The commit at which a local branch stands.
pub fn tip_of(repo: &git2::Repository, branch: &str) -> (r: Result<String, FlowError>)
    ensures
        r matches Err(e) ==> possible(Stage::FindBranch, e@),
{
    let refname = local_ref(branch);
    match engine::refname_to_id(repo, refname.as_str()) {
        Ok(id) => Ok(id),
        Err(e) => Err(failure(Stage::FindBranch, &e)),
    }
}

} // verus!
