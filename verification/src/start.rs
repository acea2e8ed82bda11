//! Starting a workflow branch.

use vstd::prelude::*;
use vstd::string::*;
use crate::branch::{local_ref, named, opt_text, qualified, resolve, start_base, start_base_of};
use crate::category::BranchCategory;
use crate::config::WorkflowConfig;
use crate::engine;
use crate::error::{Failure, FlowError, Stage};
use crate::lifecycle::{checkout, failure, possible};

verus! {

/// What a start is to do: the branch to create and the branch to create it
/// from.
#[derive(Clone, Debug, PartialEq, Eq)]
pub struct StartRequest {
    pub branch: String,
    pub base: String,
}

/// The request of a start, or the error for which there is none: the
/// category's prefix is not configured, or the category wants a base and the
/// caller gave none.
pub open spec fn start_request_of(
    config: WorkflowConfig,
    category: BranchCategory,
    short: Seq<char>,
    base_override: Option<Seq<char>>,
) -> Result<(Seq<char>, Seq<char>), Failure> {
    match qualified(config, category, short) {
        Err(e) => Err(e),
        Ok(branch) => match start_base_of(config, category, base_override) {
            Err(e) => Err(e),
            Ok(base) => Ok((branch, base)),
        },
    }
}

/// The mathematical value of a start's request.
pub open spec fn request_view(r: Result<StartRequest, FlowError>) -> Result<
    (Seq<char>, Seq<char>),
    Failure,
> {
    match r {
        Ok(q) => Ok((q.branch@, q.base@)),
        Err(e) => Err(e@),
    }
}

/// The request of a start of the branch `short_name` of `category`.
pub fn start_request(
    config: &WorkflowConfig,
    category: BranchCategory,
    short_name: &str,
    base_override: Option<&str>,
) -> (r: Result<StartRequest, FlowError>)
    ensures
        request_view(r) == start_request_of(*config, category, short_name@, opt_text(base_override)),
{
    let branch = match resolve(config, category, short_name) {
        Ok(b) => b,
        Err(e) => {
            return Err(e);
        },
    };
    let base = match start_base(config, category, base_override) {
        Ok(b) => b,
        Err(e) => {
            return Err(e);
        },
    };
    Ok(StartRequest { branch, base })
}

/// Creates the local branch `branch` at the tip of the local branch `base`
/// and checks it out. The base is checked out first.
///
/// Fails with `BaseBranchNotFound` where the engine does not find the base,
/// and with `BranchAlreadyExists` where it already holds `branch`.
pub fn create_checkout_branch(repo: &git2::Repository, branch: &str, base: &str) -> (r: Result<
    (),
    FlowError,
>)
    ensures
        r matches Err(e) ==> possible(Stage::FindBase, e@) || possible(Stage::CreateBranch, e@)
            || possible(Stage::Checkout, e@) || possible(Stage::FindBranch, e@),
{
    let base_ref = local_ref(base);
    let tip = match engine::refname_to_id(repo, base_ref.as_str()) {
        Ok(t) => t,
        Err(e) => {
            return Err(failure(Stage::FindBase, &e));
        },
    };
    match checkout(repo, base) {
        Ok(()) => {},
        Err(e) => {
            return Err(e);
        },
    }
    let commit = match engine::find_commit(repo, tip.as_str()) {
        Ok(c) => c,
        Err(e) => {
            return Err(failure(Stage::FindBase, &e));
        },
    };
    match engine::create_branch(repo, branch, &commit, false) {
        Ok(()) => {},
        Err(e) => {
            return Err(failure(Stage::CreateBranch, &e));
        },
    }
    checkout(repo, branch)
}

/// Starts the branch `short_name` of `category` and returns its qualified
/// name.
///
/// Without a request nothing is asked of the engine, and the error is the one
/// for which there is no request. With one, the result is the qualified name
/// or an error of the engine.
pub fn start(
    repo: &git2::Repository,
    config: &WorkflowConfig,
    category: BranchCategory,
    short_name: &str,
    base_override: Option<&str>,
) -> (r: Result<String, FlowError>)
    ensures
        match start_request_of(*config, category, short_name@, opt_text(base_override)) {
            Err(f) => r matches Err(e) && e@ == f,
            Ok((branch, base)) => match r {
                Ok(name) => name@ == branch,
                Err(e) => possible(Stage::FindBase, e@) || possible(Stage::CreateBranch, e@)
                    || possible(Stage::Checkout, e@) || possible(Stage::FindBranch, e@),
            },
        },
{
    let request = match start_request(config, category, short_name, base_override) {
        Ok(q) => q,
        Err(e) => {
            return Err(e);
        },
    };
    match create_checkout_branch(repo, request.branch.as_str(), request.base.as_str()) {
        Ok(()) => Ok(request.branch),
        Err(e) => Err(e),
    }
}

} // verus!
