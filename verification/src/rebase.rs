//! Rebasing a branch onto the integration branch, commit by commit.

use vstd::prelude::*;
use crate::branch::local_ref;
use crate::config::WorkflowConfig;
use crate::engine;
use crate::error::{FlowError, Stage};
use crate::lifecycle::{failure, possible};

verus! {

/// How a rebase went: how many commits it set out to apply, and how many of
/// them it applied and committed before it stopped.
#[derive(Clone, Copy, Debug, PartialEq, Eq, Structural)]
pub struct RebaseReport {
    pub planned: usize,
    pub applied: usize,
}

impl RebaseReport {
    /// Every commit was applied.
    pub open spec fn complete(self) -> bool {
        self.applied == self.planned
    }
}

/// Applies the operations of a rebase one by one and commits each, until
/// none is left or one cannot be applied. Returns how many were committed.
/// Where nothing is planned the engine is not asked, and nothing is applied.
fn apply_all(
    rebase: &mut git2::Rebase<'_>,
    committer: &git2::Signature<'_>,
    planned: usize,
) -> (r: Result<usize, FlowError>)
    ensures
        planned == 0 ==> r == Ok::<usize, FlowError>(0),
        r matches Ok(applied) ==> applied <= planned,
        r matches Err(e) ==> e@ is EngineError,
{
    let mut applied: usize = 0;
    while applied < planned
        invariant
            applied <= planned,
        decreases planned - applied,
    {
        match engine::rebase_next(rebase) {
            Some(Ok(())) => {},
            _ => {
                return Ok(applied);
            },
        }
        match engine::rebase_commit(rebase, committer) {
            Ok(_) => {},
            Err(e) => {
                return Err(failure(Stage::Work, &e));
            },
        }
        applied += 1;
    }
    Ok(applied)
}

/// Rebases the local branch `branch` onto the integration branch, commit by
/// commit, committing each as the author of the commit at the head.
///
/// The rebase is finished also where an operation could not be applied; the
/// report then counts fewer commits applied than planned.
pub fn rebase(repo: &git2::Repository, config: &WorkflowConfig, branch: &str) -> (r: Result<
    RebaseReport,
    FlowError,
>)
    ensures
        r matches Ok(report) ==> report.applied <= report.planned,
        r matches Err(e) ==> possible(Stage::FindBranch, e@) || possible(Stage::FindBase, e@),
{
    let head = match engine::head(repo) {
        Ok(h) => h,
        Err(e) => {
            return Err(failure(Stage::FindBranch, &e));
        },
    };
    let head_tip = match engine::reference_target(&head) {
        Some(t) => t,
        None => {
            return Err(FlowError::BranchNotFound);
        },
    };
    let tip = match engine::find_commit(repo, head_tip.as_str()) {
        Ok(c) => c,
        Err(e) => {
            return Err(failure(Stage::Work, &e));
        },
    };
    let committer = engine::commit_author(&tip);
    let branch_ref = match engine::find_reference(repo, local_ref(branch).as_str()) {
        Ok(f) => f,
        Err(e) => {
            return Err(failure(Stage::FindBranch, &e));
        },
    };
    let ours = match engine::reference_to_annotated_commit(repo, &branch_ref) {
        Ok(a) => a,
        Err(e) => {
            return Err(failure(Stage::Work, &e));
        },
    };
    let base_ref = match engine::find_reference(
        repo,
        local_ref(config.integration.as_str()).as_str(),
    ) {
        Ok(f) => f,
        Err(e) => {
            return Err(failure(Stage::FindBase, &e));
        },
    };
    let upstream = match engine::reference_to_annotated_commit(repo, &base_ref) {
        Ok(a) => a,
        Err(e) => {
            return Err(failure(Stage::Work, &e));
        },
    };
    let mut running = match engine::start_rebase(repo, &ours, &upstream) {
        Ok(b) => b,
        Err(e) => {
            return Err(failure(Stage::Work, &e));
        },
    };
    let planned = engine::rebase_len(&running);
    let applied = match apply_all(&mut running, &committer, planned) {
        Ok(n) => n,
        Err(e) => {
            return Err(e);
        },
    };
    match engine::rebase_finish(&mut running) {
        Ok(()) => Ok(RebaseReport { planned, applied }),
        Err(e) => Err(failure(Stage::Work, &e)),
    }
}

} // verus!
