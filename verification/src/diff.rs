//! The patch between a category's base and a branch or the head.

use vstd::prelude::*;
use vstd::string::*;
use crate::engine;
use crate::error::{texts, FlowError, Stage};
use crate::lifecycle::{failure, possible};
use crate::patch::{lines_of, render_patch, shown_patch, PatchLine, PatchLog};

verus! {

/// A patch between two trees: its lines as the engine printed them, and the
/// same lines as they are shown.
#[derive(Clone, Debug, PartialEq, Eq)]
pub struct DiffReport {
    pub lines: Vec<PatchLine>,
    pub rendered: Vec<String>,
}

impl DiffReport {
    /// The report shows exactly its lines, coloured from line to line.
    pub open spec fn consistent(self) -> bool {
        texts(self.rendered@) == shown_patch(None, lines_of(self.lines@))
    }
}

/// The tree that the revision `name` leads to.
pub fn tree_to_treeish<'r>(repo: &'r git2::Repository, name: &str) -> (r: Result<
    git2::Tree<'r>,
    FlowError,
>)
    ensures
        r matches Err(e) ==> possible(Stage::FindBranch, e@),
{
    let object = match engine::revparse_single(repo, name) {
        Ok(o) => o,
        Err(e) => {
            return Err(failure(Stage::FindBranch, &e));
        },
    };
    let peeled = match engine::peel_to_tree(&object) {
        Ok(p) => p,
        Err(e) => {
            return Err(failure(Stage::Work, &e));
        },
    };
    match engine::into_tree(peeled) {
        Some(t) => Ok(t),
        None => Err(FlowError::EngineError(String::from_str("revision leads to no tree"))),
    }
}

/// The patch that leads from the tree of `base` to the tree of `target`, or
/// to that of the current head where no target is given.
pub fn diff(repo: &git2::Repository, base: &str, target: Option<&str>) -> (r: Result<
    DiffReport,
    FlowError,
>)
    ensures
        r matches Ok(report) ==> report.consistent(),
        r matches Err(e) ==> possible(Stage::FindBranch, e@),
{
    let old_tree = match tree_to_treeish(repo, base) {
        Ok(t) => t,
        Err(e) => {
            return Err(e);
        },
    };
    let new_tree = match target {
        Some(name) => match tree_to_treeish(repo, name) {
            Ok(t) => t,
            Err(e) => {
                return Err(e);
            },
        },
        None => {
            let head = match engine::head(repo) {
                Ok(h) => h,
                Err(e) => {
                    return Err(failure(Stage::FindBranch, &e));
                },
            };
            let name = match engine::reference_name(&head) {
                Some(n) => n,
                None => {
                    return Err(FlowError::BranchNotFound);
                },
            };
            match tree_to_treeish(repo, name.as_str()) {
                Ok(t) => t,
                Err(e) => {
                    return Err(e);
                },
            }
        },
    };
    let found = match engine::diff_tree_to_tree(repo, &old_tree, &new_tree) {
        Ok(d) => d,
        Err(e) => {
            return Err(failure(Stage::Work, &e));
        },
    };
    let mut log = PatchLog::new();
    match engine::print_patch(&found, &mut log) {
        Ok(()) => {},
        Err(e) => {
            return Err(failure(Stage::Work, &e));
        },
    }
    let rendered = render_patch(&log.lines);
    Ok(DiffReport { lines: log.lines, rendered })
}

} // verus!
