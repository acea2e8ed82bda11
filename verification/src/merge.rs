//! Merging one branch into another: by moving the reference, or by a commit
//! that joins the two tips.

use vstd::prelude::*;
use vstd::string::*;
use crate::branch::local_ref;
use crate::config::WorkflowConfig;
use crate::engine;
use crate::engine::ConflictEntry;
use crate::error::{texts, FlowError, Stage};
use crate::lifecycle::{checkout, failure, possible, tip_of};
use crate::operator::{commit_message_path, Operator};
use crate::strategy::{
    chosen, decide, default_message, Analysis, MergeOutcome, MergePolicy, MergeStrategy, Outcome,
};
use crate::text::{lossy_text, text_of_bytes};

verus! {

/// The path by which a conflict is reported: ours where we have the file,
/// else theirs, else the common ancestor's.
pub open spec fn reported_path(entry: ConflictEntry) -> Option<Vec<u8>> {
    if entry.ours is Some {
        entry.ours
    } else if entry.theirs is Some {
        entry.theirs
    } else {
        entry.ancestor
    }
}

/// The path by which a conflict is reported, if any side has one.
pub fn conflict_path(entry: &ConflictEntry) -> (r: Option<&Vec<u8>>)
    ensures
        match r {
            Some(p) => reported_path(*entry) == Some(*p),
            None => reported_path(*entry) is None,
        },
{
    if entry.ours.is_some() {
        entry.ours.as_ref()
    } else if entry.theirs.is_some() {
        entry.theirs.as_ref()
    } else {
        entry.ancestor.as_ref()
    }
}

/// The paths that are reported for the conflicts `entries`: for each conflict
/// that has a path, in their order, that path read as text.
pub open spec fn reported(entries: Seq<ConflictEntry>) -> Seq<Seq<char>>
    decreases entries.len(),
{
    if entries.len() == 0 {
        Seq::empty()
    } else {
        let before = reported(entries.drop_last());
        match reported_path(entries.last()) {
            Some(p) => before.push(lossy_text(p@)),
            None => before,
        }
    }
}

/// The paths that are reported for the conflicts `entries`.
pub fn conflict_report(entries: &Vec<ConflictEntry>) -> (r: Vec<String>)
    ensures
        texts(r@) == reported(entries@),
{
    let mut paths: Vec<String> = Vec::new();
    let mut i: usize = 0;
    assert(entries@.take(0) =~= Seq::<ConflictEntry>::empty());
    assert(texts(paths@) =~= reported(entries@.take(0)));
    while i < entries.len()
        invariant
            i <= entries.len(),
            texts(paths@) == reported(entries@.take(i as int)),
        decreases entries.len() - i,
    {
        proof {
            let upto = entries@.take(i + 1);
            assert(upto.drop_last() =~= entries@.take(i as int));
            assert(upto.last() == entries@[i as int]);
        }
        match conflict_path(&entries[i]) {
            Some(p) => {
                let text = text_of_bytes(p.as_slice());
                assert(texts(paths@.push(text)) =~= texts(paths@).push(text@));
                paths.push(text);
            },
            None => {},
        }
        i += 1;
    }
    assert(entries@.take(i as int) =~= entries@);
    paths
}

/// The conflicts that a merged index holds, in the engine's order.
fn conflict_paths(index: &git2::Index) -> (r: Result<Vec<ConflictEntry>, FlowError>)
    ensures
        r matches Err(e) ==> e@ is EngineError,
{
    let mut conflicts = match engine::index_conflicts(index) {
        Ok(c) => c,
        Err(e) => {
            return Err(failure(Stage::Work, &e));
        },
    };
    let mut entries: Vec<ConflictEntry> = Vec::new();
    let mut left: usize = engine::index_len(index);
    while left > 0
        decreases left,
    {
        match engine::next_conflict(&mut conflicts) {
            None => {
                return Ok(entries);
            },
            Some(Err(e)) => {
                return Err(failure(Stage::Work, &e));
            },
            Some(Ok(entry)) => {
                entries.push(entry);
            },
        }
        left -= 1;
    }
    Ok(entries)
}

/// Moves the branch `our_branch` to the commit `their_tip`. The working tree
/// is left as it is: the caller checks the branch out afterwards.
pub fn fast_forward(repo: &git2::Repository, our_branch: &str, their_tip: &str) -> (r: Result<
    MergeOutcome,
    FlowError,
>)
    ensures
        r matches Ok(o) ==> o@ == Outcome::FastForwarded(their_tip@),
        r matches Err(e) ==> possible(Stage::FindBranch, e@),
{
    let refname = local_ref(our_branch);
    let mut reference = match engine::find_reference(repo, refname.as_str()) {
        Ok(f) => f,
        Err(e) => {
            return Err(failure(Stage::FindBranch, &e));
        },
    };
    match engine::set_target(&mut reference, their_tip, "fastforward merging") {
        Ok(()) => Ok(MergeOutcome::FastForwarded(String::from_str(their_tip))),
        Err(e) => Err(failure(Stage::Work, &e)),
    }
}

/// Merges the branch `their_branch` into the branch `our_branch` by way of
/// their common ancestor.
///
/// Where paths conflict, the conflicted index is written to the working tree,
/// no commit is made, and the paths are returned. Otherwise `message` is
/// presented for editing and one commit is made on `our_branch`, with the two
/// tips as its parents, ours first.
pub fn three_way<O: Operator>(
    repo: &git2::Repository,
    our_branch: &str,
    their_branch: &str,
    message: &str,
    operator: &mut O,
) -> (r: Result<MergeOutcome, FlowError>)
    ensures
        r matches Ok(o) ==> o@ is Merged || (o@ matches Outcome::Conflicted(paths) && paths.len()
            > 0),
        r matches Err(e) ==> possible(Stage::FindBranch, e@),
{
    let our_tip = match tip_of(repo, our_branch) {
        Ok(t) => t,
        Err(e) => {
            return Err(e);
        },
    };
    let their_tip = match tip_of(repo, their_branch) {
        Ok(t) => t,
        Err(e) => {
            return Err(e);
        },
    };
    three_way_tips(repo, our_branch, our_tip.as_str(), their_tip.as_str(), message, operator)
}

/// The tree of the commit `id`.
pub(crate) fn tree_of<'r>(repo: &'r git2::Repository, id: &str) -> (r: Result<
    git2::Tree<'r>,
    FlowError,
>)
    ensures
        r matches Err(e) ==> e@ is EngineError,
{
    let commit = match engine::find_commit(repo, id) {
        Ok(c) => c,
        Err(e) => {
            return Err(failure(Stage::Work, &e));
        },
    };
    match engine::commit_tree(&commit) {
        Ok(t) => Ok(t),
        Err(e) => Err(failure(Stage::Work, &e)),
    }
}

/// What a merge of two trees by way of their common ancestor gave.
#[derive(Clone, Debug, PartialEq, Eq)]
pub enum MergedTree {
    /// The id of the merged tree.
    Clean(String),
    /// The paths in conflict, of which there is at least one.
    Conflicted(Vec<String>),
}

/// What becomes of a merged index that holds the conflicts `entries`.
///
/// Where a path is reported for any of them, the merge ends as a conflict
/// with exactly the reported paths, and the conflicted index is written to
/// the working tree. Only where none is reported is the merged tree written.
pub(crate) fn merge_collected(
    repo: &git2::Repository,
    index: &mut git2::Index,
    entries: &Vec<ConflictEntry>,
) -> (r: Result<MergedTree, FlowError>)
    ensures
        r matches Ok(MergedTree::Conflicted(paths)) ==> texts(paths@) == reported(entries@)
            && paths@.len() > 0,
        r matches Ok(MergedTree::Clean(_)) ==> reported(entries@).len() == 0,
        r matches Err(e) ==> e@ is EngineError,
{
    let paths = conflict_report(entries);
    assert(texts(paths@).len() == paths@.len());
    if paths.len() > 0 {
        match engine::checkout_index(repo, index) {
            Ok(()) => Ok(MergedTree::Conflicted(paths)),
            Err(e) => Err(failure(Stage::Work, &e)),
        }
    } else {
        match engine::write_tree_to(index, repo) {
            Ok(t) => Ok(MergedTree::Clean(t)),
            Err(e) => Err(failure(Stage::Work, &e)),
        }
    }
}

/// Merges the trees of the commits `our_tip` and `their_tip` by way of the
/// tree of their merge base. Where paths conflict, the conflicted index is
/// written to the working tree.
pub(crate) fn merge_index(repo: &git2::Repository, our_tip: &str, their_tip: &str) -> (r: Result<
    MergedTree,
    FlowError,
>)
    ensures
        r matches Ok(MergedTree::Conflicted(paths)) ==> paths@.len() > 0,
        r matches Err(e) ==> e@ is EngineError,
{
    let base = match engine::merge_base(repo, our_tip, their_tip) {
        Ok(b) => b,
        Err(e) => {
            return Err(failure(Stage::Work, &e));
        },
    };
    let base_tree = match tree_of(repo, base.as_str()) {
        Ok(t) => t,
        Err(e) => {
            return Err(e);
        },
    };
    let our_tree = match tree_of(repo, our_tip) {
        Ok(t) => t,
        Err(e) => {
            return Err(e);
        },
    };
    let their_tree = match tree_of(repo, their_tip) {
        Ok(t) => t,
        Err(e) => {
            return Err(e);
        },
    };
    let mut merged = match engine::merge_trees(repo, &base_tree, &our_tree, &their_tree) {
        Ok(i) => i,
        Err(e) => {
            return Err(failure(Stage::Work, &e));
        },
    };
    let entries = match conflict_paths(&merged) {
        Ok(found) => found,
        Err(e) => {
            return Err(e);
        },
    };
    merge_collected(repo, &mut merged, &entries)
}

/// The three-way merge of the commit `their_tip` into `our_branch`, which
/// stands at the commit `our_tip`.
fn three_way_tips<O: Operator>(
    repo: &git2::Repository,
    our_branch: &str,
    our_tip: &str,
    their_tip: &str,
    message: &str,
    operator: &mut O,
) -> (r: Result<MergeOutcome, FlowError>)
    ensures
        r matches Ok(o) ==> o@ is Merged || (o@ matches Outcome::Conflicted(paths) && paths.len()
            > 0),
        r matches Err(e) ==> e@ is EngineError,
{
    let tree_id = match merge_index(repo, our_tip, their_tip) {
        Ok(MergedTree::Clean(t)) => t,
        Ok(MergedTree::Conflicted(paths)) => {
            assert(texts(paths@).len() == paths@.len());
            return Ok(MergeOutcome::Conflicted(paths));
        },
        Err(e) => {
            return Err(e);
        },
    };
    let text = operator.edit_message(commit_message_path(), message);
    let request = merge_commit_request(
        local_ref(our_branch).as_str(),
        our_tip,
        their_tip,
        tree_id,
        text,
    );
    let made = match perform_commit(repo, &request) {
        Ok(id) => id,
        Err(e) => {
            return Err(e);
        },
    };
    match engine::cleanup_state(repo) {
        Ok(()) => Ok(MergeOutcome::Merged(made)),
        Err(e) => Err(failure(Stage::Work, &e)),
    }
}

/// What is asked of the engine to record a commit: the reference that is
/// moved to it, its message, its tree and its parents in their order.
#[derive(Clone, Debug, PartialEq, Eq)]
pub struct CommitRequest {
    pub update_ref: String,
    pub message: String,
    pub tree: String,
    pub parents: Vec<String>,
}

/// The commit that records a merge: it moves the reference `update_ref`, and
/// its parents are exactly the two tips from before the merge, ours first.
pub fn merge_commit_request(
    update_ref: &str,
    our_tip: &str,
    their_tip: &str,
    tree: String,
    message: String,
) -> (r: CommitRequest)
    ensures
        r.update_ref@ == update_ref@,
        r.message == message,
        r.tree == tree,
        texts(r.parents@) == seq![our_tip@, their_tip@],
{
    let mut parents: Vec<String> = Vec::new();
    parents.push(String::from_str(our_tip));
    parents.push(String::from_str(their_tip));
    assert(texts(parents@) =~= seq![our_tip@, their_tip@]);
    CommitRequest { update_ref: String::from_str(update_ref), message, tree, parents }
}

/// Has the engine record the commit that `request` describes, signed with the
/// configured identity, and returns the new commit's id.
pub(crate) fn perform_commit(repo: &git2::Repository, request: &CommitRequest) -> (r: Result<
    String,
    FlowError,
>)
    ensures
        r matches Err(e) ==> e@ is EngineError,
{
    let tree = match engine::find_tree(repo, request.tree.as_str()) {
        Ok(t) => t,
        Err(e) => {
            return Err(failure(Stage::Work, &e));
        },
    };
    let mut parents: Vec<git2::Commit<'_>> = Vec::new();
    let mut i: usize = 0;
    while i < request.parents.len()
        invariant
            i <= request.parents.len(),
            parents@.len() == i,
        decreases request.parents.len() - i,
    {
        match engine::find_commit(repo, request.parents[i].as_str()) {
            Ok(c) => {
                parents.push(c);
            },
            Err(e) => {
                return Err(failure(Stage::Work, &e));
            },
        }
        i += 1;
    }
    let who = match engine::signature(repo) {
        Ok(s) => s,
        Err(e) => {
            return Err(failure(Stage::Work, &e));
        },
    };
    match engine::commit(
        repo,
        Some(request.update_ref.as_str()),
        &who,
        request.message.as_str(),
        &tree,
        &parents,
    ) {
        Ok(id) => Ok(id),
        Err(e) => Err(failure(Stage::Work, &e)),
    }
}

/// Merges the branch `source` into the branch `target` as `policy` and the
/// engine's analysis of the two decide, and then checks `target` out.
pub fn merge_branch<O: Operator>(
    repo: &git2::Repository,
    config: &WorkflowConfig,
    target: &str,
    source: &str,
    policy: MergePolicy,
    operator: &mut O,
) -> (r: Result<MergeOutcome, FlowError>)
    ensures
        r matches Ok(o) ==> (o@ matches Outcome::Conflicted(paths) ==> paths.len() > 0),
        r matches Ok(o) ==> (policy == MergePolicy::AlwaysCommit ==> o@ is Merged
            || o@ is Conflicted),
        r matches Err(e) ==> possible(Stage::FindBranch, e@) || possible(Stage::Checkout, e@),
{
    let target_ref = local_ref(target);
    let ours = match engine::find_reference(repo, target_ref.as_str()) {
        Ok(f) => f,
        Err(e) => {
            return Err(failure(Stage::FindBranch, &e));
        },
    };
    let target_tip = match engine::reference_target(&ours) {
        Some(t) => t,
        None => {
            return Err(FlowError::BranchNotFound);
        },
    };
    let source_tip = match tip_of(repo, source) {
        Ok(t) => t,
        Err(e) => {
            return Err(e);
        },
    };
    let theirs = match engine::find_annotated_commit(repo, source_tip.as_str()) {
        Ok(a) => a,
        Err(e) => {
            return Err(failure(Stage::Work, &e));
        },
    };
    let analysis = match engine::merge_analysis_for_ref(repo, &ours, &theirs) {
        Ok(a) => a,
        Err(e) => {
            return Err(failure(Stage::Work, &e));
        },
    };
    merge_analyzed(
        repo,
        config,
        target,
        target_tip.as_str(),
        source,
        source_tip.as_str(),
        policy,
        analysis,
        operator,
    )
}

/// What a merge of `source` into `target` returns once it succeeds, given
/// what the engine's analysis reported: nothing to do, a fast-forward to the
/// source's tip, or a three-way merge that made a commit or met conflicts.
pub open spec fn merge_result_fits(
    policy: MergePolicy,
    analysis: Analysis,
    source_tip: Seq<char>,
    outcome: Outcome,
) -> bool {
    match chosen(policy, analysis) {
        None => outcome == Outcome::UpToDate,
        Some(MergeStrategy::FastForward) => outcome == Outcome::FastForwarded(source_tip),
        Some(MergeStrategy::ThreeWay) => outcome is Merged || (outcome matches Outcome::Conflicted(
            paths,
        ) && paths.len() > 0),
    }
}

/// Merges the branch `source`, which stands at `source_tip`, into the branch
/// `target`, which stands at `target_tip`, given the engine's analysis of the
/// two. Unless paths conflict, `target` is checked out afterwards.
pub fn merge_analyzed<O: Operator>(
    repo: &git2::Repository,
    config: &WorkflowConfig,
    target: &str,
    target_tip: &str,
    source: &str,
    source_tip: &str,
    policy: MergePolicy,
    analysis: Analysis,
    operator: &mut O,
) -> (r: Result<MergeOutcome, FlowError>)
    ensures
        r matches Ok(o) ==> merge_result_fits(policy, analysis, source_tip@, o@),
        r matches Err(e) ==> possible(Stage::FindBranch, e@) || possible(Stage::Checkout, e@),
{
    let outcome = match decide(policy, analysis) {
        None => MergeOutcome::UpToDate,
        Some(MergeStrategy::FastForward) => match fast_forward(repo, target, source_tip) {
            Ok(o) => o,
            Err(e) => {
                return Err(e);
            },
        },
        Some(MergeStrategy::ThreeWay) => {
            let message = default_message(config, target, source);
            match three_way_tips(repo, target, target_tip, source_tip, message.as_str(), operator) {
                Ok(o) => o,
                Err(e) => {
                    return Err(e);
                },
            }
        },
    };
    match outcome {
        MergeOutcome::Conflicted(_) => Ok(outcome),
        _ => match checkout(repo, target) {
            Ok(()) => Ok(outcome),
            Err(e) => Err(e),
        },
    }
}

} // verus!
