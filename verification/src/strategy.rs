//! The merge strategist: which strategy a merge takes, what a merge can come
//! to, and the messages proposed for it.

use vstd::prelude::*;
use vstd::string::*;
use crate::config::WorkflowConfig;
use crate::error::{texts, Failure, FlowError};
use crate::text::join2;

verus! {

/// How a merge moves the target branch.
#[derive(Clone, Copy, Debug, PartialEq, Eq, Structural)]
pub enum MergeStrategy {
    /// The target's reference moves to the source's tip; no commit is made.
    FastForward,
    /// A merge commit joins the two tips.
    ThreeWay,
}

/// Whether a merge may move the target without a commit of its own.
#[derive(Clone, Copy, Debug, PartialEq, Eq, Structural)]
pub enum MergePolicy {
    AllowFastForward,
    /// The merge is recorded by a commit even where moving the reference
    /// would do.
    AlwaysCommit,
}

/// What the engine's merge analysis reports of a source against a target.
#[derive(Clone, Copy, Debug, PartialEq, Eq, Structural)]
pub struct Analysis {
    /// The target already holds everything the source has.
    pub up_to_date: bool,
    /// The target is a strict ancestor of the source.
    pub fast_forward: bool,
    /// The two have diverged, or a merge is otherwise possible.
    pub normal: bool,
    /// The target has no history yet.
    pub unborn: bool,
}

/// The strategy for a merge, or none where nothing is to be merged.
///
/// Under `AlwaysCommit` every merge is three-way. Otherwise the target is
/// fast-forwarded where the analysis allows it, merged three-way where the
/// analysis reports an ordinary merge, and left alone in any other case.
pub open spec fn chosen(policy: MergePolicy, analysis: Analysis) -> Option<MergeStrategy> {
    match policy {
        MergePolicy::AlwaysCommit => Some(MergeStrategy::ThreeWay),
        MergePolicy::AllowFastForward => if analysis.fast_forward {
            Some(MergeStrategy::FastForward)
        } else if analysis.normal {
            Some(MergeStrategy::ThreeWay)
        } else {
            None
        },
    }
}

/// The strategy for a merge under `policy`, given the engine's analysis.
pub fn decide(policy: MergePolicy, analysis: Analysis) -> (r: Option<MergeStrategy>)
    ensures
        r == chosen(policy, analysis),
{
    match policy {
        MergePolicy::AlwaysCommit => Some(MergeStrategy::ThreeWay),
        MergePolicy::AllowFastForward => if analysis.fast_forward {
            Some(MergeStrategy::FastForward)
        } else if analysis.normal {
            Some(MergeStrategy::ThreeWay)
        } else {
            None
        },
    }
}

/// What a merge did.
#[derive(Clone, Debug, PartialEq, Eq)]
pub enum MergeOutcome {
    /// The target now points at this commit, which existed before.
    FastForwarded(String),
    /// This new commit joins the two tips.
    Merged(String),
    /// These paths are in conflict; no commit was made.
    Conflicted(Vec<String>),
    UpToDate,
}

/// The mathematical value of a [`MergeOutcome`].
pub enum Outcome {
    FastForwarded(Seq<char>),
    Merged(Seq<char>),
    Conflicted(Seq<Seq<char>>),
    UpToDate,
}

impl View for MergeOutcome {
    type V = Outcome;

    open spec fn view(&self) -> Outcome {
        match self {
            MergeOutcome::FastForwarded(tip) => Outcome::FastForwarded(tip@),
            MergeOutcome::Merged(id) => Outcome::Merged(id@),
            MergeOutcome::Conflicted(paths) => Outcome::Conflicted(texts(paths@)),
            MergeOutcome::UpToDate => Outcome::UpToDate,
        }
    }
}

impl Outcome {
    /// The merge made a commit.
    pub open spec fn made_commit(self) -> bool {
        self is Merged
    }

    /// The commit at which the target stands after the merge, where the merge
    /// moved it.
    pub open spec fn new_tip(self) -> Option<Seq<char>> {
        match self {
            Outcome::FastForwarded(tip) => Some(tip),
            Outcome::Merged(id) => Some(id),
            _ => None,
        }
    }

    /// A finish goes on after this outcome; a conflict halts it.
    pub open spec fn proceeds(self) -> bool {
        !(self is Conflicted)
    }
}

/// What a finish makes of a merge's outcome: a conflict is the error that
/// halts it, carrying the conflicting paths; any other outcome lets it go on.
pub open spec fn settled(outcome: Outcome) -> Result<Outcome, Failure> {
    match outcome {
        Outcome::Conflicted(paths) => Err(Failure::MergeConflict(paths)),
        _ => Ok(outcome),
    }
}

/// The mathematical value of a settled merge.
pub open spec fn settled_view(r: Result<MergeOutcome, FlowError>) -> Result<Outcome, Failure> {
    match r {
        Ok(o) => Ok(o@),
        Err(e) => Err(e@),
    }
}

impl MergeOutcome {
    /// Whether the merge made a commit.
    pub fn creates_commit(&self) -> (r: bool)
        ensures
            r == self@.made_commit(),
    {
        match self {
            MergeOutcome::Merged(_) => true,
            _ => false,
        }
    }

    /// What a finish makes of this outcome: a conflict halts it.
    pub fn settle(self) -> (r: Result<MergeOutcome, FlowError>)
        ensures
            settled_view(r) == settled(self@),
    {
        match self {
            MergeOutcome::Conflicted(paths) => Err(FlowError::MergeConflict(paths)),
            other => Ok(other),
        }
    }
}

/// The message proposed for a merge of `source` into `target`.
pub open spec fn proposed_message(config: WorkflowConfig, target: Seq<char>, source: Seq<char>)
    -> Seq<char> {
    if target == config.stable@ {
        "Bump to version "@
    } else if target == config.integration@ {
        "Develop from version "@
    } else {
        "Merge "@ + source + " to "@ + target
    }
}

/// The message proposed for a merge of `source` into `target`.
pub fn default_message(config: &WorkflowConfig, target: &str, source: &str) -> (r: String)
    ensures
        r@ == proposed_message(*config, target@, source@),
{
    let t = String::from_str(target);
    if t == config.stable {
        String::from_str("Bump to version ")
    } else if t == config.integration {
        String::from_str("Develop from version ")
    } else {
        let mut out = join2("Merge ", source);
        out.append(" to ");
        out.append(target);
        out
    }
}

/// The message that records a merge of a fetched tip into the local one.
pub open spec fn tracking_message_text(remote_tip: Seq<char>, local_tip: Seq<char>) -> Seq<char> {
    "Merge: "@ + remote_tip + " into "@ + local_tip
}

/// The message that records a merge of a fetched tip into the local one.
pub fn tracking_message(remote_tip: &str, local_tip: &str) -> (r: String)
    ensures
        r@ == tracking_message_text(remote_tip@, local_tip@),
{
    let mut out = join2("Merge: ", remote_tip);
    out.append(" into ");
    out.append(local_tip);
    out
}

/// The reflog entry of a fast-forward of `reference` to `tip`.
pub open spec fn fast_forward_note_text(reference: Seq<char>, tip: Seq<char>) -> Seq<char> {
    "Fast-Forward: Setting "@ + reference + " to id: "@ + tip
}

/// The reflog entry of a fast-forward of `reference` to `tip`.
pub fn fast_forward_note(reference: &str, tip: &str) -> (r: String)
    ensures
        r@ == fast_forward_note_text(reference@, tip@),
{
    let mut out = join2("Fast-Forward: Setting ", reference);
    out.append(" to id: ");
    out.append(tip);
    out
}

/// Where the target is strictly behind the source and a fast-forward is
/// allowed, the merge is a fast-forward, and a fast-forward makes no commit
/// and leaves the target at the source's tip.
pub proof fn fast_forward_makes_no_commit(analysis: Analysis, source_tip: Seq<char>)
    requires
        analysis.fast_forward,
    ensures
        chosen(MergePolicy::AllowFastForward, analysis) == Some(MergeStrategy::FastForward),
        !Outcome::FastForwarded(source_tip).made_commit(),
        Outcome::FastForwarded(source_tip).new_tip() == Some(source_tip),
        settled(Outcome::FastForwarded(source_tip)) is Ok,
{
}

/// A merge that must be recorded is three-way whatever the analysis reports.
pub proof fn recorded_merge_is_three_way(analysis: Analysis)
    ensures
        chosen(MergePolicy::AlwaysCommit, analysis) == Some(MergeStrategy::ThreeWay),
{
}

/// A conflict halts, with the very paths that were in conflict; nothing else
/// does.
pub proof fn only_conflict_halts(outcome: Outcome)
    ensures
        settled(outcome) is Err <==> outcome is Conflicted,
        outcome matches Outcome::Conflicted(paths) ==> settled(outcome) == Err::<
            Outcome,
            Failure,
        >(Failure::MergeConflict(paths)),
        !(outcome is Conflicted) ==> settled(outcome) == Ok::<Outcome, Failure>(outcome),
{
}

} // verus!
