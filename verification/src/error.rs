//! The errors of the workflow, and how an engine failure becomes one.

use vstd::prelude::*;
use vstd::string::*;
use crate::text::join2;

verus! {

/// The characters of each string of a list.
pub open spec fn texts(v: Seq<String>) -> Seq<Seq<char>> {
    v.map_values(|s: String| s@)
}

/// Why a workflow operation did not complete.
#[derive(Clone, Debug, PartialEq, Eq)]
pub enum FlowError {
    /// A workflow setting that the operation needs was never persisted.
    ConfigMissing,
    BranchAlreadyExists,
    BranchNotFound,
    BaseBranchNotFound,
    MissingArgument,
    TagAlreadyExists,
    EmptyTagName,
    AuthenticationFailed,
    RemoteNotFound,
    NonFastForwardRejected,
    /// Uncommitted changes would be overwritten by a checkout.
    DirtyWorkingTree,
    /// A three-way merge left these paths in conflict.
    MergeConflict(Vec<String>),
    /// Any other failure of the version-control engine, with its message.
    EngineError(String),
}

/// The mathematical value of a [`FlowError`].
pub enum Failure {
    ConfigMissing,
    BranchAlreadyExists,
    BranchNotFound,
    BaseBranchNotFound,
    MissingArgument,
    TagAlreadyExists,
    EmptyTagName,
    AuthenticationFailed,
    RemoteNotFound,
    NonFastForwardRejected,
    DirtyWorkingTree,
    MergeConflict(Seq<Seq<char>>),
    EngineError(Seq<char>),
}

impl View for FlowError {
    type V = Failure;

    open spec fn view(&self) -> Failure {
        match self {
            FlowError::ConfigMissing => Failure::ConfigMissing,
            FlowError::BranchAlreadyExists => Failure::BranchAlreadyExists,
            FlowError::BranchNotFound => Failure::BranchNotFound,
            FlowError::BaseBranchNotFound => Failure::BaseBranchNotFound,
            FlowError::MissingArgument => Failure::MissingArgument,
            FlowError::TagAlreadyExists => Failure::TagAlreadyExists,
            FlowError::EmptyTagName => Failure::EmptyTagName,
            FlowError::AuthenticationFailed => Failure::AuthenticationFailed,
            FlowError::RemoteNotFound => Failure::RemoteNotFound,
            FlowError::NonFastForwardRejected => Failure::NonFastForwardRejected,
            FlowError::DirtyWorkingTree => Failure::DirtyWorkingTree,
            FlowError::MergeConflict(paths) => Failure::MergeConflict(texts(paths@)),
            FlowError::EngineError(cause) => Failure::EngineError(cause@),
        }
    }
}

/// The kinds of engine failure that the workflow tells apart.
#[derive(Clone, Copy, Debug, PartialEq, Eq, Structural)]
pub enum EngineFault {
    NotFound,
    Exists,
    UnbornBranch,
    NotFastForward,
    Conflict,
    Auth,
    Other,
}

/// What the workflow was asking of the engine when the engine failed.
#[derive(Clone, Copy, Debug, PartialEq, Eq, Structural)]
pub enum Stage {
    /// Looking up the branch that the operation is about.
    FindBranch,
    /// Looking up the branch that a new branch starts from.
    FindBase,
    CreateBranch,
    Checkout,
    CreateTag,
    FindRemote,
    /// Sending to or receiving from a remote.
    Transfer,
    /// Any other step.
    Work,
}

/// The workflow error that stands for an engine failure of kind `fault`, met
/// at `stage`, whose message was `message`.
pub open spec fn classified(stage: Stage, fault: EngineFault, message: Seq<char>) -> Failure {
    match (stage, fault) {
        (Stage::FindBranch, EngineFault::NotFound) => Failure::BranchNotFound,
        (Stage::FindBranch, EngineFault::UnbornBranch) => Failure::BranchNotFound,
        (Stage::FindBase, EngineFault::NotFound) => Failure::BaseBranchNotFound,
        (Stage::FindBase, EngineFault::UnbornBranch) => Failure::BaseBranchNotFound,
        (Stage::CreateBranch, EngineFault::Exists) => Failure::BranchAlreadyExists,
        (Stage::Checkout, EngineFault::Conflict) => Failure::DirtyWorkingTree,
        (Stage::CreateTag, EngineFault::Exists) => Failure::TagAlreadyExists,
        (Stage::FindRemote, EngineFault::NotFound) => Failure::RemoteNotFound,
        (Stage::Transfer, EngineFault::Auth) => Failure::AuthenticationFailed,
        (Stage::Transfer, EngineFault::NotFastForward) => Failure::NonFastForwardRejected,
        _ => Failure::EngineError(message),
    }
}

/// Turns an engine failure into the workflow's own error.
pub fn classify(stage: Stage, fault: EngineFault, message: String) -> (r: FlowError)
    ensures
        r@ == classified(stage, fault, message@),
{
    match (stage, fault) {
        (Stage::FindBranch, EngineFault::NotFound) => FlowError::BranchNotFound,
        (Stage::FindBranch, EngineFault::UnbornBranch) => FlowError::BranchNotFound,
        (Stage::FindBase, EngineFault::NotFound) => FlowError::BaseBranchNotFound,
        (Stage::FindBase, EngineFault::UnbornBranch) => FlowError::BaseBranchNotFound,
        (Stage::CreateBranch, EngineFault::Exists) => FlowError::BranchAlreadyExists,
        (Stage::Checkout, EngineFault::Conflict) => FlowError::DirtyWorkingTree,
        (Stage::CreateTag, EngineFault::Exists) => FlowError::TagAlreadyExists,
        (Stage::FindRemote, EngineFault::NotFound) => FlowError::RemoteNotFound,
        (Stage::Transfer, EngineFault::Auth) => FlowError::AuthenticationFailed,
        (Stage::Transfer, EngineFault::NotFastForward) => FlowError::NonFastForwardRejected,
        _ => FlowError::EngineError(message),
    }
}

/// The sentence shown to the operator for an error, without its payload.
pub open spec fn headline(f: Failure) -> Seq<char> {
    match f {
        Failure::ConfigMissing => "workflow is not configured"@,
        Failure::BranchAlreadyExists => "branch already exists"@,
        Failure::BranchNotFound => "branch not found"@,
        Failure::BaseBranchNotFound => "base branch not found"@,
        Failure::MissingArgument => "missing argument"@,
        Failure::TagAlreadyExists => "tag already exists"@,
        Failure::EmptyTagName => "tag name is empty"@,
        Failure::AuthenticationFailed => "authentication failed"@,
        Failure::RemoteNotFound => "remote not found"@,
        Failure::NonFastForwardRejected => "push rejected: not a fast-forward"@,
        Failure::DirtyWorkingTree => "uncommitted changes would be overwritten"@,
        Failure::MergeConflict(_) => "merge conflict"@,
        Failure::EngineError(_) => "engine error: "@,
    }
}

/// The text shown to the operator for an error: its headline, followed for an
/// engine error by the engine's message.
pub open spec fn message_of(f: Failure) -> Seq<char> {
    match f {
        Failure::EngineError(cause) => headline(f) + cause,
        _ => headline(f),
    }
}

impl FlowError {
    /// The text shown to the operator for this error.
    pub fn message(&self) -> (r: String)
        ensures
            r@ == message_of(self@),
    {
        match self {
            FlowError::ConfigMissing => String::from_str("workflow is not configured"),
            FlowError::BranchAlreadyExists => String::from_str("branch already exists"),
            FlowError::BranchNotFound => String::from_str("branch not found"),
            FlowError::BaseBranchNotFound => String::from_str("base branch not found"),
            FlowError::MissingArgument => String::from_str("missing argument"),
            FlowError::TagAlreadyExists => String::from_str("tag already exists"),
            FlowError::EmptyTagName => String::from_str("tag name is empty"),
            FlowError::AuthenticationFailed => String::from_str("authentication failed"),
            FlowError::RemoteNotFound => String::from_str("remote not found"),
            FlowError::NonFastForwardRejected => String::from_str(
                "push rejected: not a fast-forward",
            ),
            FlowError::DirtyWorkingTree => String::from_str(
                "uncommitted changes would be overwritten",
            ),
            FlowError::MergeConflict(_) => String::from_str("merge conflict"),
            FlowError::EngineError(cause) => join2("engine error: ", cause.as_str()),
        }
    }
}

} // verus!
