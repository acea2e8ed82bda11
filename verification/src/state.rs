//! The life of a workflow branch: it does not exist, is started, and is then
//! finished or deleted. Only a start makes it exist again.

use vstd::prelude::*;
use crate::error::{Failure, FlowError};

verus! {

/// Where a branch stands in its life.
#[derive(Clone, Copy, Debug, PartialEq, Eq, Structural)]
pub enum BranchState {
    NonExistent,
    Started,
    Finished,
    Deleted,
}

/// What an operator asks of a branch.
#[derive(Clone, Copy, Debug, PartialEq, Eq, Structural)]
pub enum Transition {
    Start,
    Finish,
    Delete,
}

impl BranchState {
    /// The branch has a local reference.
    pub open spec fn exists_locally(self) -> bool {
        self is Started
    }

    /// The state after `transition`, or why the transition is refused: a
    /// branch that exists cannot be started, one that does not exist can be
    /// neither finished nor deleted.
    pub open spec fn after(self, transition: Transition) -> Result<BranchState, Failure> {
        match (self, transition) {
            (BranchState::Started, Transition::Start) => Err(Failure::BranchAlreadyExists),
            (_, Transition::Start) => Ok(BranchState::Started),
            (BranchState::Started, Transition::Finish) => Ok(BranchState::Finished),
            (BranchState::Started, Transition::Delete) => Ok(BranchState::Deleted),
            _ => Err(Failure::BranchNotFound),
        }
    }

    /// The state after each of `transitions` in turn; a refused transition
    /// leaves the state as it is.
    pub open spec fn after_all(self, transitions: Seq<Transition>) -> BranchState
        decreases transitions.len(),
    {
        if transitions.len() == 0 {
            self
        } else {
            let next = match self.after(transitions[0]) {
                Ok(s) => s,
                Err(_) => self,
            };
            next.after_all(transitions.drop_first())
        }
    }

    /// Whether the branch has a local reference.
    pub fn is_present(self) -> (r: bool)
        ensures
            r == self.exists_locally(),
    {
        match self {
            BranchState::Started => true,
            _ => false,
        }
    }

    /// Takes a transition, or refuses it.
    pub fn step(self, transition: Transition) -> (r: Result<BranchState, FlowError>)
        ensures
            match r {
                Ok(s) => self.after(transition) == Ok::<BranchState, Failure>(s),
                Err(e) => self.after(transition) == Err::<BranchState, Failure>(e@),
            },
    {
        match (self, transition) {
            (BranchState::Started, Transition::Start) => Err(FlowError::BranchAlreadyExists),
            (_, Transition::Start) => Ok(BranchState::Started),
            (BranchState::Started, Transition::Finish) => Ok(BranchState::Finished),
            (BranchState::Started, Transition::Delete) => Ok(BranchState::Deleted),
            _ => Err(FlowError::BranchNotFound),
        }
    }
}

/// A branch becomes started by a start alone: after it was finished or
/// deleted, nothing else brings it back.
pub proof fn only_start_starts(state: BranchState, transition: Transition)
    requires
        state.after(transition) == Ok::<BranchState, Failure>(BranchState::Started),
    ensures
        transition is Start,
        !state.exists_locally(),
{
}

/// A transition is taken exactly when a start meets no branch, or a finish or
/// a delete meets one; and the branch exists afterwards exactly when it was
/// started.
pub proof fn transitions_follow_presence(state: BranchState, transition: Transition)
    ensures
        state.after(transition) is Ok <==> (transition is Start) != state.exists_locally(),
        state.after(transition) matches Ok(next) ==> (next.exists_locally() <==> transition
            is Start),
{
}

/// Whatever is asked of a branch that was finished or deleted, it exists
/// again only if a start was among what was asked.
pub proof fn no_return_without_start(state: BranchState, transitions: Seq<Transition>)
    requires
        !state.exists_locally(),
        state.after_all(transitions).exists_locally(),
    ensures
        exists|i: int| 0 <= i < transitions.len() && transitions[i] is Start,
    decreases transitions.len(),
{
    if transitions.len() > 0 {
        let next = match state.after(transitions[0]) {
            Ok(s) => s,
            Err(_) => state,
        };
        if transitions[0] is Start {
            assert(transitions[0] is Start);
        } else {
            assert(!next.exists_locally());
            no_return_without_start(next, transitions.drop_first());
            let i = choose|i: int|
                0 <= i < transitions.drop_first().len() && transitions.drop_first()[i] is Start;
            assert(transitions[i + 1] is Start);
        }
    }
}

} // verus!
