//! The tag issuer: an annotated tag on the stable line's tip.

use vstd::prelude::*;
use vstd::string::*;
use crate::engine;
use crate::error::{FlowError, Stage};
use crate::lifecycle::{failure, possible, tip_of};
use crate::operator::{tag_message_path, Operator};
use crate::text::join2;

verus! {

/// The message proposed for the tag `name`.
pub open spec fn tag_proposal_text(name: Seq<char>) -> Seq<char> {
    "Release version "@ + name
}

/// What the operator is asked when a tag needs its name.
pub open spec fn tag_prompt_text() -> Seq<char> {
    "Input a tag name"@
}

/// The message proposed for the tag `name`.
pub fn tag_proposal(name: &str) -> (r: String)
    ensures
        r@ == tag_proposal_text(name@),
{
    join2("Release version ", name)
}

/// What the operator is asked when a tag needs its name.
pub fn tag_prompt() -> (r: &'static str)
    ensures
        r@ == tag_prompt_text(),
{
    "Input a tag name"
}

/// Creates the annotated tag `name` on the commit `tip`, after presenting the
/// proposed message for editing, and returns the tag's id.
///
/// An empty name is refused before the engine is asked anything; a name that
/// the engine already holds is refused by the engine.
pub fn tag_at<O: Operator>(repo: &git2::Repository, tip: &str, name: &str, operator: &mut O) -> (r:
    Result<String, FlowError>)
    ensures
        name@.len() == 0 <==> (r matches Err(e) && e@ is EmptyTagName),
        r matches Err(e) ==> e@ is EmptyTagName || possible(Stage::CreateTag, e@),
{
    if name.is_empty() {
        return Err(FlowError::EmptyTagName);
    }
    let target = match engine::find_object(repo, tip) {
        Ok(o) => o,
        Err(e) => {
            return Err(failure(Stage::Work, &e));
        },
    };
    let proposal = tag_proposal(name);
    let message = operator.edit_message(tag_message_path(), proposal.as_str());
    let who = match engine::signature(repo) {
        Ok(s) => s,
        Err(e) => {
            return Err(failure(Stage::Work, &e));
        },
    };
    match engine::create_tag(repo, name, &target, &who, message.as_str(), false) {
        Ok(id) => Ok(id),
        Err(e) => Err(failure(Stage::CreateTag, &e)),
    }
}

/// Tags the tip of `target_branch` under a name that the operator enters.
pub fn create_tag<O: Operator>(repo: &git2::Repository, target_branch: &str, operator: &mut O) -> (r:
    Result<String, FlowError>)
    ensures
        r matches Err(e) ==> e@ is EmptyTagName || possible(Stage::CreateTag, e@) || possible(
            Stage::FindBranch,
            e@,
        ),
{
    let tip = match tip_of(repo, target_branch) {
        Ok(t) => t,
        Err(e) => {
            return Err(e);
        },
    };
    let name = operator.input(tag_prompt());
    tag_at(repo, tip.as_str(), name.as_str(), operator)
}

} // verus!
