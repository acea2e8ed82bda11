//! The branch model: how a category and a short name make a qualified branch
//! name, and which branch a new branch starts from.

use vstd::prelude::*;
use vstd::string::*;
use crate::category::BranchCategory;
use crate::config::WorkflowConfig;
use crate::error::{Failure, FlowError};
use crate::text::join2;

verus! {

/// The mathematical value of a result that carries a name.
pub open spec fn named(r: Result<String, FlowError>) -> Result<Seq<char>, Failure> {
    match r {
        Ok(s) => Ok(s@),
        Err(e) => Err(e@),
    }
}

/// The characters of an optional name.
pub open spec fn opt_text(v: Option<&str>) -> Option<Seq<char>> {
    match v {
        Some(s) => Some(s@),
        None => None,
    }
}

/// The qualified name of the branch `short` of `category`: the category's
/// configured prefix followed by the short name. Without a configured prefix
/// there is no such name.
pub open spec fn qualified(config: WorkflowConfig, category: BranchCategory, short: Seq<char>)
    -> Result<Seq<char>, Failure> {
    match config.prefix(category) {
        Some(p) => Ok(p + short),
        None => Err(Failure::ConfigMissing),
    }
}

/// The branch that a new branch of `category` starts from: the one that the
/// caller supplies for a category whose base is the caller's choice, the
/// integration branch for every other.
pub open spec fn base_of(
    config: WorkflowConfig,
    category: BranchCategory,
    supplied: Option<Seq<char>>,
) -> Result<Seq<char>, Failure> {
    if category.caller_based() {
        match supplied {
            Some(b) => Ok(b),
            None => Err(Failure::MissingArgument),
        }
    } else {
        Ok(config.integration@)
    }
}

/// The base of a `start`: an explicit override wins over the category's own
/// base.
pub open spec fn start_base_of(
    config: WorkflowConfig,
    category: BranchCategory,
    base_override: Option<Seq<char>>,
) -> Result<Seq<char>, Failure> {
    match base_override {
        Some(b) => Ok(b),
        None => base_of(config, category, None),
    }
}

/// The full reference path of a local branch.
pub open spec fn local_ref_text(branch: Seq<char>) -> Seq<char> {
    "refs/heads/"@ + branch
}

/// The qualified name of the branch `short_name` of `category`.
pub fn resolve(config: &WorkflowConfig, category: BranchCategory, short_name: &str) -> (r: Result<
    String,
    FlowError,
>)
    ensures
        named(r) == qualified(*config, category, short_name@),
{
    match config.prefix_of(category) {
        Some(p) => Ok(join2(p.as_str(), short_name)),
        None => Err(FlowError::ConfigMissing),
    }
}

/// The branch that a new branch of `category` starts from.
pub fn base_branch_for(
    config: &WorkflowConfig,
    category: BranchCategory,
    caller_supplied_base: Option<&str>,
) -> (r: Result<String, FlowError>)
    ensures
        named(r) == base_of(*config, category, opt_text(caller_supplied_base)),
{
    if category.needs_base() {
        match caller_supplied_base {
            Some(b) => Ok(String::from_str(b)),
            None => Err(FlowError::MissingArgument),
        }
    } else {
        Ok(config.integration.clone())
    }
}

/// The branch that a start begins at: the override, or the category's base.
pub fn start_base(
    config: &WorkflowConfig,
    category: BranchCategory,
    base_override: Option<&str>,
) -> (r: Result<String, FlowError>)
    ensures
        named(r) == start_base_of(*config, category, opt_text(base_override)),
{
    match base_override {
        Some(b) => Ok(String::from_str(b)),
        None => base_branch_for(config, category, None),
    }
}

/// The full reference path of the local branch `branch`.
pub fn local_ref(branch: &str) -> (r: String)
    ensures
        r@ == local_ref_text(branch@),
{
    join2("refs/heads/", branch)
}

/// Resolving yields the category's prefix followed by the short name, and
/// resolving the same inputs again yields the same name.
pub proof fn resolve_is_prefix_then_name(
    config: WorkflowConfig,
    category: BranchCategory,
    short: Seq<char>,
    first: Result<String, FlowError>,
    second: Result<String, FlowError>,
)
    requires
        !(category is Support),
        named(first) == qualified(config, category, short),
        named(second) == qualified(config, category, short),
    ensures
        named(second) == named(first),
        config.prefix(category) matches Some(p) ==> first matches Ok(a) && a@ == p + short,
{
}

} // verus!
