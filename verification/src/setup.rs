//! Setting a repository up for the workflow, and reading its settings back.

use vstd::prelude::*;
use vstd::string::*;
use crate::branch::local_ref;
use crate::category::BranchCategory;
use crate::config::{
    integration_key, stable_key, version_tag_key, StoredSettings, WorkflowConfig,
};
use crate::engine;
use crate::error::{texts, FlowError, Stage};
use crate::lifecycle::{failure, possible};
use crate::merge::{perform_commit, CommitRequest};
use crate::start::create_checkout_branch;

verus! {

/// The message of the commit that an initialization makes.
pub open spec fn initial_message_text() -> Seq<char> {
    "Initial commit"@
}

/// The commit that gives a new repository its first history: what the index
/// holds, without parents, on the branch that the head names.
pub fn initial_commit_request(tree: String) -> (r: CommitRequest)
    ensures
        r.update_ref@ == "HEAD"@,
        r.message@ == initial_message_text(),
        r.tree == tree,
        r.parents@.len() == 0,
{
    CommitRequest {
        update_ref: String::from_str("HEAD"),
        message: String::from_str("Initial commit"),
        tree,
        parents: Vec::new(),
    }
}

/// Gives the repository its first commit, on the branch `stable`.
pub fn create_initial_commit(repo: &git2::Repository, stable: &str) -> (r: Result<
    String,
    FlowError,
>)
    ensures
        r matches Err(e) ==> e@ is EngineError,
{
    let stable_ref = local_ref(stable);
    match engine::set_head(repo, stable_ref.as_str()) {
        Ok(()) => {},
        Err(e) => {
            return Err(failure(Stage::Work, &e));
        },
    }
    let mut index = match engine::index(repo) {
        Ok(i) => i,
        Err(e) => {
            return Err(failure(Stage::Work, &e));
        },
    };
    let tree = match engine::write_tree(&mut index) {
        Ok(t) => t,
        Err(e) => {
            return Err(failure(Stage::Work, &e));
        },
    };
    let request = initial_commit_request(tree);
    perform_commit(repo, &request)
}

/// Persists the entries `entries[from..to]` in their order, and stops at the
/// first that the engine refuses. Where the range is empty the engine is not
/// asked, and nothing can fail.
fn persist(
    store: &mut git2::Config,
    entries: &Vec<(String, String)>,
    from: usize,
    to: usize,
) -> (r: Result<(), FlowError>)
    requires
        from <= to <= entries@.len(),
    ensures
        from == to ==> r is Ok,
        r matches Err(e) ==> e@ is EngineError,
{
    let mut i: usize = from;
    while i < to
        invariant
            from <= i <= to <= entries@.len(),
        decreases to - i,
    {
        match engine::config_set_str(store, entries[i].0.as_str(), entries[i].1.as_str()) {
            Ok(()) => {},
            Err(e) => {
                return Err(failure(Stage::Work, &e));
            },
        }
        i += 1;
    }
    Ok(())
}

/// Sets a new repository up for the workflow: a first commit on the stable
/// branch, the integration branch created from it and checked out, and the
/// standard settings persisted. Returns the settings.
///
/// The stable branch's name is persisted once its commit exists, the other
/// settings once the integration branch exists; a failure leaves what was
/// done before it.
pub fn init(repo: &git2::Repository) -> (r: Result<StoredSettings, FlowError>)
    ensures
        r matches Ok(s) ==> s.is_standard() && s.names_two_lines(),
        r matches Err(e) ==> possible(Stage::FindBase, e@) || possible(Stage::CreateBranch, e@)
            || possible(Stage::Checkout, e@) || possible(Stage::FindBranch, e@),
{
    let settings = StoredSettings::standard();
    let entries = settings.entries();
    let (stable, integration) = match (&settings.stable, &settings.integration) {
        (Some(s), Some(d)) => (s.clone(), d.clone()),
        _ => {
            return Err(FlowError::ConfigMissing);
        },
    };
    let mut store = match engine::config(repo) {
        Ok(c) => c,
        Err(e) => {
            return Err(failure(Stage::Work, &e));
        },
    };
    match create_initial_commit(repo, stable.as_str()) {
        Ok(_) => {},
        Err(e) => {
            return Err(e);
        },
    }
    let first: usize = if entries.len() > 0 {
        1
    } else {
        0
    };
    match persist(&mut store, &entries, 0, first) {
        Ok(()) => {},
        Err(e) => {
            return Err(e);
        },
    }
    match create_checkout_branch(repo, integration.as_str(), stable.as_str()) {
        Ok(()) => {},
        Err(e) => {
            return Err(e);
        },
    }
    match persist(&mut store, &entries, first, entries.len()) {
        Ok(()) => Ok(settings),
        Err(e) => Err(e),
    }
}

/// The value stored under `key`, if the engine yields one.
fn stored(store: &git2::Config, key: &str) -> (r: Option<String>) {
    match engine::config_get_string(store, key) {
        Ok(v) => Some(v),
        Err(_) => None,
    }
}

/// Reads the workflow settings that the repository's configuration holds. A
/// setting that the engine does not yield is absent.
pub fn load_settings(repo: &git2::Repository) -> (r: Result<StoredSettings, FlowError>)
    ensures
        r matches Err(e) ==> e@ is EngineError,
{
    let store = match engine::config(repo) {
        Ok(c) => c,
        Err(e) => {
            return Err(failure(Stage::Work, &e));
        },
    };
    Ok(
        StoredSettings {
            stable: stored(&store, stable_key()),
            integration: stored(&store, integration_key()),
            feature: stored(&store, BranchCategory::Feature.prefix_key().as_str()),
            release: stored(&store, BranchCategory::Release.prefix_key().as_str()),
            hotfix: stored(&store, BranchCategory::Hotfix.prefix_key().as_str()),
            bugfix: stored(&store, BranchCategory::Bugfix.prefix_key().as_str()),
            support: stored(&store, BranchCategory::Support.prefix_key().as_str()),
            version_tag: stored(&store, version_tag_key()),
        },
    )
}

/// Reads and validates the workflow's configuration.
pub fn load_config(repo: &git2::Repository) -> (r: Result<WorkflowConfig, FlowError>)
    ensures
        r matches Ok(c) ==> c.valid(),
        r matches Err(e) ==> e@ is EngineError || e@ is ConfigMissing,
{
    match load_settings(repo) {
        Ok(s) => WorkflowConfig::load(s),
        Err(e) => Err(e),
    }
}

/// The lines that report the repository's workflow settings.
pub fn show_config(repo: &git2::Repository) -> (r: Result<Vec<String>, FlowError>)
    ensures
        r matches Ok(lines) ==> exists|s: StoredSettings|
            texts(lines@) == #[trigger] s.report(),
        r matches Err(e) ==> e@ is EngineError,
{
    match load_settings(repo) {
        Ok(s) => Ok(s.describe()),
        Err(e) => Err(e),
    }
}

} // verus!
