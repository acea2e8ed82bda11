//! The version-control engine: its types, carried through as opaque values,
//! and the calls that the workflow makes into it. Nothing here is proved; each
//! item says which function of the engine it stands for.

use vstd::prelude::*;
use crate::error::EngineFault;
use crate::patch::PatchLog;
use crate::strategy::Analysis;

verus! {

/// `git2::Repository`, as an opaque value.
#[verifier::external_type_specification]
#[verifier::external_body]
pub struct ExRepository(git2::Repository);

/// `git2::Error`, as an opaque value.
#[verifier::external_type_specification]
#[verifier::external_body]
pub struct ExEngineError(git2::Error);

/// `git2::Object`, as an opaque value.
#[verifier::external_type_specification]
#[verifier::external_body]
pub struct ExObject<'r>(git2::Object<'r>);

/// `git2::Commit`, as an opaque value.
#[verifier::external_type_specification]
#[verifier::external_body]
pub struct ExCommit<'r>(git2::Commit<'r>);

/// `git2::Tree`, as an opaque value.
#[verifier::external_type_specification]
#[verifier::external_body]
pub struct ExTree<'r>(git2::Tree<'r>);

/// `git2::Reference`, as an opaque value.
#[verifier::external_type_specification]
#[verifier::external_body]
pub struct ExReference<'r>(git2::Reference<'r>);

/// `git2::AnnotatedCommit`, as an opaque value.
#[verifier::external_type_specification]
#[verifier::external_body]
pub struct ExAnnotatedCommit<'r>(git2::AnnotatedCommit<'r>);

/// `git2::Signature`, as an opaque value.
#[verifier::external_type_specification]
#[verifier::external_body]
pub struct ExSignature<'a>(git2::Signature<'a>);

/// `git2::Index`, as an opaque value.
#[verifier::external_type_specification]
#[verifier::external_body]
pub struct ExIndex(git2::Index);

/// `git2::IndexConflicts`, as an opaque value.
#[verifier::external_type_specification]
#[verifier::external_body]
pub struct ExIndexConflicts<'i>(git2::IndexConflicts<'i>);

/// `git2::IndexConflict`, the item that `IndexConflicts` yields, as an opaque
/// value.
#[verifier::external_type_specification]
#[verifier::external_body]
pub struct ExIndexConflict(git2::IndexConflict);

/// `git2::RebaseOperation`, the item that `Rebase` yields, as an opaque
/// value.
#[verifier::external_type_specification]
#[verifier::external_body]
pub struct ExRebaseOperation<'r>(git2::RebaseOperation<'r>);

/// `git2::Branch`, as an opaque value.
#[verifier::external_type_specification]
#[verifier::external_body]
pub struct ExBranch<'r>(git2::Branch<'r>);

/// `git2::Config`, as an opaque value.
#[verifier::external_type_specification]
#[verifier::external_body]
pub struct ExConfig(git2::Config);

/// `git2::Diff`, as an opaque value.
#[verifier::external_type_specification]
#[verifier::external_body]
pub struct ExDiff<'r>(git2::Diff<'r>);

/// `git2::Rebase`, as an opaque value.
#[verifier::external_type_specification]
#[verifier::external_body]
pub struct ExRebase<'r>(git2::Rebase<'r>);

/// `git2::build::CheckoutBuilder`, as an opaque value.
#[verifier::external_type_specification]
#[verifier::external_body]
pub struct ExCheckoutBuilder<'cb>(git2::build::CheckoutBuilder<'cb>);

/// The paths of one conflict of a merged index, as far as each side has one,
/// as the bytes that the index holds.
#[derive(Clone, Debug, PartialEq, Eq)]
pub struct ConflictEntry {
    pub ancestor: Option<Vec<u8>>,
    pub ours: Option<Vec<u8>>,
    pub theirs: Option<Vec<u8>>,
}

/// `git2::Error::code`, with every code that the workflow does not tell apart
/// given as `Other`. Nothing is claimed of the result.
#[verifier::external_body]
pub(crate) fn fault_of(e: &git2::Error) -> (r: EngineFault) {
    match e.code() {
        git2::ErrorCode::NotFound => EngineFault::NotFound,
        git2::ErrorCode::Exists => EngineFault::Exists,
        git2::ErrorCode::UnbornBranch => EngineFault::UnbornBranch,
        git2::ErrorCode::NotFastForward => EngineFault::NotFastForward,
        git2::ErrorCode::Conflict => EngineFault::Conflict,
        git2::ErrorCode::Auth => EngineFault::Auth,
        _ => EngineFault::Other,
    }
}

/// `git2::Error::message`. Nothing is claimed of the result.
#[verifier::external_body]
pub(crate) fn error_text(e: &git2::Error) -> (r: String) {
    e.message().to_string()
}

/// `Repository::refname_to_id`, the id written in hexadecimal. Nothing is
/// claimed of the result.
#[verifier::external_body]
pub(crate) fn refname_to_id(repo: &git2::Repository, name: &str) -> (r: Result<
    String,
    git2::Error,
>) {
    repo.refname_to_id(name).map(|id| id.to_string())
}

/// `Repository::find_commit`, of the commit whose id is `id` in hexadecimal.
/// Nothing is claimed of the result.
#[verifier::external_body]
pub(crate) fn find_commit<'r>(repo: &'r git2::Repository, id: &str) -> (r: Result<
    git2::Commit<'r>,
    git2::Error,
>) {
    repo.find_commit(git2::Oid::from_str(id)?)
}

/// `Commit::tree`. Nothing is claimed of the result.
#[verifier::external_body]
pub(crate) fn commit_tree<'r>(commit: &git2::Commit<'r>) -> (r: Result<
    git2::Tree<'r>,
    git2::Error,
>) {
    commit.tree()
}

/// `Commit::author`. Nothing is claimed of the result.
#[verifier::external_body]
pub(crate) fn commit_author<'c>(commit: &'c git2::Commit<'_>) -> (r: git2::Signature<'c>) {
    commit.author()
}

/// `Repository::find_tree`. Nothing is claimed of the result.
#[verifier::external_body]
pub(crate) fn find_tree<'r>(repo: &'r git2::Repository, id: &str) -> (r: Result<
    git2::Tree<'r>,
    git2::Error,
>) {
    repo.find_tree(git2::Oid::from_str(id)?)
}

/// `Repository::find_object`, of any kind of object. Nothing is claimed of
/// the result.
#[verifier::external_body]
pub(crate) fn find_object<'r>(repo: &'r git2::Repository, id: &str) -> (r: Result<
    git2::Object<'r>,
    git2::Error,
>) {
    repo.find_object(git2::Oid::from_str(id)?, None)
}

/// `Repository::merge_base`. Nothing is claimed of the result.
#[verifier::external_body]
pub(crate) fn merge_base(repo: &git2::Repository, one: &str, two: &str) -> (r: Result<
    String,
    git2::Error,
>) {
    let base = repo.merge_base(git2::Oid::from_str(one)?, git2::Oid::from_str(two)?)?;
    Ok(base.to_string())
}

/// `Repository::merge_trees`, with the engine's default options. Nothing is
/// claimed of the result.
#[verifier::external_body]
pub(crate) fn merge_trees(
    repo: &git2::Repository,
    ancestor: &git2::Tree<'_>,
    ours: &git2::Tree<'_>,
    theirs: &git2::Tree<'_>,
) -> (r: Result<git2::Index, git2::Error>) {
    repo.merge_trees(ancestor, ours, theirs, None)
}

/// `Index::len`. Nothing is claimed of the result.
#[verifier::external_body]
pub(crate) fn index_len(index: &git2::Index) -> (r: usize) {
    index.len()
}

/// `Index::conflicts`. Nothing is claimed of the result.
#[verifier::external_body]
pub(crate) fn index_conflicts<'i>(index: &'i git2::Index) -> (r: Result<
    git2::IndexConflicts<'i>,
    git2::Error,
>) {
    index.conflicts()
}

/// `IndexConflicts::next`, with the path of each side's entry. Nothing is
/// claimed of the result.
#[verifier::external_body]
pub(crate) fn next_conflict(conflicts: &mut git2::IndexConflicts<'_>) -> (r: Option<
    Result<ConflictEntry, git2::Error>,
>) {
    match conflicts.next()? {
        Ok(c) => Some(Ok(ConflictEntry {
            ancestor: c.ancestor.map(|e| e.path),
            ours: c.our.map(|e| e.path),
            theirs: c.their.map(|e| e.path),
        })),
        Err(e) => Some(Err(e)),
    }
}

/// `Repository::checkout_index`, of the given index with the engine's default
/// options. Nothing is claimed of the result.
#[verifier::external_body]
pub(crate) fn checkout_index(repo: &git2::Repository, index: &mut git2::Index) -> (r: Result<
    (),
    git2::Error,
>) {
    repo.checkout_index(Some(index), None)
}

/// `Index::write_tree_to`. Nothing is claimed of the result.
#[verifier::external_body]
pub(crate) fn write_tree_to(index: &mut git2::Index, repo: &git2::Repository) -> (r: Result<
    String,
    git2::Error,
>) {
    index.write_tree_to(repo).map(|id| id.to_string())
}

/// `Repository::index`. Nothing is claimed of the result.
#[verifier::external_body]
pub(crate) fn index(repo: &git2::Repository) -> (r: Result<git2::Index, git2::Error>) {
    repo.index()
}

/// `Index::write_tree`. Nothing is claimed of the result.
#[verifier::external_body]
pub(crate) fn write_tree(index: &mut git2::Index) -> (r: Result<String, git2::Error>) {
    index.write_tree().map(|id| id.to_string())
}

/// `Repository::signature`. Nothing is claimed of the result.
#[verifier::external_body]
pub(crate) fn signature(repo: &git2::Repository) -> (r: Result<
    git2::Signature<'static>,
    git2::Error,
>) {
    repo.signature()
}

/// `Repository::commit`, with one signature as author and committer and the
/// commits of `parents`, in their order, as parents. Nothing is claimed of
/// the result.
#[verifier::external_body]
pub(crate) fn commit(
    repo: &git2::Repository,
    update_ref: Option<&str>,
    who: &git2::Signature<'_>,
    message: &str,
    tree: &git2::Tree<'_>,
    parents: &Vec<git2::Commit<'_>>,
) -> (r: Result<String, git2::Error>) {
    let parents: Vec<&git2::Commit<'_>> = parents.iter().collect();
    repo.commit(update_ref, who, who, message, tree, &parents).map(|id| id.to_string())
}

/// `Repository::cleanup_state`. Nothing is claimed of the result.
#[verifier::external_body]
pub(crate) fn cleanup_state(repo: &git2::Repository) -> (r: Result<(), git2::Error>) {
    repo.cleanup_state()
}

/// `Repository::find_reference`. Nothing is claimed of the result.
#[verifier::external_body]
pub(crate) fn find_reference<'r>(repo: &'r git2::Repository, name: &str) -> (r: Result<
    git2::Reference<'r>,
    git2::Error,
>) {
    repo.find_reference(name)
}

/// `Repository::reference`, which creates a direct reference and, with
/// `force`, replaces one of that name. Nothing is claimed of the result.
#[verifier::external_body]
pub(crate) fn create_reference(
    repo: &git2::Repository,
    name: &str,
    id: &str,
    force: bool,
    note: &str,
) -> (r: Result<(), git2::Error>) {
    repo.reference(name, git2::Oid::from_str(id)?, force, note).map(|_| ())
}

/// `Reference::set_target`. Nothing is claimed of the result.
#[verifier::external_body]
pub(crate) fn set_target(reference: &mut git2::Reference<'_>, id: &str, note: &str) -> (r: Result<
    (),
    git2::Error,
>) {
    reference.set_target(git2::Oid::from_str(id)?, note).map(|_| ())
}

/// `Reference::target`, in hexadecimal. Nothing is claimed of the result.
#[verifier::external_body]
pub(crate) fn reference_target(reference: &git2::Reference<'_>) -> (r: Option<String>) {
    reference.target().map(|id| id.to_string())
}

/// `Reference::name`. Nothing is claimed of the result.
#[verifier::external_body]
pub(crate) fn reference_name(reference: &git2::Reference<'_>) -> (r: Option<String>) {
    reference.name().map(|n| n.to_string())
}

/// `Repository::head`. Nothing is claimed of the result.
#[verifier::external_body]
pub(crate) fn head<'r>(repo: &'r git2::Repository) -> (r: Result<
    git2::Reference<'r>,
    git2::Error,
>) {
    repo.head()
}

/// `Repository::set_head`. Nothing is claimed of the result.
#[verifier::external_body]
pub(crate) fn set_head(repo: &git2::Repository, refname: &str) -> (r: Result<(), git2::Error>) {
    repo.set_head(refname)
}

/// `CheckoutBuilder::new`: the options of a checkout that overwrites nothing
/// that is uncommitted. Nothing is claimed of the result.
#[verifier::external_body]
pub(crate) fn checkout_options<'cb>() -> (r: git2::build::CheckoutBuilder<'cb>) {
    git2::build::CheckoutBuilder::new()
}

/// `CheckoutBuilder::force`. Nothing is claimed of the options.
#[verifier::external_body]
pub(crate) fn options_force(options: &mut git2::build::CheckoutBuilder<'_>) {
    options.force();
}

/// `CheckoutBuilder::allow_conflicts`. Nothing is claimed of the options.
#[verifier::external_body]
pub(crate) fn options_allow_conflicts(options: &mut git2::build::CheckoutBuilder<'_>, allow: bool) {
    options.allow_conflicts(allow);
}

/// `CheckoutBuilder::conflict_style_merge`. Nothing is claimed of the
/// options.
#[verifier::external_body]
pub(crate) fn options_conflict_style_merge(
    options: &mut git2::build::CheckoutBuilder<'_>,
    on: bool,
) {
    options.conflict_style_merge(on);
}

/// `Repository::checkout_head`, with the given options. Nothing is claimed of
/// the result.
#[verifier::external_body]
pub(crate) fn checkout_head(
    repo: &git2::Repository,
    options: &mut git2::build::CheckoutBuilder<'_>,
) -> (r: Result<(), git2::Error>) {
    repo.checkout_head(Some(options))
}

/// `Repository::revparse_single`. Nothing is claimed of the result.
#[verifier::external_body]
pub(crate) fn revparse_single<'r>(repo: &'r git2::Repository, spec: &str) -> (r: Result<
    git2::Object<'r>,
    git2::Error,
>) {
    repo.revparse_single(spec)
}

/// `Object::peel`, to a tree. Nothing is claimed of the result.
#[verifier::external_body]
pub(crate) fn peel_to_tree<'r>(object: &git2::Object<'r>) -> (r: Result<
    git2::Object<'r>,
    git2::Error,
>) {
    object.peel(git2::ObjectType::Tree)
}

/// `Object::into_tree`, which yields nothing for an object that is no tree.
/// Nothing is claimed of the result.
#[verifier::external_body]
pub(crate) fn into_tree<'r>(object: git2::Object<'r>) -> (r: Option<git2::Tree<'r>>) {
    object.into_tree().ok()
}

/// `Repository::checkout_tree`, with the engine's default options. Nothing is
/// claimed of the result.
#[verifier::external_body]
pub(crate) fn checkout_tree(repo: &git2::Repository, treeish: &git2::Object<'_>) -> (r: Result<
    (),
    git2::Error,
>) {
    repo.checkout_tree(treeish, None)
}

/// `Repository::branch`, which creates a local branch and, with `force`,
/// replaces one of that name. Nothing is claimed of the result.
#[verifier::external_body]
pub(crate) fn create_branch(
    repo: &git2::Repository,
    name: &str,
    target: &git2::Commit<'_>,
    force: bool,
) -> (r: Result<(), git2::Error>) {
    repo.branch(name, target, force).map(|_| ())
}

/// `Repository::find_branch`, among the local branches. Nothing is claimed of
/// the result.
#[verifier::external_body]
pub(crate) fn find_local_branch<'r>(repo: &'r git2::Repository, name: &str) -> (r: Result<
    git2::Branch<'r>,
    git2::Error,
>) {
    repo.find_branch(name, git2::BranchType::Local)
}

/// `Branch::delete`. Nothing is claimed of the result.
#[verifier::external_body]
pub(crate) fn delete_found_branch(branch: &mut git2::Branch<'_>) -> (r: Result<(), git2::Error>) {
    branch.delete()
}

/// `Repository::config`. Nothing is claimed of the result.
#[verifier::external_body]
pub(crate) fn config(repo: &git2::Repository) -> (r: Result<git2::Config, git2::Error>) {
    repo.config()
}

/// `Config::set_str`. Nothing is claimed of the result.
#[verifier::external_body]
pub(crate) fn config_set_str(config: &mut git2::Config, key: &str, value: &str) -> (r: Result<
    (),
    git2::Error,
>) {
    config.set_str(key, value)
}

/// `Config::get_string`. Nothing is claimed of the result.
#[verifier::external_body]
pub(crate) fn config_get_string(config: &git2::Config, key: &str) -> (r: Result<
    String,
    git2::Error,
>) {
    config.get_string(key)
}

/// `Repository::tag`, which creates an annotated tag and, with `force`,
/// replaces one of that name. Nothing is claimed of the result.
#[verifier::external_body]
pub(crate) fn create_tag(
    repo: &git2::Repository,
    name: &str,
    target: &git2::Object<'_>,
    tagger: &git2::Signature<'_>,
    message: &str,
    force: bool,
) -> (r: Result<String, git2::Error>) {
    repo.tag(name, target, tagger, message, force).map(|id| id.to_string())
}

/// `Repository::find_annotated_commit`. Nothing is claimed of the result.
#[verifier::external_body]
pub(crate) fn find_annotated_commit<'r>(repo: &'r git2::Repository, id: &str) -> (r: Result<
    git2::AnnotatedCommit<'r>,
    git2::Error,
>) {
    repo.find_annotated_commit(git2::Oid::from_str(id)?)
}

/// `Repository::reference_to_annotated_commit`. Nothing is claimed of the
/// result.
#[verifier::external_body]
pub(crate) fn reference_to_annotated_commit<'r>(
    repo: &'r git2::Repository,
    reference: &git2::Reference<'_>,
) -> (r: Result<git2::AnnotatedCommit<'r>, git2::Error>) {
    repo.reference_to_annotated_commit(reference)
}

/// `Repository::merge_analysis_for_ref`, of one commit against `ours`; the
/// engine's preference is dropped. Nothing is claimed of the result.
#[verifier::external_body]
pub(crate) fn merge_analysis_for_ref(
    repo: &git2::Repository,
    ours: &git2::Reference<'_>,
    theirs: &git2::AnnotatedCommit<'_>,
) -> (r: Result<Analysis, git2::Error>) {
    let (found, _) = repo.merge_analysis_for_ref(ours, &[theirs])?;
    Ok(
        Analysis {
            up_to_date: found.is_up_to_date(),
            fast_forward: found.is_fast_forward(),
            normal: found.is_normal(),
            unborn: found.is_unborn(),
        },
    )
}

/// `Repository::merge_analysis`, of one commit against the current head; the
/// engine's preference is dropped. Nothing is claimed of the result.
#[verifier::external_body]
pub(crate) fn merge_analysis(repo: &git2::Repository, theirs: &git2::AnnotatedCommit<'_>) -> (r:
    Result<Analysis, git2::Error>) {
    let (found, _) = repo.merge_analysis(&[theirs])?;
    Ok(
        Analysis {
            up_to_date: found.is_up_to_date(),
            fast_forward: found.is_fast_forward(),
            normal: found.is_normal(),
            unborn: found.is_unborn(),
        },
    )
}

/// `Repository::diff_tree_to_tree`, with the engine's default options.
/// Nothing is claimed of the result.
#[verifier::external_body]
pub(crate) fn diff_tree_to_tree<'r>(
    repo: &'r git2::Repository,
    old_tree: &git2::Tree<'_>,
    new_tree: &git2::Tree<'_>,
) -> (r: Result<git2::Diff<'r>, git2::Error>) {
    repo.diff_tree_to_tree(Some(old_tree), Some(new_tree), None)
}

/// `Diff::print`, in patch format; the origin and the content of every line
/// that the engine prints are handed to `log`. Nothing is claimed of the
/// result, nor of what the log then holds.
#[verifier::external_body]
pub(crate) fn print_patch(diff: &git2::Diff<'_>, log: &mut PatchLog) -> (r: Result<
    (),
    git2::Error,
>) {
    diff.print(
        git2::DiffFormat::Patch,
        |_delta, _hunk, line| {
            log.record(line.origin(), line.content());
            true
        },
    )
}

/// `Repository::rebase`, of `branch` onto `upstream` with the engine's
/// default options. Nothing is claimed of the result.
#[verifier::external_body]
pub(crate) fn start_rebase<'r>(
    repo: &'r git2::Repository,
    branch: &git2::AnnotatedCommit<'_>,
    upstream: &git2::AnnotatedCommit<'_>,
) -> (r: Result<git2::Rebase<'r>, git2::Error>) {
    repo.rebase(Some(branch), Some(upstream), None, None)
}

/// `Rebase::len`. Nothing is claimed of the result.
#[verifier::external_body]
pub(crate) fn rebase_len(rebase: &git2::Rebase<'_>) -> (r: usize) {
    rebase.len()
}

/// `Rebase::next`, which applies the next operation; what it applied is
/// dropped. Nothing is claimed of the result.
#[verifier::external_body]
pub(crate) fn rebase_next(rebase: &mut git2::Rebase<'_>) -> (r: Option<Result<(), git2::Error>>) {
    rebase.next().map(|step| step.map(|_| ()))
}

/// `Rebase::commit`, keeping the author and the message of the commit that
/// was applied. Nothing is claimed of the result.
#[verifier::external_body]
pub(crate) fn rebase_commit(rebase: &mut git2::Rebase<'_>, committer: &git2::Signature<'_>) -> (r:
    Result<String, git2::Error>) {
    rebase.commit(None, committer, None).map(|id| id.to_string())
}

/// `Rebase::finish`, without a signature. Nothing is claimed of the result.
#[verifier::external_body]
pub(crate) fn rebase_finish(rebase: &mut git2::Rebase<'_>) -> (r: Result<(), git2::Error>) {
    rebase.finish(None)
}

} // verus!
