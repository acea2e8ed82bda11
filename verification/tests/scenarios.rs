use git_flow::category::BranchCategory;
use git_flow::config::WorkflowConfig;
use git_flow::diff::diff;
use git_flow::error::FlowError;
use git_flow::engine::ConflictEntry;
use git_flow::finish::{finish, run_plan, run_step, StepOutcome};
use git_flow::merge::{
    conflict_path, conflict_report, fast_forward, merge_analyzed, merge_branch,
    merge_commit_request, three_way,
};
use git_flow::plan::{FinishPlan, PlanStep};
use git_flow::lifecycle::{checkout, delete, head_is_on, refuge, tip_of};
use git_flow::remote::fetch_failure;
use git_flow::operator::Operator;
use git_flow::patch::PatchLine;
use git_flow::rebase::{rebase, RebaseReport};
use git_flow::setup::{
    create_initial_commit, init, initial_commit_request, load_config, load_settings, show_config,
};
use git_flow::start::{create_checkout_branch, start};
use git_flow::state::{BranchState, Transition};
use git_flow::strategy::{Analysis, MergeOutcome, MergePolicy};
use git_flow::tag::tag_at;
use git_flow::track::{creation_note, do_merge, track_analyzed};

struct Scripted {
    tag: String,
    edits: Vec<(String, String)>,
    prompts: Vec<String>,
}

impl Scripted {
    fn new(tag: &str) -> Scripted {
        Scripted { tag: tag.to_string(), edits: Vec::new(), prompts: Vec::new() }
    }
}

impl Operator for Scripted {
    fn edit_message(&mut self, path: &str, proposal: &str) -> String {
        self.edits.push((path.to_string(), proposal.to_string()));
        format!("{}edited", proposal)
    }

    fn input(&mut self, prompt: &str) -> String {
        self.prompts.push(prompt.to_string());
        self.tag.clone()
    }
}

fn fresh() -> (tempfile::TempDir, git2::Repository, WorkflowConfig) {
    let dir = tempfile::tempdir().unwrap();
    let repo = git2::Repository::init(dir.path()).unwrap();
    {
        let mut cfg = repo.config().unwrap();
        cfg.set_str("user.name", "Tester").unwrap();
        cfg.set_str("user.email", "tester@example.com").unwrap();
    }
    init(&repo).unwrap();
    let config = load_config(&repo).unwrap();
    (dir, repo, config)
}

fn commit_file(repo: &git2::Repository, name: &str, content: &str, message: &str) -> git2::Oid {
    let entry = git2::IndexEntry {
        ctime: git2::IndexTime::new(0, 0),
        mtime: git2::IndexTime::new(0, 0),
        dev: 0,
        ino: 0,
        mode: 0o100644,
        uid: 0,
        gid: 0,
        file_size: 0,
        id: git2::Oid::zero(),
        flags: 0,
        flags_extended: 0,
        path: name.as_bytes().to_vec(),
    };
    let mut index = repo.index().unwrap();
    index.add_frombuffer(&entry, content.as_bytes()).unwrap();
    index.write().unwrap();
    let tree = repo.find_tree(index.write_tree().unwrap()).unwrap();
    let sig = repo.signature().unwrap();
    let parent = repo.head().unwrap().peel_to_commit().unwrap();
    let id = repo.commit(Some("HEAD"), &sig, &sig, message, &tree, &[&parent]).unwrap();
    repo.checkout_head(Some(git2::build::CheckoutBuilder::new().force())).unwrap();
    id
}

fn tip(repo: &git2::Repository, branch: &str) -> git2::Oid {
    repo.refname_to_id(&format!("refs/heads/{}", branch)).unwrap()
}

fn has_branch(repo: &git2::Repository, branch: &str) -> bool {
    repo.find_branch(branch, git2::BranchType::Local).is_ok()
}

fn head_name(repo: &git2::Repository) -> String {
    repo.head().unwrap().name().unwrap().to_string()
}

#[test]
fn init_sets_up_both_lines_and_settings() {
    let (_dir, repo, config) = fresh();
    assert_eq!(config, WorkflowConfig::standard());
    assert!(has_branch(&repo, "master"));
    assert!(has_branch(&repo, "develop"));
    assert_eq!(tip(&repo, "master"), tip(&repo, "develop"));
    assert_eq!(head_name(&repo), "refs/heads/develop");
    let first = repo.find_commit(tip(&repo, "master")).unwrap();
    assert_eq!(first.parent_count(), 0);
    assert_eq!(first.message(), Some("Initial commit"));
    let cfg = repo.config().unwrap();
    assert_eq!(cfg.get_string("workflow.branch.master").unwrap(), "master");
    assert_eq!(cfg.get_string("workflow.branch.develop").unwrap(), "develop");
    assert_eq!(cfg.get_string("workflow.prefix.hotfix").unwrap(), "hotfix/");
    assert_eq!(cfg.get_string("workflow.prefix.versiontag").unwrap(), "");
    let lines = show_config(&repo).unwrap();
    assert_eq!(lines.len(), 8);
    assert_eq!(lines[0], "Branch name for production releases: master");
    assert_eq!(lines[3], "Bugfix branch prefix: bugfix/");
}

#[test]
fn load_config_of_plain_repository_is_missing() {
    let dir = tempfile::tempdir().unwrap();
    let repo = git2::Repository::init(dir.path()).unwrap();
    assert_eq!(load_config(&repo), Err(FlowError::ConfigMissing));
}

#[test]
fn start_then_delete_leaves_base_unchanged() {
    let (_dir, repo, config) = fresh();
    commit_file(&repo, "a.txt", "a\n", "work on develop");
    let before = tip(&repo, "develop");
    let name = start(&repo, &config, BranchCategory::Feature, "login", None).unwrap();
    assert_eq!(name, "feature/login");
    assert!(has_branch(&repo, "feature/login"));
    assert_eq!(tip(&repo, "feature/login"), before);
    assert_eq!(head_name(&repo), "refs/heads/feature/login");
    delete(&repo, &config, &name).unwrap();
    assert_eq!(head_name(&repo), "refs/heads/develop");
    assert!(!has_branch(&repo, "feature/login"));
    assert_eq!(tip(&repo, "develop"), before);
}

#[test]
fn start_twice_reports_existing_branch() {
    let (_dir, repo, config) = fresh();
    start(&repo, &config, BranchCategory::Bugfix, "crash", None).unwrap();
    assert_eq!(
        start(&repo, &config, BranchCategory::Bugfix, "crash", None),
        Err(FlowError::BranchAlreadyExists)
    );
}

#[test]
fn start_from_unknown_base_reports_it() {
    let (_dir, repo, config) = fresh();
    assert_eq!(
        start(&repo, &config, BranchCategory::Support, "1.x", Some("nowhere")),
        Err(FlowError::BaseBranchNotFound)
    );
    assert_eq!(
        start(&repo, &config, BranchCategory::Support, "1.x", None),
        Err(FlowError::MissingArgument)
    );
    assert_eq!(
        start(&repo, &config, BranchCategory::Support, "1.x", Some("master")).unwrap(),
        "support/1.x"
    );
}

#[test]
fn checkout_and_delete_of_unknown_branch_report_it() {
    let (_dir, repo, config) = fresh();
    assert_eq!(checkout(&repo, "feature/none"), Err(FlowError::BranchNotFound));
    assert_eq!(delete(&repo, &config, "feature/none"), Err(FlowError::BranchNotFound));
    assert_eq!(tip_of(&repo, "feature/none"), Err(FlowError::BranchNotFound));
}

#[test]
fn feature_finish_fast_forwards() {
    let (_dir, repo, config) = fresh();
    start(&repo, &config, BranchCategory::Feature, "login", None).unwrap();
    let work = commit_file(&repo, "login.txt", "login\n", "add login");
    let mut op = Scripted::new("unused");
    let done = finish(&repo, &config, BranchCategory::Feature, "login", &mut op).unwrap();
    assert_eq!(
        done,
        vec![
            StepOutcome::Merged(MergeOutcome::FastForwarded(work.to_string())),
            StepOutcome::Deleted
        ]
    );
    assert_eq!(tip(&repo, "develop"), work);
    assert_eq!(repo.find_commit(work).unwrap().parent_count(), 1);
    assert!(!has_branch(&repo, "feature/login"));
    assert_eq!(head_name(&repo), "refs/heads/develop");
    assert!(op.edits.is_empty());
    assert!(repo.workdir().unwrap().join("login.txt").exists());
}

#[test]
fn feature_finish_three_way_has_both_tips_as_parents() {
    let (_dir, repo, config) = fresh();
    start(&repo, &config, BranchCategory::Feature, "login", None).unwrap();
    let theirs = commit_file(&repo, "login.txt", "login\n", "add login");
    checkout(&repo, "develop").unwrap();
    let ours = commit_file(&repo, "other.txt", "other\n", "add other");
    checkout(&repo, "feature/login").unwrap();
    let mut op = Scripted::new("unused");
    let done = finish(&repo, &config, BranchCategory::Feature, "login", &mut op).unwrap();
    assert_eq!(done.len(), 2);
    let merged = match &done[0] {
        StepOutcome::Merged(MergeOutcome::Merged(id)) => git2::Oid::from_str(id).unwrap(),
        other => panic!("unexpected outcome {:?}", other),
    };
    assert_eq!(tip(&repo, "develop"), merged);
    let commit = repo.find_commit(merged).unwrap();
    assert_eq!(commit.parent_count(), 2);
    assert_eq!(commit.parent_id(0).unwrap(), ours);
    assert_eq!(commit.parent_id(1).unwrap(), theirs);
    let tree = commit.tree().unwrap();
    assert!(tree.get_name("login.txt").is_some());
    assert!(tree.get_name("other.txt").is_some());
    assert_eq!(commit.message(), Some("Develop from version edited"));
    assert_eq!(
        op.edits,
        vec![(".git/COMMIT_EDITMSG".to_string(), "Develop from version ".to_string())]
    );
    assert!(!has_branch(&repo, "feature/login"));
    assert!(repo.workdir().unwrap().join("login.txt").exists());
    assert!(repo.workdir().unwrap().join("other.txt").exists());
}

#[test]
fn conflicting_finish_reports_paths_and_keeps_branch() {
    let (_dir, repo, config) = fresh();
    commit_file(&repo, "shared.txt", "base\n", "base");
    start(&repo, &config, BranchCategory::Feature, "login", None).unwrap();
    let theirs = commit_file(&repo, "shared.txt", "theirs\n", "their change");
    checkout(&repo, "develop").unwrap();
    let ours = commit_file(&repo, "shared.txt", "ours\n", "our change");
    let mut op = Scripted::new("unused");
    let result = finish(&repo, &config, BranchCategory::Feature, "login", &mut op);
    assert_eq!(result, Err(FlowError::MergeConflict(vec!["shared.txt".to_string()])));
    assert_eq!(tip(&repo, "develop"), ours);
    assert_eq!(tip(&repo, "feature/login"), theirs);
    assert!(has_branch(&repo, "feature/login"));
    assert!(op.edits.is_empty());
}

#[test]
fn release_finish_merges_tags_merges_back_and_deletes() {
    let (_dir, repo, config) = fresh();
    let a = commit_file(&repo, "a.txt", "a\n", "commit A");
    let stable_before = tip(&repo, "master");
    let name = start(&repo, &config, BranchCategory::Release, "1.0", None).unwrap();
    assert_eq!(name, "release/1.0");
    let mut op = Scripted::new("v1.0");
    let done = finish(&repo, &config, BranchCategory::Release, "1.0", &mut op).unwrap();
    assert_eq!(done.len(), 4);
    let merged = match &done[0] {
        StepOutcome::Merged(MergeOutcome::Merged(id)) => git2::Oid::from_str(id).unwrap(),
        other => panic!("unexpected outcome {:?}", other),
    };
    let on_stable = repo.find_commit(tip(&repo, "master")).unwrap();
    assert_eq!(on_stable.id(), merged);
    assert_eq!(on_stable.parent_count(), 2);
    assert_eq!(on_stable.parent_id(0).unwrap(), stable_before);
    assert_eq!(on_stable.parent_id(1).unwrap(), a);
    assert_eq!(on_stable.message(), Some("Bump to version edited"));
    let tag_id = match &done[1] {
        StepOutcome::Tagged(id) => git2::Oid::from_str(id).unwrap(),
        other => panic!("unexpected outcome {:?}", other),
    };
    let tag = repo.find_tag(tag_id).unwrap();
    assert_eq!(tag.name(), Some("v1.0"));
    assert_eq!(tag.target_id(), merged);
    assert_eq!(tag.message(), Some("Release version v1.0edited"));
    assert_eq!(done[2], StepOutcome::Merged(MergeOutcome::FastForwarded(merged.to_string())));
    assert_eq!(tip(&repo, "develop"), merged);
    assert_eq!(done[3], StepOutcome::Deleted);
    assert!(!has_branch(&repo, "release/1.0"));
    assert_eq!(head_name(&repo), "refs/heads/develop");
    assert_eq!(op.prompts, vec!["Input a tag name".to_string()]);
}

#[test]
fn release_finish_with_empty_tag_name_halts_after_merge() {
    let (_dir, repo, config) = fresh();
    commit_file(&repo, "a.txt", "a\n", "commit A");
    let develop_before = tip(&repo, "develop");
    let stable_before = tip(&repo, "master");
    start(&repo, &config, BranchCategory::Hotfix, "0.1.1", None).unwrap();
    let mut op = Scripted::new("");
    let result = finish(&repo, &config, BranchCategory::Hotfix, "0.1.1", &mut op);
    assert_eq!(result, Err(FlowError::EmptyTagName));
    assert!(tip(&repo, "master") != stable_before);
    assert_eq!(tip(&repo, "develop"), develop_before);
    assert!(has_branch(&repo, "hotfix/0.1.1"));
}

#[test]
fn release_finish_with_taken_tag_name_reports_it() {
    let (_dir, repo, config) = fresh();
    commit_file(&repo, "a.txt", "a\n", "commit A");
    start(&repo, &config, BranchCategory::Release, "1.0", None).unwrap();
    let mut op = Scripted::new("v1.0");
    finish(&repo, &config, BranchCategory::Release, "1.0", &mut op).unwrap();
    commit_file(&repo, "b.txt", "b\n", "commit B");
    start(&repo, &config, BranchCategory::Release, "1.1", None).unwrap();
    let result = finish(&repo, &config, BranchCategory::Release, "1.1", &mut op);
    assert_eq!(result, Err(FlowError::TagAlreadyExists));
}

#[test]
fn finish_of_support_or_unconfigured_category_asks_nothing() {
    let (_dir, repo, config) = fresh();
    let mut op = Scripted::new("unused");
    assert_eq!(
        finish(&repo, &config, BranchCategory::Support, "1.x", &mut op),
        Err(FlowError::MissingArgument)
    );
    let mut bare = config.clone();
    bare.feature = None;
    assert_eq!(
        finish(&repo, &bare, BranchCategory::Feature, "x", &mut op),
        Err(FlowError::ConfigMissing)
    );
    assert_eq!(
        finish(&repo, &config, BranchCategory::Feature, "missing", &mut op),
        Err(FlowError::BranchNotFound)
    );
}

#[test]
fn diff_against_unmodified_target_is_empty() {
    let (_dir, repo, config) = fresh();
    commit_file(&repo, "a.txt", "a\n", "commit A");
    start(&repo, &config, BranchCategory::Feature, "login", None).unwrap();
    let report = diff(&repo, "develop", None).unwrap();
    assert_eq!(report.lines, Vec::<PatchLine>::new());
    assert_eq!(report.rendered, Vec::<String>::new());
    let report = diff(&repo, "develop", Some("feature/login")).unwrap();
    assert!(report.rendered.is_empty());
}

#[test]
fn diff_renders_added_line_in_colour() {
    let (_dir, repo, config) = fresh();
    start(&repo, &config, BranchCategory::Feature, "login", None).unwrap();
    commit_file(&repo, "login.txt", "login\n", "add login");
    let report = diff(&repo, "develop", None).unwrap();
    assert_eq!(report.lines.len(), 3);
    assert_eq!(report.lines[0].origin, 'F');
    assert_eq!(report.lines[1].origin, 'H');
    assert_eq!(report.lines[2], PatchLine { origin: '+', text: "login\n".to_string() });
    assert_eq!(report.rendered.len(), 3);
    assert!(report.rendered[0].starts_with("\u{1b}[m\u{1b}[1mdiff --git a/login.txt b/login.txt"));
    assert!(report.rendered[1].starts_with("\u{1b}[m\u{1b}[36m@@ -0,0 +1 @@"));
    assert_eq!(report.rendered[2], "\u{1b}[32m+login\n");
    let same = diff(&repo, "develop", Some("feature/login")).unwrap();
    assert_eq!(same, report);
    assert_eq!(diff(&repo, "nowhere", None), Err(FlowError::BranchNotFound));
}

#[test]
fn tag_at_refuses_empty_name_and_taken_name() {
    let (_dir, repo, _config) = fresh();
    let at = tip(&repo, "master").to_string();
    let mut op = Scripted::new("unused");
    assert_eq!(tag_at(&repo, &at, "", &mut op), Err(FlowError::EmptyTagName));
    assert!(op.edits.is_empty());
    let id = tag_at(&repo, &at, "v0.1", &mut op).unwrap();
    let tag = repo.find_tag(git2::Oid::from_str(&id).unwrap()).unwrap();
    assert_eq!(tag.name(), Some("v0.1"));
    assert_eq!(tag.target_id(), tip(&repo, "master"));
    assert_eq!(
        op.edits,
        vec![(".git/TAG_EDITMSG".to_string(), "Release version v0.1".to_string())]
    );
    assert_eq!(tag_at(&repo, &at, "v0.1", &mut op), Err(FlowError::TagAlreadyExists));
}

fn fetch(local: &git2::Repository, branch: &str) -> String {
    let mut remote = local.find_remote("origin").unwrap();
    remote.fetch(&[branch], None, None).unwrap();
    local.find_reference("FETCH_HEAD").unwrap().target().unwrap().to_string()
}

fn tracking_pair() -> (tempfile::TempDir, git2::Repository, tempfile::TempDir, git2::Repository) {
    let (origin_dir, origin, config) = fresh();
    start(&origin, &config, BranchCategory::Feature, "login", None).unwrap();
    commit_file(&origin, "login.txt", "login\n", "add login");
    let local_dir = tempfile::tempdir().unwrap();
    let local = git2::Repository::init(local_dir.path()).unwrap();
    {
        let mut cfg = local.config().unwrap();
        cfg.set_str("user.name", "Tester").unwrap();
        cfg.set_str("user.email", "tester@example.com").unwrap();
    }
    local.remote("origin", origin_dir.path().to_str().unwrap()).unwrap();
    (origin_dir, origin, local_dir, local)
}

#[test]
fn track_creates_then_fast_forwards_the_local_branch() {
    let (_od, origin, _ld, local) = tracking_pair();
    let first = fetch(&local, "feature/login");
    assert_eq!(
        do_merge(&local, "feature/login", &first),
        Ok(MergeOutcome::FastForwarded(first.clone()))
    );
    assert_eq!(tip(&local, "feature/login").to_string(), first);
    assert_eq!(head_name(&local), "refs/heads/feature/login");
    assert!(local.workdir().unwrap().join("login.txt").exists());
    assert_eq!(do_merge(&local, "feature/login", &first), Ok(MergeOutcome::UpToDate));
    commit_file(&origin, "more.txt", "more\n", "add more");
    let second = fetch(&local, "feature/login");
    assert!(second != first);
    assert_eq!(
        do_merge(&local, "feature/login", &second),
        Ok(MergeOutcome::FastForwarded(second.clone()))
    );
    assert_eq!(tip(&local, "feature/login").to_string(), second);
    assert!(local.workdir().unwrap().join("more.txt").exists());
}

#[test]
fn track_merges_diverged_history_under_generated_message() {
    let (_od, origin, _ld, local) = tracking_pair();
    let first = fetch(&local, "feature/login");
    do_merge(&local, "feature/login", &first).unwrap();
    let ours = commit_file(&local, "local.txt", "local\n", "local work");
    let theirs = commit_file(&origin, "remote.txt", "remote\n", "remote work");
    let fetched = fetch(&local, "feature/login");
    assert_eq!(fetched, theirs.to_string());
    let merged = match do_merge(&local, "feature/login", &fetched).unwrap() {
        MergeOutcome::Merged(id) => git2::Oid::from_str(&id).unwrap(),
        other => panic!("unexpected outcome {:?}", other),
    };
    assert_eq!(tip(&local, "feature/login"), merged);
    let commit = local.find_commit(merged).unwrap();
    assert_eq!(commit.parent_count(), 2);
    assert_eq!(commit.parent_id(0).unwrap(), ours);
    assert_eq!(commit.parent_id(1).unwrap(), theirs);
    let expected = format!("Merge: {} into {}", theirs, ours);
    assert_eq!(commit.message(), Some(expected.as_str()));
    assert!(commit.tree().unwrap().get_name("local.txt").is_some());
    assert!(commit.tree().unwrap().get_name("remote.txt").is_some());
}

#[test]
fn track_reports_conflicts_without_committing() {
    let (_od, origin, _ld, local) = tracking_pair();
    let first = fetch(&local, "feature/login");
    do_merge(&local, "feature/login", &first).unwrap();
    let ours = commit_file(&local, "login.txt", "ours\n", "local change");
    commit_file(&origin, "login.txt", "theirs\n", "remote change");
    let fetched = fetch(&local, "feature/login");
    assert_eq!(
        do_merge(&local, "feature/login", &fetched),
        Ok(MergeOutcome::Conflicted(vec!["login.txt".to_string()]))
    );
    assert_eq!(tip(&local, "feature/login"), ours);
}

#[test]
fn rebase_replays_branch_on_integration() {
    let (_dir, repo, config) = fresh();
    start(&repo, &config, BranchCategory::Feature, "login", None).unwrap();
    commit_file(&repo, "one.txt", "1\n", "one");
    commit_file(&repo, "two.txt", "2\n", "two");
    checkout(&repo, "develop").unwrap();
    let base = commit_file(&repo, "base.txt", "b\n", "base moves on");
    checkout(&repo, "feature/login").unwrap();
    let report = rebase(&repo, &config, "feature/login").unwrap();
    assert_eq!(report, RebaseReport { planned: 2, applied: 2 });
    let top = repo.find_commit(tip(&repo, "feature/login")).unwrap();
    assert_eq!(top.message(), Some("two"));
    let below = top.parent(0).unwrap();
    assert_eq!(below.message(), Some("one"));
    assert_eq!(below.parent_id(0).unwrap(), base);
    assert_eq!(tip(&repo, "develop"), base);
    assert_eq!(rebase(&repo, &config, "feature/none"), Err(FlowError::BranchNotFound));
}

#[test]
fn rebase_of_branch_that_is_up_to_date_applies_nothing() {
    let (_dir, repo, config) = fresh();
    start(&repo, &config, BranchCategory::Bugfix, "crash", None).unwrap();
    let before = tip(&repo, "bugfix/crash");
    let report = rebase(&repo, &config, "bugfix/crash").unwrap();
    assert_eq!(report, RebaseReport { planned: 0, applied: 0 });
    assert_eq!(tip(&repo, "bugfix/crash"), before);
}

#[test]
fn three_way_by_branch_names_commits_the_edited_message() {
    let (_dir, repo, config) = fresh();
    start(&repo, &config, BranchCategory::Feature, "login", None).unwrap();
    let theirs = commit_file(&repo, "login.txt", "login\n", "add login");
    checkout(&repo, "develop").unwrap();
    let ours = commit_file(&repo, "other.txt", "other\n", "add other");
    checkout(&repo, "feature/login").unwrap();
    let mut op = Scripted::new("unused");
    let merged = match three_way(&repo, "develop", "feature/login", "Join ", &mut op).unwrap() {
        MergeOutcome::Merged(id) => git2::Oid::from_str(&id).unwrap(),
        other => panic!("unexpected outcome {:?}", other),
    };
    let commit = repo.find_commit(merged).unwrap();
    assert_eq!(commit.message(), Some("Join edited"));
    assert_eq!(commit.parent_id(0).unwrap(), ours);
    assert_eq!(commit.parent_id(1).unwrap(), theirs);
    assert_eq!(tip(&repo, "develop"), merged);
    assert_eq!(tip(&repo, "feature/login"), theirs);
    assert_eq!(
        three_way(&repo, "develop", "feature/none", "Join ", &mut op),
        Err(FlowError::BranchNotFound)
    );
}

#[test]
fn fast_forward_moves_the_reference_to_the_given_tip() {
    let (_dir, repo, config) = fresh();
    start(&repo, &config, BranchCategory::Feature, "login", None).unwrap();
    let work = commit_file(&repo, "login.txt", "login\n", "add login").to_string();
    assert_eq!(
        fast_forward(&repo, "develop", &work),
        Ok(MergeOutcome::FastForwarded(work.clone()))
    );
    assert_eq!(tip(&repo, "develop").to_string(), work);
    assert_eq!(head_name(&repo), "refs/heads/feature/login");
    assert_eq!(fast_forward(&repo, "nowhere", &work), Err(FlowError::BranchNotFound));
}

#[test]
fn merge_analyzed_does_what_the_analysis_and_policy_call_for() {
    let (_dir, repo, config) = fresh();
    start(&repo, &config, BranchCategory::Feature, "login", None).unwrap();
    let work = commit_file(&repo, "login.txt", "login\n", "add login").to_string();
    let base = tip(&repo, "develop").to_string();
    let mut op = Scripted::new("unused");
    let nothing = Analysis { up_to_date: true, fast_forward: false, normal: false, unborn: false };
    assert_eq!(
        merge_analyzed(
            &repo,
            &config,
            "develop",
            &base,
            "feature/login",
            &work,
            MergePolicy::AllowFastForward,
            nothing,
            &mut op
        ),
        Ok(MergeOutcome::UpToDate)
    );
    assert_eq!(tip(&repo, "develop").to_string(), base);
    assert_eq!(head_name(&repo), "refs/heads/develop");
    checkout(&repo, "feature/login").unwrap();
    let forward = Analysis { up_to_date: false, fast_forward: true, normal: true, unborn: false };
    let outcome = merge_analyzed(
        &repo,
        &config,
        "develop",
        &base,
        "feature/login",
        &work,
        MergePolicy::AlwaysCommit,
        forward,
        &mut op,
    )
    .unwrap();
    let merged = match outcome {
        MergeOutcome::Merged(id) => git2::Oid::from_str(&id).unwrap(),
        other => panic!("unexpected outcome {:?}", other),
    };
    let commit = repo.find_commit(merged).unwrap();
    assert_eq!(commit.parent_count(), 2);
    assert_eq!(commit.parent_id(0).unwrap().to_string(), base);
    assert_eq!(commit.parent_id(1).unwrap().to_string(), work);
    assert_eq!(tip(&repo, "develop"), merged);
}

#[test]
fn merge_branch_of_branch_without_new_commits_is_up_to_date() {
    let (_dir, repo, config) = fresh();
    start(&repo, &config, BranchCategory::Feature, "idle", None).unwrap();
    let before = tip(&repo, "develop");
    let mut op = Scripted::new("unused");
    assert_eq!(
        merge_branch(
            &repo,
            &config,
            "develop",
            "feature/idle",
            MergePolicy::AllowFastForward,
            &mut op
        ),
        Ok(MergeOutcome::UpToDate)
    );
    assert_eq!(tip(&repo, "develop"), before);
    let done = finish(&repo, &config, BranchCategory::Feature, "idle", &mut op).unwrap();
    assert_eq!(done, vec![StepOutcome::Merged(MergeOutcome::UpToDate), StepOutcome::Deleted]);
    assert!(!has_branch(&repo, "feature/idle"));
}

fn conflict(ancestor: Option<&[u8]>, ours: Option<&[u8]>, theirs: Option<&[u8]>) -> ConflictEntry {
    ConflictEntry {
        ancestor: ancestor.map(|p| p.to_vec()),
        ours: ours.map(|p| p.to_vec()),
        theirs: theirs.map(|p| p.to_vec()),
    }
}

#[test]
fn conflict_path_prefers_ours_then_theirs_then_ancestor() {
    let (a, o, t) = (Some(&b"a"[..]), Some(&b"o"[..]), Some(&b"t"[..]));
    assert_eq!(conflict_path(&conflict(a, o, t)), Some(&b"o".to_vec()));
    assert_eq!(conflict_path(&conflict(a, None, t)), Some(&b"t".to_vec()));
    assert_eq!(conflict_path(&conflict(a, None, None)), Some(&b"a".to_vec()));
    assert_eq!(conflict_path(&conflict(None, None, None)), None);
}

#[test]
fn conflict_report_lists_one_path_per_conflict_that_has_one() {
    assert_eq!(conflict_report(&Vec::new()), Vec::<String>::new());
    let entries = vec![
        conflict(Some(b"base.txt"), Some(b"ours.txt"), Some(b"theirs.txt")),
        conflict(None, None, None),
        conflict(Some(b"gone.txt"), None, None),
        conflict(None, None, Some(&[0x66, 0xff])),
        conflict(None, Some(b"ours.txt"), None),
    ];
    assert_eq!(
        conflict_report(&entries),
        vec!["ours.txt", "gone.txt", "f\u{fffd}", "ours.txt"]
    );
    assert_eq!(conflict_report(&vec![conflict(None, None, None)]), Vec::<String>::new());
}

#[test]
fn commit_requests_name_their_parents() {
    let merge =
        merge_commit_request("refs/heads/develop", "ours", "theirs", "tree".into(), "msg".into());
    assert_eq!(merge.update_ref, "refs/heads/develop");
    assert_eq!(merge.message, "msg");
    assert_eq!(merge.tree, "tree");
    assert_eq!(merge.parents, vec!["ours", "theirs"]);
    let first = initial_commit_request("tree".into());
    assert_eq!(first.update_ref, "HEAD");
    assert_eq!(first.message, "Initial commit");
    assert_eq!(first.tree, "tree");
    assert!(first.parents.is_empty());
}

#[test]
fn run_plan_keeps_what_was_done_before_it_halted() {
    let (_dir, repo, config) = fresh();
    commit_file(&repo, "a.txt", "a\n", "commit A");
    start(&repo, &config, BranchCategory::Release, "2.0", None).unwrap();
    let plan = FinishPlan::build(&config, BranchCategory::Release, "2.0").unwrap();
    let mut op = Scripted::new("");
    let run = run_plan(&repo, &config, &plan, &mut op);
    assert_eq!(run.halted, Some(FlowError::EmptyTagName));
    assert_eq!(run.done.len(), 1);
    assert!(matches!(&run.done[0], StepOutcome::Merged(MergeOutcome::Merged(_))));
    assert!(has_branch(&repo, "release/2.0"));
    let mut op = Scripted::new("v2.0");
    let tagged = run_step(&repo, &config, &plan.steps[1], &mut op).unwrap();
    assert!(matches!(tagged, StepOutcome::Tagged(_)));
    let gone = PlanStep::DeleteBranch { name: "release/none".to_string() };
    assert_eq!(run_step(&repo, &config, &gone, &mut op), Err(FlowError::BranchNotFound));
}

#[test]
fn create_checkout_branch_starts_at_the_base_tip() {
    let (_dir, repo, _config) = fresh();
    let at = tip(&repo, "master");
    commit_file(&repo, "a.txt", "a\n", "develop moves on");
    create_checkout_branch(&repo, "topic", "master").unwrap();
    assert_eq!(tip(&repo, "topic"), at);
    assert_eq!(head_name(&repo), "refs/heads/topic");
    assert_eq!(
        create_checkout_branch(&repo, "topic", "master"),
        Err(FlowError::BranchAlreadyExists)
    );
    assert_eq!(
        create_checkout_branch(&repo, "other", "nowhere"),
        Err(FlowError::BaseBranchNotFound)
    );
}

#[test]
fn initial_commit_lands_on_the_named_branch() {
    let dir = tempfile::tempdir().unwrap();
    let repo = git2::Repository::init(dir.path()).unwrap();
    {
        let mut cfg = repo.config().unwrap();
        cfg.set_str("user.name", "Tester").unwrap();
        cfg.set_str("user.email", "tester@example.com").unwrap();
    }
    let id = create_initial_commit(&repo, "trunk").unwrap();
    assert_eq!(tip(&repo, "trunk").to_string(), id);
    assert_eq!(head_name(&repo), "refs/heads/trunk");
}

#[test]
fn load_settings_reads_what_is_stored() {
    let (_dir, repo, _config) = fresh();
    {
        let mut cfg = repo.config().unwrap();
        cfg.set_str("workflow.prefix.feature", "feat/").unwrap();
        cfg.remove("workflow.prefix.support").unwrap();
    }
    let settings = load_settings(&repo).unwrap();
    assert_eq!(settings.stable.as_deref(), Some("master"));
    assert_eq!(settings.feature.as_deref(), Some("feat/"));
    assert_eq!(settings.support, None);
    let config = load_config(&repo).unwrap();
    assert_eq!(
        start(&repo, &config, BranchCategory::Feature, "x", None),
        Ok("feat/x".to_string())
    );
    assert_eq!(
        start(&repo, &config, BranchCategory::Support, "1.x", Some("master")),
        Err(FlowError::ConfigMissing)
    );
    assert_eq!(show_config(&repo).unwrap()[2], "Feature branch prefix: feat/");
}

#[test]
fn track_analyzed_follows_the_reported_analysis() {
    let (_od, _origin, _ld, local) = tracking_pair();
    let first = fetch(&local, "feature/login");
    let nothing = Analysis { up_to_date: true, fast_forward: false, normal: false, unborn: false };
    assert_eq!(
        track_analyzed(&local, "feature/login", &first, nothing),
        Ok(MergeOutcome::UpToDate)
    );
    assert!(!has_branch(&local, "feature/login"));
    let forward = Analysis { up_to_date: false, fast_forward: true, normal: false, unborn: true };
    assert_eq!(
        track_analyzed(&local, "feature/login", &first, forward),
        Ok(MergeOutcome::FastForwarded(first.clone()))
    );
    assert_eq!(tip(&local, "feature/login").to_string(), first);
    assert_eq!(creation_note("feature/login", "abc"), "Setting feature/login to abc");
}

#[test]
fn release_finish_merges_back_by_commit_where_integration_moved_on() {
    let (_dir, repo, config) = fresh();
    commit_file(&repo, "a.txt", "a\n", "commit A");
    let stable_before = tip(&repo, "master");
    start(&repo, &config, BranchCategory::Release, "1.0", None).unwrap();
    let release_tip = commit_file(&repo, "notes.txt", "1.0\n", "release notes");
    checkout(&repo, "develop").unwrap();
    let integration_tip = commit_file(&repo, "next.txt", "next\n", "next work");
    checkout(&repo, "release/1.0").unwrap();
    let mut op = Scripted::new("1.0");
    let done = finish(&repo, &config, BranchCategory::Release, "1.0", &mut op).unwrap();
    assert_eq!(done.len(), 4);
    let on_stable = repo.find_commit(tip(&repo, "master")).unwrap();
    assert_eq!(done[0], StepOutcome::Merged(MergeOutcome::Merged(on_stable.id().to_string())));
    assert_eq!(on_stable.parent_count(), 2);
    assert_eq!(on_stable.parent_id(0).unwrap(), stable_before);
    assert_eq!(on_stable.parent_id(1).unwrap(), release_tip);
    let tag_id = match &done[1] {
        StepOutcome::Tagged(id) => git2::Oid::from_str(id).unwrap(),
        other => panic!("unexpected outcome {:?}", other),
    };
    let tag = repo.find_tag(tag_id).unwrap();
    assert_eq!(tag.name(), Some("1.0"));
    assert_eq!(tag.target_id(), on_stable.id());
    assert_eq!(repo.refname_to_id("refs/tags/1.0").unwrap(), tag_id);
    let on_integration = repo.find_commit(tip(&repo, "develop")).unwrap();
    assert_eq!(
        done[2],
        StepOutcome::Merged(MergeOutcome::Merged(on_integration.id().to_string()))
    );
    assert_eq!(on_integration.parent_count(), 2);
    assert_eq!(on_integration.parent_id(0).unwrap(), integration_tip);
    assert_eq!(on_integration.parent_id(1).unwrap(), on_stable.id());
    assert_eq!(on_integration.message(), Some("Develop from version edited"));
    let tree = on_integration.tree().unwrap();
    assert!(tree.get_name("notes.txt").is_some());
    assert!(tree.get_name("next.txt").is_some());
    assert_eq!(done[3], StepOutcome::Deleted);
    assert!(!has_branch(&repo, "release/1.0"));
    assert_eq!(
        op.edits,
        vec![
            (".git/COMMIT_EDITMSG".to_string(), "Bump to version ".to_string()),
            (".git/TAG_EDITMSG".to_string(), "Release version 1.0".to_string()),
            (".git/COMMIT_EDITMSG".to_string(), "Develop from version ".to_string()),
        ]
    );
}

#[test]
fn checkout_refuses_to_overwrite_uncommitted_changes() {
    let (_dir, repo, _config) = fresh();
    commit_file(&repo, "f.txt", "base\n", "base");
    create_checkout_branch(&repo, "x", "develop").unwrap();
    commit_file(&repo, "f.txt", "x\n", "x");
    create_checkout_branch(&repo, "y", "develop").unwrap();
    commit_file(&repo, "f.txt", "y\n", "y");
    create_checkout_branch(&repo, "z", "develop").unwrap();
    commit_file(&repo, "f.txt", "z\n", "z");
    checkout(&repo, "x").unwrap();
    repo.set_head("refs/heads/y").unwrap();
    assert_eq!(checkout(&repo, "z"), Err(FlowError::DirtyWorkingTree));
    assert_eq!(head_name(&repo), "refs/heads/y");
}

#[test]
fn engine_failures_carry_the_engine_message() {
    let (_dir, repo, _config) = fresh();
    let mut op = Scripted::new("unused");
    match tag_at(&repo, "not-an-id", "v1", &mut op) {
        Err(FlowError::EngineError(message)) => assert!(!message.is_empty()),
        other => panic!("unexpected result {:?}", other),
    }
    match fast_forward(&repo, "develop", "not-an-id") {
        Err(FlowError::EngineError(message)) => assert!(!message.is_empty()),
        other => panic!("unexpected result {:?}", other),
    }
}

#[test]
fn delete_of_the_current_branch_moves_the_head_off_it_first() {
    let (_dir, repo, config) = fresh();
    let base = tip(&repo, "develop");
    let name = start(&repo, &config, BranchCategory::Feature, "login", None).unwrap();
    assert_eq!(head_name(&repo), "refs/heads/feature/login");
    assert_eq!(delete(&repo, &config, &name), Ok(()));
    assert!(!has_branch(&repo, &name));
    assert_eq!(head_name(&repo), "refs/heads/develop");
    assert_eq!(tip(&repo, "develop"), base);
}

#[test]
fn delete_of_the_integration_branch_moves_the_head_to_the_stable_branch() {
    let (_dir, repo, config) = fresh();
    assert_eq!(head_name(&repo), "refs/heads/develop");
    assert_eq!(delete(&repo, &config, "develop"), Ok(()));
    assert!(!has_branch(&repo, "develop"));
    assert_eq!(head_name(&repo), "refs/heads/master");
}

#[test]
fn delete_of_another_branch_leaves_the_head_where_it_is() {
    let (_dir, repo, config) = fresh();
    create_checkout_branch(&repo, "topic", "develop").unwrap();
    create_checkout_branch(&repo, "other", "develop").unwrap();
    assert_eq!(delete(&repo, &config, "topic"), Ok(()));
    assert_eq!(head_name(&repo), "refs/heads/other");
    assert!(!has_branch(&repo, "topic"));
}

#[test]
fn head_and_refuge_decisions() {
    let config = WorkflowConfig::standard();
    assert!(head_is_on(Some("refs/heads/feature/x"), "feature/x"));
    assert!(!head_is_on(Some("refs/heads/feature/x"), "feature/y"));
    assert!(!head_is_on(Some("feature/x"), "feature/x"));
    assert!(!head_is_on(None, "feature/x"));
    assert_eq!(refuge(&config, "feature/x"), "develop");
    assert_eq!(refuge(&config, "master"), "develop");
    assert_eq!(refuge(&config, "develop"), "master");
}

#[test]
fn fetch_failure_tells_an_undefined_remote_from_a_failed_transfer() {
    let e = git2::Error::from_str("could not connect");
    assert_eq!(fetch_failure(false, &e), FlowError::RemoteNotFound);
    assert_eq!(fetch_failure(true, &e), FlowError::EngineError("could not connect".to_string()));
    let denied = git2::Error::new(git2::ErrorCode::Auth, git2::ErrorClass::Http, "denied");
    assert_eq!(fetch_failure(true, &denied), FlowError::AuthenticationFailed);
    assert_eq!(fetch_failure(false, &denied), FlowError::RemoteNotFound);
}

#[test]
fn engine_follows_the_branch_life_cycle() {
    let (_dir, repo, config) = fresh();
    let mut op = Scripted::new("unused");
    let mut state = BranchState::NonExistent;
    let asked = [
        Transition::Finish,
        Transition::Delete,
        Transition::Start,
        Transition::Start,
        Transition::Delete,
        Transition::Delete,
        Transition::Finish,
        Transition::Start,
        Transition::Finish,
        Transition::Finish,
        Transition::Start,
    ];
    for transition in asked {
        let result = match transition {
            Transition::Start => {
                start(&repo, &config, BranchCategory::Feature, "cycle", None).map(|_| ())
            }
            Transition::Finish => {
                finish(&repo, &config, BranchCategory::Feature, "cycle", &mut op).map(|_| ())
            }
            Transition::Delete => delete(&repo, &config, "feature/cycle"),
        };
        let expected = state.step(transition);
        assert_eq!(result, expected.clone().map(|_| ()), "{:?} in {:?}", transition, state);
        if let Ok(next) = expected {
            state = next;
        }
        assert_eq!(has_branch(&repo, "feature/cycle"), state.is_present());
    }
    assert_eq!(state, BranchState::Started);
}
