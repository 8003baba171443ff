use std::io::Write;
use std::path::Path;

use minion::git::{has_tracked_changes, GitError, GitRepo};

fn write_file(dir: &Path, name: &str, content: &str) {
    let mut f = tempfile::NamedTempFile::new_in(dir).unwrap();
    f.write_all(content.as_bytes()).unwrap();
    f.persist(dir.join(name)).unwrap();
}

fn file_is(dir: &Path, name: &str, content: &str) -> bool {
    let on_disk = git2::Oid::hash_file(git2::ObjectType::Blob, dir.join(name)).unwrap();
    let expected = git2::Oid::hash_object(git2::ObjectType::Blob, content.as_bytes()).unwrap();
    on_disk == expected
}

fn commit_all(repo: &git2::Repository, msg: &str) {
    let mut index = repo.index().unwrap();
    index.add_all(["*"].iter(), git2::IndexAddOption::DEFAULT, None).unwrap();
    index.write().unwrap();
    let tree_id = index.write_tree().unwrap();
    let tree = repo.find_tree(tree_id).unwrap();
    let sig = git2::Signature::now("tester", "tester@example.com").unwrap();
    let parents: Vec<git2::Commit> = match repo.head() {
        Ok(h) => vec![h.peel_to_commit().unwrap()],
        Err(_) => vec![],
    };
    let parent_refs: Vec<&git2::Commit> = parents.iter().collect();
    repo.commit(Some("HEAD"), &sig, &sig, msg, &tree, &parent_refs).unwrap();
}

fn switch(repo: &git2::Repository, branch: &str) {
    repo.set_head(&format!("refs/heads/{branch}")).unwrap();
    let mut opts = git2::build::CheckoutBuilder::new();
    opts.force();
    repo.checkout_head(Some(&mut opts)).unwrap();
}

fn init_repo() -> (tempfile::TempDir, git2::Repository) {
    let dir = tempfile::tempdir().unwrap();
    let repo = git2::Repository::init(dir.path()).unwrap();
    repo.set_head("refs/heads/main").unwrap();
    write_file(dir.path(), "a.txt", "one\n");
    commit_all(&repo, "init");
    (dir, repo)
}

fn open(dir: &tempfile::TempDir) -> GitRepo {
    GitRepo::open(dir.path().to_str().unwrap()).unwrap()
}

/// A repository whose branch `fork` changes a.txt and adds b.txt.
fn repo_with_fork() -> (tempfile::TempDir, git2::Repository) {
    let (dir, repo) = init_repo();
    open(&dir).create_branch("fork").unwrap();
    switch(&repo, "fork");
    write_file(dir.path(), "a.txt", "one\ntwo\n");
    write_file(dir.path(), "b.txt", "new\n");
    commit_all(&repo, "agent work");
    (dir, repo)
}

#[test]
fn current_branch_is_named() {
    let (dir, _repo) = init_repo();
    assert_eq!(open(&dir).current_branch_name().unwrap(), "main");
}

#[test]
fn detached_head_is_reported() {
    let (dir, repo) = init_repo();
    let oid = repo.head().unwrap().peel_to_commit().unwrap().id();
    repo.set_head_detached(oid).unwrap();
    assert!(matches!(open(&dir).current_branch_name(), Err(GitError::DetachedHead)));
}

#[test]
fn create_branch_keeps_head_and_refuses_duplicates() {
    let (dir, repo) = init_repo();
    let mut g = open(&dir);
    g.create_branch("fork").unwrap();
    assert_eq!(g.current_branch_name().unwrap(), "main");
    assert!(repo.find_branch("fork", git2::BranchType::Local).is_ok());
    assert!(matches!(g.create_branch("fork"), Err(GitError::Repository(_))));
}

#[test]
fn dirty_base_is_refused_and_untouched() {
    let (dir, repo) = repo_with_fork();
    switch(&repo, "main");
    write_file(dir.path(), "a.txt", "local edit\n");
    let r = open(&dir).squash_merge_branch("main", "fork");
    assert!(matches!(r, Err(GitError::DirtyWorkingTree)));
    assert!(file_is(dir.path(), "a.txt", "local edit\n"));
    assert!(!dir.path().join("b.txt").exists());
}

#[test]
fn untracked_files_do_not_block_merge() {
    let (dir, repo) = repo_with_fork();
    switch(&repo, "main");
    write_file(dir.path(), "notes.txt", "scratch\n");
    assert!(open(&dir).squash_merge_branch("main", "fork").is_ok());
    assert!(file_is(dir.path(), "a.txt", "one\ntwo\n"));
}

#[test]
fn squash_merge_applies_fork_unstaged() {
    let (dir, repo) = repo_with_fork();
    switch(&repo, "main");
    open(&dir).squash_merge_branch("main", "fork").unwrap();
    assert!(file_is(dir.path(), "a.txt", "one\ntwo\n"));
    assert!(file_is(dir.path(), "b.txt", "new\n"));
    assert_eq!(repo.head().unwrap().shorthand(), Some("main"));
    let status = repo.status_file(Path::new("a.txt")).unwrap();
    assert!(status.contains(git2::Status::WT_MODIFIED));
    assert!(!status.contains(git2::Status::INDEX_MODIFIED));
}

#[test]
fn squash_merge_switches_to_base_first() {
    let (dir, repo) = repo_with_fork();
    open(&dir).squash_merge_branch("main", "fork").unwrap();
    assert_eq!(repo.head().unwrap().shorthand(), Some("main"));
    assert!(file_is(dir.path(), "a.txt", "one\ntwo\n"));
}

#[test]
fn conflicting_changes_are_merge_conflict() {
    let (dir, repo) = repo_with_fork();
    switch(&repo, "main");
    write_file(dir.path(), "a.txt", "uno\n");
    commit_all(&repo, "base moved on");
    let r = open(&dir).squash_merge_branch("main", "fork");
    assert!(matches!(r, Err(GitError::MergeConflict)));
}

#[test]
fn staged_change_on_base_is_refused() {
    let (dir, repo) = repo_with_fork();
    switch(&repo, "main");
    write_file(dir.path(), "a.txt", "staged edit\n");
    let mut index = repo.index().unwrap();
    index.add_path(Path::new("a.txt")).unwrap();
    index.write().unwrap();
    let status = repo.status_file(Path::new("a.txt")).unwrap();
    assert!(status.contains(git2::Status::INDEX_MODIFIED));
    assert!(!status.contains(git2::Status::WT_MODIFIED));
    let r = open(&dir).squash_merge_branch("main", "fork");
    assert!(matches!(r, Err(GitError::DirtyWorkingTree)));
    assert!(file_is(dir.path(), "a.txt", "staged edit\n"));
    assert!(!dir.path().join("b.txt").exists());
}

#[test]
fn status_bits_count_staged_and_unstaged_changes() {
    assert!(!has_tracked_changes(&vec![0, 0x4000]));
    assert!(has_tracked_changes(&vec![0, 0x2]));
    assert!(has_tracked_changes(&vec![0x100]));
    assert!(has_tracked_changes(&vec![0x1]));
}
