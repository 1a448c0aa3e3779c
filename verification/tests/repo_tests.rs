//! Tests of the walker against real on-disk repositories, built with the
//! same object store library the walker reads through.

use repohost::model::ListError;
use repohost::walker::{list_commit_files, list_commits_at};

/// A path of its own for each test run, so reruns start from nothing.
fn fresh_path(tag: &str) -> String {
    let nanos = std::time::SystemTime::now()
        .duration_since(std::time::UNIX_EPOCH)
        .unwrap()
        .as_nanos();
    format!("/tmp/repohost-itrepos/{}-{}.git", tag, nanos)
}

fn sig() -> git2::Signature<'static> {
    git2::Signature::now("tester", "tester@example.invalid").unwrap()
}

const BLOB_MODE: i32 = 0o100644;
const TREE_MODE: i32 = 0o040000;

#[test]
fn fresh_repository_lists_no_commits() {
    let path = fresh_path("fresh");
    git2::Repository::init_bare(&path).unwrap();
    let r = list_commits_at(&path);
    let listings = r.unwrap();
    assert_eq!(listings.len(), 0);
}

#[test]
fn missing_repository_is_not_found() {
    let r = list_commit_files("no_such_repository_anywhere");
    assert_eq!(r.unwrap_err(), ListError::NotFound);
}

#[test]
fn two_commit_history_lists_newest_first() {
    let path = fresh_path("demo");
    let repo = git2::Repository::init_bare(&path).unwrap();

    // older commit: README.md -> h1
    let h1 = repo.blob(b"hello").unwrap();
    let mut tb = repo.treebuilder(None).unwrap();
    tb.insert("README.md", h1, BLOB_MODE).unwrap();
    let t1 = tb.write().unwrap();
    let tree1 = repo.find_tree(t1).unwrap();
    let s = sig();
    let c1 = repo.commit(Some("HEAD"), &s, &s, "first", &tree1, &[]).unwrap();

    // newer commit: README.md -> h1, src/main.x -> h2
    let h2 = repo.blob(b"fn main() {}").unwrap();
    let mut tb_src = repo.treebuilder(None).unwrap();
    tb_src.insert("main.x", h2, BLOB_MODE).unwrap();
    let t_src = tb_src.write().unwrap();
    let mut tb2 = repo.treebuilder(None).unwrap();
    tb2.insert("README.md", h1, BLOB_MODE).unwrap();
    tb2.insert("src", t_src, TREE_MODE).unwrap();
    let t2 = tb2.write().unwrap();
    let tree2 = repo.find_tree(t2).unwrap();
    let parent = repo.find_commit(c1).unwrap();
    let c2 = repo.commit(Some("HEAD"), &s, &s, "second", &tree2, &[&parent]).unwrap();

    let listings = list_commits_at(&path).unwrap();
    assert_eq!(listings.len(), 2);

    // newest first, matching the head-relative traversal
    assert_eq!(listings[0].commit_id, c2.to_string());
    assert_eq!(listings[0].files.len(), 2);
    assert_eq!(listings[0].files[0].name, "README.md");
    assert_eq!(listings[0].files[0].tree_id, h1.to_string());
    assert_eq!(listings[0].files[1].name, "src/main.x");
    assert_eq!(listings[0].files[1].tree_id, h2.to_string());

    assert_eq!(listings[1].commit_id, c1.to_string());
    assert_eq!(listings[1].files.len(), 1);
    assert_eq!(listings[1].files[0].name, "README.md");
    assert_eq!(listings[1].files[0].tree_id, h1.to_string());
}

#[test]
fn listing_is_deterministic_across_calls() {
    let path = fresh_path("stable");
    let repo = git2::Repository::init_bare(&path).unwrap();
    let h = repo.blob(b"data").unwrap();
    let mut tb = repo.treebuilder(None).unwrap();
    tb.insert("data.txt", h, BLOB_MODE).unwrap();
    let t = tb.write().unwrap();
    let tree = repo.find_tree(t).unwrap();
    let s = sig();
    repo.commit(Some("HEAD"), &s, &s, "only", &tree, &[]).unwrap();

    let first = list_commits_at(&path).unwrap();
    let second = list_commits_at(&path).unwrap();
    assert_eq!(first, second);
}

#[test]
fn pathologically_deep_tree_aborts_traversal() {
    let path = fresh_path("deep");
    let repo = git2::Repository::init_bare(&path).unwrap();
    let h = repo.blob(b"bottom").unwrap();
    let mut tb = repo.treebuilder(None).unwrap();
    tb.insert("leaf.txt", h, BLOB_MODE).unwrap();
    let mut tree_oid = tb.write().unwrap();
    // nest far beyond the loader's depth bound
    for _ in 0..1100 {
        let mut tb = repo.treebuilder(None).unwrap();
        tb.insert("d", tree_oid, TREE_MODE).unwrap();
        tree_oid = tb.write().unwrap();
    }
    let tree = repo.find_tree(tree_oid).unwrap();
    let s = sig();
    repo.commit(Some("HEAD"), &s, &s, "deep", &tree, &[]).unwrap();

    let r = list_commits_at(&path);
    assert_eq!(r.unwrap_err(), ListError::TraversalFailure);
}

#[test]
fn unopenable_repository_is_storage_failure() {
    let path = fresh_path("corrupt");
    git2::Repository::init_bare(&path).unwrap();
    // mangle the configuration so the repository exists but cannot open
    let rt = tokio::runtime::Runtime::new().unwrap();
    rt.block_on(async_fs::write(format!("{}/config", path), b"[core\nbroken" as &[u8]))
        .unwrap();
    let r = list_commits_at(&path);
    assert_eq!(r.unwrap_err(), ListError::StorageOpenFailure);
}
