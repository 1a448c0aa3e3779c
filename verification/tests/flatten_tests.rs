//! Tests of the pure engine: flattening, path reconstruction, listing
//! assembly, the naming convention, and the lifecycle decision table.

use repohost::flatten::{commit_listing, list_from_commits, tree_recur};
use repohost::model::{CommitSnapshot, FileDetails, ListError, TreeItem, TreeNode};
use repohost::paths::{join_path, repo_path_of};
use repohost::registry::{
    add_repo_start, add_repo_status, add_repo_step, updated_registry, AddRepoAction,
    AddRepoEvent, AddRepoResponse, RepoDetails,
};

fn blob(name: &str, id: &str) -> TreeItem {
    TreeItem::Blob { name: name.to_string(), id: id.to_string() }
}

fn dir(name: &str, entries: Vec<TreeItem>) -> TreeItem {
    TreeItem::Dir { name: name.to_string(), tree: TreeNode { entries } }
}

fn fd(name: &str, id: &str) -> FileDetails {
    FileDetails { name: name.to_string(), tree_id: id.to_string() }
}

#[test]
fn empty_tree_flattens_to_nothing() {
    let t = TreeNode { entries: vec![] };
    let files = tree_recur(&t, &None);
    assert_eq!(files, vec![]);
}

#[test]
fn single_blob_at_root() {
    let t = TreeNode { entries: vec![blob("README.md", "h1")] };
    let files = tree_recur(&t, &None);
    assert_eq!(files, vec![fd("README.md", "h1")]);
}

#[test]
fn path_reconstruction_nested_dirs() {
    // a tree holding a single directory `a` holding `b` holding file `c`
    let t = TreeNode { entries: vec![dir("a", vec![dir("b", vec![blob("c", "h9")])])] };
    let files = tree_recur(&t, &None);
    assert_eq!(files, vec![fd("a/b/c", "h9")]);
}

#[test]
fn empty_directory_contributes_nothing() {
    let t = TreeNode { entries: vec![dir("empty", vec![]), blob("file.txt", "h2")] };
    let files = tree_recur(&t, &None);
    assert_eq!(files, vec![fd("file.txt", "h2")]);
}

#[test]
fn all_empty_directories_flatten_to_nothing() {
    let t = TreeNode {
        entries: vec![dir("a", vec![]), dir("b", vec![dir("c", vec![])])],
    };
    let files = tree_recur(&t, &None);
    assert_eq!(files, vec![]);
}

#[test]
fn flatten_matches_manual_depth_first_walk() {
    // README.md, docs/{guide.md, img/logo.png}, src/{lib.rs, main.rs}
    let t = TreeNode {
        entries: vec![
            blob("README.md", "i1"),
            dir(
                "docs",
                vec![blob("guide.md", "i2"), dir("img", vec![blob("logo.png", "i3")])],
            ),
            dir("src", vec![blob("lib.rs", "i4"), blob("main.rs", "i5")]),
        ],
    };
    let files = tree_recur(&t, &None);
    // the same walk done by hand, depth-first, pre-order, in store order
    let expected = vec![
        fd("README.md", "i1"),
        fd("docs/guide.md", "i2"),
        fd("docs/img/logo.png", "i3"),
        fd("src/lib.rs", "i4"),
        fd("src/main.rs", "i5"),
    ];
    assert_eq!(files, expected);
    // no duplicates for a tree with no duplicate names
    for i in 0..files.len() {
        for j in i + 1..files.len() {
            assert_ne!(files[i].name, files[j].name);
        }
    }
}

#[test]
fn name_collisions_pass_through_in_store_order() {
    // a file and a directory sharing a name at one level: both traversed,
    // one output entry each, in store order
    let t = TreeNode {
        entries: vec![blob("x", "h1"), dir("x", vec![blob("y", "h2")])],
    };
    let files = tree_recur(&t, &None);
    assert_eq!(files, vec![fd("x", "h1"), fd("x/y", "h2")]);
}

#[test]
fn flatten_under_parent_prefix() {
    let t = TreeNode { entries: vec![blob("c", "h")] };
    let files = tree_recur(&t, &Some("a/b".to_string()));
    assert_eq!(files, vec![fd("a/b/c", "h")]);
}

#[test]
fn commit_listing_carries_id_and_files() {
    let t = TreeNode { entries: vec![blob("x", "hx")] };
    let d = commit_listing("cafebabe".to_string(), &t);
    assert_eq!(d.commit_id, "cafebabe");
    assert_eq!(d.files, vec![fd("x", "hx")]);
}

#[test]
fn list_from_commits_keeps_order_and_contents() {
    let newer = CommitSnapshot {
        commit_id: "c2".to_string(),
        root: TreeNode {
            entries: vec![blob("README.md", "h1"), dir("src", vec![blob("main.x", "h2")])],
        },
    };
    let older = CommitSnapshot {
        commit_id: "c1".to_string(),
        root: TreeNode { entries: vec![blob("README.md", "h1")] },
    };
    let r = list_from_commits(vec![newer, older]);
    assert_eq!(r.len(), 2);
    assert_eq!(r[0].commit_id, "c2");
    assert_eq!(r[0].files, vec![fd("README.md", "h1"), fd("src/main.x", "h2")]);
    assert_eq!(r[1].commit_id, "c1");
    assert_eq!(r[1].files, vec![fd("README.md", "h1")]);
}

#[test]
fn list_from_no_commits_is_empty() {
    let r = list_from_commits(vec![]);
    assert_eq!(r.len(), 0);
}

#[test]
fn join_path_inserts_one_slash() {
    assert_eq!(join_path("a", "b"), "a/b");
    assert_eq!(join_path("a/b", "c"), "a/b/c");
}

#[test]
fn repo_path_follows_naming_convention() {
    assert_eq!(repo_path_of("demo"), "repos/demo.git");
    assert_eq!(repo_path_of(""), "repos/.git");
}

#[test]
fn http_status_of_errors() {
    assert_eq!(ListError::NotFound.http_status(), 404);
    assert_eq!(ListError::StorageOpenFailure.http_status(), 500);
    assert_eq!(ListError::TraversalFailure.http_status(), 500);
}

#[test]
fn updated_registry_appends_record() {
    let a = RepoDetails { name: "one".to_string(), description: "first".to_string() };
    let b = RepoDetails { name: "two".to_string(), description: "second".to_string() };
    let r = updated_registry(vec![a.clone()], b.clone());
    assert_eq!(r, vec![a, b]);
}

#[test]
fn add_repo_protocol_happy_paths() {
    assert_eq!(add_repo_start(), AddRepoAction::EnsureReposDir);
    assert_eq!(add_repo_step(AddRepoEvent::DirReady), AddRepoAction::ParsePayload);
    assert_eq!(add_repo_step(AddRepoEvent::PayloadParsed), AddRepoAction::EnsureRepo);
    assert_eq!(add_repo_step(AddRepoEvent::RepoReady), AddRepoAction::CheckRegistry);
    // first record ever: fresh file, a 200 with an empty body
    assert_eq!(add_repo_step(AddRepoEvent::RegistryMissing), AddRepoAction::SerializeFresh);
    assert_eq!(add_repo_step(AddRepoEvent::FreshSerialized), AddRepoAction::WriteFresh);
    assert_eq!(
        add_repo_step(AddRepoEvent::FreshWritten),
        AddRepoAction::Respond(AddRepoResponse::OkEmpty)
    );
    // later records: append, a 201
    assert_eq!(add_repo_step(AddRepoEvent::RegistryPresent), AddRepoAction::ReadRegistry);
    assert_eq!(add_repo_step(AddRepoEvent::RegistryRead), AddRepoAction::SerializeAppend);
    assert_eq!(add_repo_step(AddRepoEvent::AppendSerialized), AddRepoAction::WriteAppend);
    assert_eq!(
        add_repo_step(AddRepoEvent::AppendWritten),
        AddRepoAction::Respond(AddRepoResponse::Created)
    );
}

#[test]
fn add_repo_protocol_failures() {
    assert_eq!(
        add_repo_step(AddRepoEvent::DirCreateFailed),
        AddRepoAction::Respond(AddRepoResponse::ErrCreateDir)
    );
    assert_eq!(
        add_repo_step(AddRepoEvent::PayloadInvalid),
        AddRepoAction::Respond(AddRepoResponse::InvalidPayload)
    );
    assert_eq!(
        add_repo_step(AddRepoEvent::RepoInitFailed),
        AddRepoAction::Respond(AddRepoResponse::ErrInitRepo)
    );
    assert_eq!(
        add_repo_step(AddRepoEvent::RegistryReadFailed),
        AddRepoAction::Respond(AddRepoResponse::ErrRead)
    );
    assert_eq!(
        add_repo_step(AddRepoEvent::RegistryParseFailed),
        AddRepoAction::Respond(AddRepoResponse::ErrDeserialize)
    );
    assert_eq!(
        add_repo_step(AddRepoEvent::AppendWriteFailed),
        AddRepoAction::Respond(AddRepoResponse::ErrWrite)
    );
}

#[test]
fn add_repo_status_codes() {
    assert_eq!(add_repo_status(&AddRepoResponse::OkEmpty), 200);
    assert_eq!(add_repo_status(&AddRepoResponse::InvalidPayload), 200);
    assert_eq!(add_repo_status(&AddRepoResponse::Created), 201);
    assert_eq!(add_repo_status(&AddRepoResponse::ErrSerialize), 500);
}
