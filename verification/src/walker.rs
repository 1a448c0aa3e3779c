//! The commit history walker: opens a repository by name, enumerates
//! every commit reachable from its head in the store's own order, loads
//! each commit's root tree into an owned `TreeNode`, and hands the result to
//! the verified flattener. Read-only throughout; on any mid-walk failure
//! the whole request aborts, never returning a partial listing.

use vstd::prelude::*;
use crate::flatten::list_from_commits;
use crate::gitstore::{
    commit_tree_id, entry_id, entry_is_dir, entry_name, error_is_not_found, find_commit,
    find_tree, oid_hex, open_repo, revwalk_new, revwalk_next, revwalk_push_head, tree_get,
    tree_len,
};
use crate::model::{CommitDetails, CommitSnapshot, ListError, TreeNode, TreeItem};
use crate::paths::repo_path_of;

verus! {

/// The deepest directory nesting the loader follows. A tree nested deeper
/// aborts the listing with `TraversalFailure` rather than exhausting the
/// call stack on a pathological store.
pub const MAX_TREE_DEPTH: u64 = 1024;

/// The most commits one listing enumerates. A history longer than this
/// aborts with `TraversalFailure` rather than letting one request run
/// unbounded; no real history comes near it.
pub const MAX_COMMITS: u64 = 1000000000;

/// The error owed when opening the repository failed: the not-found code
/// is the client's error, every other failure is the storage layer's.
pub fn classify_open_error(not_found: bool) -> (e: ListError)
    ensures
        e is NotFound <==> not_found,
        e is StorageOpenFailure <==> !not_found,
{
    if not_found {
        ListError::NotFound
    } else {
        ListError::StorageOpenFailure
    }
}

/// Loads the tree named by `oid` into an owned `TreeNode` value, descending
/// at most `depth` levels. Every failure to resolve a claimed sub-tree,
/// an entry or its name is a traversal failure; nothing is skipped
/// silently.
fn load_tree(repo: &git2::Repository, oid: &git2::Oid, depth: u64) -> (r: Result<TreeNode, ListError>)
    ensures
        r matches Err(e) ==> e is TraversalFailure,
    decreases depth,
{
    if depth == 0 {
        return Err(ListError::TraversalFailure);
    }
    let gtree = match find_tree(repo, oid) {
        Ok(t) => t,
        Err(_) => { return Err(ListError::TraversalFailure) },
    };
    let n = tree_len(&gtree);
    let mut entries: Vec<TreeItem> = Vec::new();
    let mut i: usize = 0;
    while i < n
        invariant
            i <= n,
            depth >= 1,
        decreases n - i,
    {
        let e = match tree_get(&gtree, i) {
            Option::Some(e) => e,
            Option::None => { return Err(ListError::TraversalFailure) },
        };
        let name = match entry_name(&e) {
            Option::Some(s) => s,
            Option::None => { return Err(ListError::TraversalFailure) },
        };
        if entry_is_dir(&e) {
            let sub_id = entry_id(&e);
            let sub = match load_tree(repo, &sub_id, depth - 1) {
                Ok(t) => t,
                Err(err) => { return Err(err) },
            };
            entries.push(TreeItem::Dir { name, tree: sub });
        } else {
            let id = oid_hex(&entry_id(&e));
            entries.push(TreeItem::Blob { name, id });
        }
        i = i + 1;
    }
    Ok(TreeNode { entries })
}

/// Walks every commit reachable from the head of the opened repository
/// and loads each commit's identifier and root tree, in the store's own
/// traversal order. A repository with no resolvable head has no commits
/// to list and yields the empty history, not an error; any failure while
/// walking or resolving aborts the whole load.
fn load_history(repo: &git2::Repository) -> (r: Result<Vec<CommitSnapshot>, ListError>)
    ensures
        r matches Err(e) ==> !(e is NotFound),
{
    let mut walk = match revwalk_new(repo) {
        Ok(w) => w,
        Err(_) => { return Err(ListError::StorageOpenFailure) },
    };
    if revwalk_push_head(&mut walk).is_err() {
        return Ok(Vec::new());
    }
    let mut out: Vec<CommitSnapshot> = Vec::new();
    let mut steps: u64 = 0;
    while steps < MAX_COMMITS
        invariant
            steps <= MAX_COMMITS,
        decreases MAX_COMMITS - steps,
    {
        let oid = match revwalk_next(&mut walk) {
            Option::None => { return Ok(out) },
            Option::Some(item) => match item {
                Ok(oid) => oid,
                Err(_) => { return Err(ListError::TraversalFailure) },
            },
        };
        let commit = match find_commit(repo, &oid) {
            Ok(c) => c,
            Err(_) => { return Err(ListError::TraversalFailure) },
        };
        let tree_oid = commit_tree_id(&commit);
        let root = match load_tree(repo, &tree_oid, MAX_TREE_DEPTH) {
            Ok(t) => t,
            Err(err) => { return Err(err) },
        };
        out.push(CommitSnapshot { commit_id: oid_hex(&oid), root });
        steps = steps + 1;
    }
    Err(ListError::TraversalFailure)
}

/// Lists, for every commit reachable from the head of the repository at
/// `path`, the commit's id and its flattened file listing: the single
/// logical operation of this library, by on-disk location.
///
/// A missing repository is `NotFound`; one that exists but cannot be
/// opened is `StorageOpenFailure`; a repository with no commits yields
/// `Ok` with the empty listing; any failure to resolve a commit, a tree
/// or an entry mid-walk aborts with `TraversalFailure` and no partial
/// result.
pub fn list_commits_at(path: &String) -> (r: Result<Vec<CommitDetails>, ListError>) {
    let repo = match open_repo(path) {
        Ok(repo) => repo,
        Err(e) => { return Err(classify_open_error(error_is_not_found(&e))) },
    };
    let history = match load_history(&repo) {
        Ok(h) => h,
        Err(err) => { return Err(err) },
    };
    Ok(list_from_commits(history))
}

/// Lists the commits of the repository with the given name, located by
/// the `repos/<name>.git` naming convention; otherwise as
/// `list_commits_at`.
pub fn list_commit_files(name: &str) -> (r: Result<Vec<CommitDetails>, ListError>) {
    let path = repo_path_of(name);
    list_commits_at(&path)
}

} // verus!
