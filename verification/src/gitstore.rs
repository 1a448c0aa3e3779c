//! The trusted boundary to the on-disk object store, provided by the
//! `git2` crate. Every item here is believed, not verified: each wrapper
//! holds exactly one `git2` call, and its doc comment names the function
//! relied on. Results depend on what is on disk, so the wrappers promise
//! nothing about the values they hand back; the verified code states what
//! holds of every outcome.

use vstd::prelude::*;

verus! {

#[verifier::external_type_specification]
#[verifier::external_body]
pub struct ExRepository(git2::Repository);

#[verifier::external_type_specification]
#[verifier::external_body]
pub struct ExGitError(git2::Error);

#[verifier::external_type_specification]
#[verifier::external_body]
pub struct ExOid(git2::Oid);

#[verifier::external_type_specification]
#[verifier::external_body]
pub struct ExRevwalk<'repo>(git2::Revwalk<'repo>);

#[verifier::external_type_specification]
#[verifier::external_body]
pub struct ExCommit<'repo>(git2::Commit<'repo>);

#[verifier::external_type_specification]
#[verifier::external_body]
pub struct ExGitTree<'repo>(git2::Tree<'repo>);

#[verifier::external_type_specification]
#[verifier::external_body]
pub struct ExGitTreeEntry<'tree>(git2::TreeEntry<'tree>);

/// Relies on `git2::Repository::open`: opens the repository at the given
/// path, normal or bare, and fails when there is none there.
#[verifier::external_body]
pub(crate) fn open_repo(path: &String) -> Result<git2::Repository, git2::Error> {
    git2::Repository::open(path.as_str())
}

/// Relies on `git2::Error::code`: tells whether the error carries the
/// store's not-found code, the code `Repository::open` reports when
/// nothing exists at the path.
#[verifier::external_body]
pub(crate) fn error_is_not_found(e: &git2::Error) -> bool {
    match e.code() {
        git2::ErrorCode::NotFound => true,
        _ => false,
    }
}

/// Relies on `git2::Repository::revwalk`: a fresh walker over the
/// repository's commit graph, with no roots pushed yet.
#[verifier::external_body]
pub(crate) fn revwalk_new<'repo>(repo: &'repo git2::Repository) -> Result<
    git2::Revwalk<'repo>,
    git2::Error,
> {
    repo.revwalk()
}

/// Relies on `git2::Revwalk::push_head`: marks the head reference as a
/// traversal root; fails when the repository has no resolvable head.
#[verifier::external_body]
pub(crate) fn revwalk_push_head(w: &mut git2::Revwalk<'_>) -> Result<(), git2::Error> {
    w.push_head()
}

/// Relies on `<git2::Revwalk as Iterator>::next`: the next reachable
/// commit id in the store's own traversal order, `None` when the walk is
/// exhausted.
#[verifier::external_body]
pub(crate) fn revwalk_next(w: &mut git2::Revwalk<'_>) -> Option<Result<git2::Oid, git2::Error>> {
    w.next()
}

/// Relies on `git2::Repository::find_commit`: resolves a commit object by
/// its id.
#[verifier::external_body]
pub(crate) fn find_commit<'repo>(repo: &'repo git2::Repository, oid: &git2::Oid) -> Result<
    git2::Commit<'repo>,
    git2::Error,
> {
    repo.find_commit(*oid)
}

/// Relies on `git2::Commit::tree_id`: the id of the commit's root tree.
#[verifier::external_body]
pub(crate) fn commit_tree_id(c: &git2::Commit<'_>) -> git2::Oid {
    c.tree_id()
}

/// Relies on `git2::Repository::find_tree`: resolves a tree object by its
/// id, and fails when the id does not name a tree in the store.
#[verifier::external_body]
pub(crate) fn find_tree<'repo>(repo: &'repo git2::Repository, oid: &git2::Oid) -> Result<
    git2::Tree<'repo>,
    git2::Error,
> {
    repo.find_tree(*oid)
}

/// Relies on `git2::Tree::len`: the number of entries of this tree.
#[verifier::external_body]
pub(crate) fn tree_len(t: &git2::Tree<'_>) -> usize {
    t.len()
}

/// Relies on `git2::Tree::get`: the entry at the given position, `None`
/// when the position is out of range.
#[verifier::external_body]
pub(crate) fn tree_get<'a, 'repo>(t: &'a git2::Tree<'repo>, n: usize) -> Option<
    git2::TreeEntry<'a>,
> {
    t.get(n)
}

/// Relies on `git2::TreeEntry::kind`: whether the entry points at a
/// sub-tree (a directory) rather than a blob or other object.
#[verifier::external_body]
pub(crate) fn entry_is_dir(e: &git2::TreeEntry<'_>) -> bool {
    match e.kind() {
        Option::Some(git2::ObjectType::Tree) => true,
        _ => false,
    }
}

/// Relies on `git2::TreeEntry::name`: the entry's file name, a single
/// path segment; fails when the name is not valid text.
#[verifier::external_body]
pub(crate) fn entry_name(e: &git2::TreeEntry<'_>) -> Option<String> {
    match e.name() {
        Ok(s) => Option::Some(s.to_owned()),
        Err(_) => Option::None,
    }
}

/// Relies on `git2::TreeEntry::id`: the content id of the object the
/// entry points at.
#[verifier::external_body]
pub(crate) fn entry_id(e: &git2::TreeEntry<'_>) -> git2::Oid {
    e.id()
}

/// Relies on `git2::Oid`'s `Display`: the id hex-encoded.
#[verifier::external_body]
pub(crate) fn oid_hex(oid: &git2::Oid) -> String {
    oid.to_string()
}

} // verus!
