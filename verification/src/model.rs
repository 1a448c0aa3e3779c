//! Data model of the engine: content trees, flattened file listings, and
//! the error taxonomy of the single listing operation.

use vstd::prelude::*;

verus! {

/// One entry of a content tree: either a subdirectory carrying a nested
/// tree, or a file (blob) carrying its content identifier.
///
/// A `name` is a single path segment, never a full path.
#[derive(Debug, PartialEq)]
pub enum TreeItem {
    Dir { name: String, tree: TreeNode },
    Blob { name: String, id: String },
}

/// An immutable, ordered content tree: the entries of one directory level,
/// in the order the underlying object store yields them.
#[derive(Debug, PartialEq)]
pub struct TreeNode {
    pub entries: Vec<TreeItem>,
}

/// A flattened file entry: the slash-joined path from the tree root down to
/// a blob, paired with that blob's content identifier.
#[derive(Debug, Clone, PartialEq)]
pub struct FileDetails {
    pub name: String,
    pub tree_id: String,
}

/// The file listing of a single commit: the commit's identifier and the
/// flattened files of its root tree.
#[derive(Debug, Clone, PartialEq)]
pub struct CommitDetails {
    pub commit_id: String,
    pub files: Vec<FileDetails>,
}

/// A commit identifier paired with the commit's root tree, as loaded from
/// the object store; the pure listing code works on these.
#[derive(Debug, PartialEq)]
pub struct CommitSnapshot {
    pub commit_id: String,
    pub root: TreeNode,
}

/// Why a listing request failed.
#[derive(Debug, Clone, Copy, PartialEq, Eq, Structural)]
pub enum ListError {
    /// The named repository does not exist on disk: a client error.
    NotFound,
    /// The repository exists but could not be opened: a storage error.
    StorageOpenFailure,
    /// A commit's tree, or a nested subtree, could not be resolved
    /// mid-walk; the whole listing is aborted, never returned partially.
    TraversalFailure,
}

impl ListError {
    /// The HTTP status code equivalent of this error: repository-not-found
    /// is a client error, everything else a server error.
    pub fn http_status(&self) -> (s: u16)
        ensures
            s == 404 <==> *self is NotFound,
            s == 404 || s == 500,
    {
        match self {
            ListError::NotFound => 404,
            ListError::StorageOpenFailure => 500,
            ListError::TraversalFailure => 500,
        }
    }
}

} // verus!
