//! The content tree flattener: depth-first, pre-order traversal of a
//! `TreeNode`, producing one (path, content identifier) pair per blob.

use vstd::prelude::*;
use crate::model::{CommitDetails, CommitSnapshot, FileDetails, TreeNode, TreeItem};
use crate::paths::{child_prefix, entry_path, view_opt};

verus! {

/// The flattened (path, content identifier) pairs of every blob
/// transitively under the given entries, under the given parent prefix:
/// depth-first, pre-order, entries in store order. Directory entries
/// contribute only to path construction, never to the output.
///
/// Name collisions at one level are not validated: every entry is
/// traversed in store order, so colliding names yield one output entry
/// each. The distinct-paths law (`laws::lemma_flat_paths_distinct`)
/// holds for trees without such collisions (`laws::wf_tree`).
pub open spec fn flat_of_entries(es: Seq<TreeItem>, parent: Option<Seq<char>>) -> Seq<
    (Seq<char>, Seq<char>),
>
    decreases es,
{
    if es.len() == 0 {
        Seq::empty()
    } else {
        (match es[0] {
            TreeItem::Blob { name, id } => seq![(child_prefix(parent, name@), id@)],
            TreeItem::Dir { name, tree } => flat_of_entries(
                tree.entries@,
                Option::Some(child_prefix(parent, name@)),
            ),
        }) + flat_of_entries(es.subrange(1, es.len() as int), parent)
    }
}

/// The flattened file listing of a whole tree under an optional prefix.
pub open spec fn flat_of_tree(t: TreeNode, parent: Option<Seq<char>>) -> Seq<(Seq<char>, Seq<char>)> {
    flat_of_entries(t.entries@, parent)
}

/// The mathematical value of a list of flattened file entries.
pub open spec fn files_view(fs: Seq<FileDetails>) -> Seq<(Seq<char>, Seq<char>)> {
    fs.map(|i: int, f: FileDetails| (f.name@, f.tree_id@))
}

/// Flattens a content tree under an optional parent path: every blob
/// transitively reachable under `tree` yields one entry whose path is the
/// slash-joined concatenation of its ancestor directory names and its own
/// name, in depth-first pre-order.
pub fn tree_recur(tree: &TreeNode, parent_name: &Option<String>) -> (files: Vec<FileDetails>)
    ensures
        files_view(files@) == flat_of_tree(*tree, view_opt(*parent_name)),
    decreases *tree,
{
    let ghost p = view_opt(*parent_name);
    let mut files: Vec<FileDetails> = Vec::new();
    let n = tree.entries.len();
    let mut i: usize = 0;
    proof {
        assert(tree.entries@.subrange(0, n as int) =~= tree.entries@);
        assert(files_view(files@) =~= Seq::<(Seq<char>, Seq<char>)>::empty());
        assert(files_view(files@) + flat_of_entries(tree.entries@, p) =~= flat_of_entries(
            tree.entries@,
            p,
        ));
    }
    while i < n
        invariant
            i <= n,
            n == tree.entries@.len(),
            p == view_opt(*parent_name),
            files_view(files@) + flat_of_entries(tree.entries@.subrange(i as int, n as int), p)
                == flat_of_tree(*tree, p),
        decreases n - i,
    {
        let ghost rest = tree.entries@.subrange(i as int, n as int);
        proof {
            assert(rest[0] == tree.entries@[i as int]);
            assert(rest.subrange(1, rest.len() as int) =~= tree.entries@.subrange(
                i + 1,
                n as int,
            ));
        }
        let entry = &tree.entries[i];
        match entry {
            TreeItem::Dir { name, tree: sub } => {
                let child = entry_path(parent_name, name.as_str());
                let mut children = tree_recur(sub, &Option::Some(child));
                proof {
                    assert(files_view(files@ + children@) =~= files_view(files@) + files_view(
                        children@,
                    ));
                }
                files.append(&mut children);
            },
            TreeItem::Blob { name, id } => {
                let path = entry_path(parent_name, name.as_str());
                let fd = FileDetails { name: path, tree_id: id.clone() };
                proof {
                    assert(files_view(files@.push(fd)) =~= files_view(files@) + seq![
                        (fd.name@, fd.tree_id@),
                    ]);
                }
                files.push(fd);
            },
        }
        i += 1;
    }
    proof {
        assert(tree.entries@.subrange(n as int, n as int) =~= Seq::<TreeItem>::empty());
        assert(files_view(files@) + Seq::<(Seq<char>, Seq<char>)>::empty() =~= files_view(files@));
    }
    files
}

/// The mathematical value of one commit's listing.
pub open spec fn listing_view(c: CommitDetails) -> (Seq<char>, Seq<(Seq<char>, Seq<char>)>) {
    (c.commit_id@, files_view(c.files@))
}

/// The mathematical value of a list of commit listings.
pub open spec fn details_view(ds: Seq<CommitDetails>) -> Seq<
    (Seq<char>, Seq<(Seq<char>, Seq<char>)>),
> {
    ds.map(|i: int, c: CommitDetails| listing_view(c))
}

/// The listings owed for a sequence of commit snapshots: per commit, its
/// identifier and the flattening of its root tree, in the same order.
pub open spec fn listings_of(cs: Seq<CommitSnapshot>) -> Seq<
    (Seq<char>, Seq<(Seq<char>, Seq<char>)>),
> {
    cs.map(|i: int, c: CommitSnapshot| (c.commit_id@, flat_of_tree(c.root, Option::None)))
}

/// Builds the listing of one commit: its identifier together with the
/// flattening of its root tree.
pub fn commit_listing(commit_id: String, root: &TreeNode) -> (r: CommitDetails)
    ensures
        listing_view(r) == (commit_id@, flat_of_tree(*root, Option::None::<Seq<char>>)),
{
    let files = tree_recur(root, &Option::None);
    CommitDetails { commit_id, files }
}

/// Builds the listings of a whole history: one `CommitDetails` per
/// snapshot, in order, each carrying the flattening of that commit's root
/// tree.
pub fn list_from_commits(cs: Vec<CommitSnapshot>) -> (r: Vec<CommitDetails>)
    ensures
        details_view(r@) == listings_of(cs@),
{
    let ghost cs0 = cs@;
    let mut r: Vec<CommitDetails> = Vec::new();
    let mut rest = cs;
    while rest.len() > 0
        invariant
            rest@ =~= cs0.subrange(r@.len() as int, cs0.len() as int),
            details_view(r@) =~= listings_of(cs0.subrange(0, r@.len() as int)),
            r@.len() <= cs0.len(),
        decreases rest@.len(),
    {
        let ghost k = r@.len() as int;
        let c = rest.remove(0);
        proof {
            assert(c == cs0[k]);
            assert(rest@ =~= cs0.subrange(k + 1, cs0.len() as int));
        }
        let CommitSnapshot { commit_id, root } = c;
        proof {
            assert(commit_id@ == cs0[k].commit_id@);
            assert(root == cs0[k].root);
        }
        let d = commit_listing(commit_id, &root);
        let ghost r0 = r@;
        r.push(d);
        proof {
            assert(listing_view(d) == (cs0[k].commit_id@, flat_of_tree(
                cs0[k].root,
                Option::None::<Seq<char>>,
            )));
            let sub = cs0.subrange(0, k + 1);
            assert forall|j: int| 0 <= j < k + 1 implies details_view(r@)[j] == listings_of(sub)[
                j
            ] by {
                assert(sub[j] == cs0[j]);
                assert(details_view(r@)[j] == listing_view(r@[j]));
                if j < k {
                    assert(r@[j] == r0[j]);
                    assert(details_view(r0)[j] == listing_view(r0[j]));
                    assert(cs0.subrange(0, k)[j] == cs0[j]);
                } else {
                    assert(r@[j] == d);
                }
            }
            assert(details_view(r@) =~= listings_of(sub));
        }
    }
    proof {
        assert(cs0.subrange(0, cs0.len() as int) =~= cs0);
    }
    r
}

} // verus!
