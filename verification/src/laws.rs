//! Laws of the flattener and the walker, stated over the spec-level model
//! and proved once and for all.

use vstd::prelude::*;
use crate::flatten::{flat_of_entries, flat_of_tree, listings_of};
use crate::model::{CommitSnapshot, TreeItem, TreeNode};
use crate::paths::child_prefix;

verus! {

/// The name of a tree item, directory or blob alike.
pub open spec fn item_name(e: TreeItem) -> Seq<char> {
    match e {
        TreeItem::Dir { name, tree } => name@,
        TreeItem::Blob { name, id } => name@,
    }
}

/// A valid path segment: nonempty and free of the path separator.
pub open spec fn valid_segment(n: Seq<char>) -> bool {
    n.len() > 0 && forall|i: int| 0 <= i < n.len() ==> n[i] != '/'
}

/// A well-formed item: its name is a valid segment, and a directory's
/// subtree is well-formed in turn.
pub open spec fn wf_item(e: TreeItem) -> bool
    decreases e,
{
    valid_segment(item_name(e)) && match e {
        TreeItem::Dir { name, tree } => wf_entries(tree.entries@),
        TreeItem::Blob { name, id } => true,
    }
}

/// Well-formed entries of one directory level: the first item is
/// well-formed and named differently from every later one, and the rest
/// are well-formed in turn; so names are pairwise distinct and every item
/// is well-formed.
pub open spec fn wf_entries(es: Seq<TreeItem>) -> bool
    decreases es,
{
    es.len() == 0 || {
        &&& (forall|j: int| 1 <= j < es.len() ==> item_name(es[0]) != #[trigger] item_name(es[j]))
        &&& wf_item(es[0])
        &&& wf_entries(es.subrange(1, es.len() as int))
    }
}

/// A well-formed tree: well-formed entries at every level.
pub open spec fn wf_tree(t: TreeNode) -> bool {
    wf_entries(t.entries@)
}

/// All paths in the listing are pairwise distinct.
pub open spec fn distinct_paths(s: Seq<(Seq<char>, Seq<char>)>) -> bool {
    forall|i: int, j: int| 0 <= i < j < s.len() ==> s[i].0 != s[j].0
}

/// The flattening of a single item: one pair for a blob, the flattening
/// of the subtree under the extended prefix for a directory.
pub open spec fn flat_of_item(e: TreeItem, parent: Option<Seq<char>>) -> Seq<
    (Seq<char>, Seq<char>),
>
    decreases e,
{
    match e {
        TreeItem::Blob { name, id } => seq![(child_prefix(parent, name@), id@)],
        TreeItem::Dir { name, tree } => flat_of_entries(
            tree.entries@,
            Option::Some(child_prefix(parent, name@)),
        ),
    }
}

/// `path` lies under the prefix `cp`: it starts with `cp`, and continues,
/// if at all, with a separator.
pub open spec fn extends_prefix(path: Seq<char>, cp: Seq<char>) -> bool {
    &&& path.len() >= cp.len()
    &&& path.subrange(0, cp.len() as int) == cp
    &&& (path.len() == cp.len() || path[cp.len() as int] == '/')
}

/// Every item of well-formed entries is well-formed.
proof fn lemma_wf_entries_item(es: Seq<TreeItem>, i: int)
    requires
        wf_entries(es),
        0 <= i < es.len(),
    ensures
        wf_item(es[i]),
    decreases i,
{
    if i > 0 {
        lemma_wf_entries_item(es.subrange(1, es.len() as int), i - 1);
        assert(es.subrange(1, es.len() as int)[i - 1] == es[i]);
    }
}

/// One step of the flattening recursion, as a named equation.
proof fn lemma_flat_unfold(es: Seq<TreeItem>, parent: Option<Seq<char>>)
    requires
        es.len() > 0,
    ensures
        flat_of_entries(es, parent) == flat_of_item(es[0], parent) + flat_of_entries(
            es.subrange(1, es.len() as int),
            parent,
        ),
{
    match es[0] {
        TreeItem::Blob { name, id } => {},
        TreeItem::Dir { name, tree } => {},
    }
}

/// Every path an item contributes lies under the item's own prefix.
proof fn lemma_item_paths_shape(e: TreeItem, parent: Option<Seq<char>>)
    ensures
        forall|k: int|
            0 <= k < flat_of_item(e, parent).len() ==> extends_prefix(
                (#[trigger] flat_of_item(e, parent)[k]).0,
                child_prefix(parent, item_name(e)),
            ),
    decreases e,
{
    let cp = child_prefix(parent, item_name(e));
    match e {
        TreeItem::Blob { name, id } => {
            assert forall|k: int| 0 <= k < flat_of_item(e, parent).len() implies extends_prefix(
                (#[trigger] flat_of_item(e, parent)[k]).0,
                cp,
            ) by {
                assert(flat_of_item(e, parent)[k].0 == cp);
                assert(cp.subrange(0, cp.len() as int) =~= cp);
            }
        },
        TreeItem::Dir { name, tree } => {
            lemma_entries_paths_extend(tree.entries@, cp);
            assert forall|k: int| 0 <= k < flat_of_item(e, parent).len() implies extends_prefix(
                (#[trigger] flat_of_item(e, parent)[k]).0,
                cp,
            ) by {
                assert(flat_of_item(e, parent)[k] == flat_of_entries(
                    tree.entries@,
                    Option::Some(cp),
                )[k]);
            }
        },
    }
}

/// Every path flattened under the explicit prefix `q` strictly extends
/// `q`: it starts with `q` followed by a separator.
proof fn lemma_entries_paths_extend(es: Seq<TreeItem>, q: Seq<char>)
    ensures
        forall|k: int|
            0 <= k < flat_of_entries(es, Option::Some(q)).len() ==> {
                let path = (#[trigger] flat_of_entries(es, Option::Some(q))[k]).0;
                path.len() > q.len() && path.subrange(0, q.len() as int) == q && path[
                    q.len() as int
                ] == '/'
            },
    decreases es,
{
    if es.len() == 0 {
    } else {
        let p = Option::Some(q);
        let name0 = item_name(es[0]);
        let cp = child_prefix(p, name0);
        let h = flat_of_item(es[0], p);
        let t = flat_of_entries(es.subrange(1, es.len() as int), p);
        lemma_flat_unfold(es, p);
        lemma_item_paths_shape(es[0], p);
        lemma_entries_paths_extend(es.subrange(1, es.len() as int), q);
        assert(cp =~= (q + seq!['/']) + name0);
        assert forall|k: int| 0 <= k < flat_of_entries(es, p).len() implies {
            let path = (#[trigger] flat_of_entries(es, p)[k]).0;
            path.len() > q.len() && path.subrange(0, q.len() as int) == q && path[q.len() as int]
                == '/'
        } by {
            if k < h.len() {
                let path = h[k].0;
                assert(flat_of_entries(es, p)[k] == h[k]);
                assert(extends_prefix(path, cp));
                assert(cp.len() == q.len() + 1 + name0.len());
                assert forall|x: int| 0 <= x < cp.len() implies path[x] == cp[x] by {
                    assert(path.subrange(0, cp.len() as int)[x] == path[x]);
                }
                assert(cp[q.len() as int] == '/');
                assert(path.subrange(0, q.len() as int) =~= q) by {
                    assert forall|x: int| 0 <= x < q.len() implies path.subrange(
                        0,
                        q.len() as int,
                    )[x] == q[x] by {
                        assert(path.subrange(0, q.len() as int)[x] == path[x]);
                        assert(cp[x] == q[x]);
                    }
                }
            } else {
                assert(flat_of_entries(es, p)[k] == t[k - h.len()]);
            }
        }
    }
}

/// Every flattened path lies under the prefix of one of the top-level
/// entries.
proof fn lemma_paths_from_some_entry(es: Seq<TreeItem>, parent: Option<Seq<char>>)
    ensures
        forall|k: int|
            0 <= k < flat_of_entries(es, parent).len() ==> exists|i: int|
                0 <= i < es.len() && extends_prefix(
                    (#[trigger] flat_of_entries(es, parent)[k]).0,
                    child_prefix(parent, item_name(es[i])),
                ),
    decreases es,
{
    if es.len() == 0 {
    } else {
        let h = flat_of_item(es[0], parent);
        let rest = es.subrange(1, es.len() as int);
        let t = flat_of_entries(rest, parent);
        lemma_flat_unfold(es, parent);
        lemma_item_paths_shape(es[0], parent);
        lemma_paths_from_some_entry(rest, parent);
        assert forall|k: int| 0 <= k < flat_of_entries(es, parent).len() implies exists|i: int|
            0 <= i < es.len() && extends_prefix(
                (#[trigger] flat_of_entries(es, parent)[k]).0,
                child_prefix(parent, item_name(es[i])),
            ) by {
            if k < h.len() {
                assert(flat_of_entries(es, parent)[k] == h[k]);
                assert(extends_prefix(
                    flat_of_entries(es, parent)[k].0,
                    child_prefix(parent, item_name(es[0])),
                ));
            } else {
                assert(flat_of_entries(es, parent)[k] == t[k - h.len()]);
                let i0 = choose|i: int|
                    0 <= i < rest.len() && extends_prefix(
                        t[k - h.len()].0,
                        child_prefix(parent, item_name(rest[i])),
                    );
                assert(rest[i0] == es[i0 + 1]);
                assert(extends_prefix(
                    flat_of_entries(es, parent)[k].0,
                    child_prefix(parent, item_name(es[i0 + 1])),
                ));
            }
        }
    }
}

/// Two paths under the prefixes of two differently named siblings differ;
/// the version below assumes the first name is no longer than the second.
proof fn lemma_sibling_paths_differ_le(
    parent: Option<Seq<char>>,
    n1: Seq<char>,
    n2: Seq<char>,
    p1: Seq<char>,
    p2: Seq<char>,
)
    requires
        valid_segment(n1),
        valid_segment(n2),
        n1 != n2,
        n1.len() <= n2.len(),
        extends_prefix(p1, child_prefix(parent, n1)),
        extends_prefix(p2, child_prefix(parent, n2)),
    ensures
        p1 != p2,
{
    let base = match parent {
        Option::None => Seq::<char>::empty(),
        Option::Some(q) => q + seq!['/'],
    };
    let cp1 = child_prefix(parent, n1);
    let cp2 = child_prefix(parent, n2);
    assert(cp1 =~= base + n1);
    assert(cp2 =~= base + n2);
    if p1 == p2 {
        assert forall|x: int| 0 <= x < cp1.len() implies p1[x] == cp1[x] by {
            assert(p1.subrange(0, cp1.len() as int)[x] == p1[x]);
        }
        assert forall|x: int| 0 <= x < cp2.len() implies p1[x] == cp2[x] by {
            assert(p2.subrange(0, cp2.len() as int)[x] == p2[x]);
        }
        if n1.len() == n2.len() {
            assert(n1 =~= n2) by {
                assert forall|y: int| 0 <= y < n1.len() implies n1[y] == n2[y] by {
                    assert(cp1[base.len() + y] == n1[y]);
                    assert(cp2[base.len() + y] == n2[y]);
                    assert(p1[base.len() + y] == cp1[base.len() + y]);
                    assert(p1[base.len() + y] == cp2[base.len() + y]);
                }
            }
            assert(false);
        } else {
            let y = cp1.len() as int;
            assert(p1.len() >= cp2.len());
            assert(cp2.len() > cp1.len());
            assert(p1[y] == '/');
            assert(cp2[y] == n2[n1.len() as int]);
            assert(n2[n1.len() as int] != '/');
            assert(false);
        }
    }
}

/// Two paths under the prefixes of two differently named siblings differ.
proof fn lemma_sibling_paths_differ(
    parent: Option<Seq<char>>,
    n1: Seq<char>,
    n2: Seq<char>,
    p1: Seq<char>,
    p2: Seq<char>,
)
    requires
        valid_segment(n1),
        valid_segment(n2),
        n1 != n2,
        extends_prefix(p1, child_prefix(parent, n1)),
        extends_prefix(p2, child_prefix(parent, n2)),
    ensures
        p1 != p2,
{
    if n1.len() <= n2.len() {
        lemma_sibling_paths_differ_le(parent, n1, n2, p1, p2);
    } else {
        lemma_sibling_paths_differ_le(parent, n2, n1, p2, p1);
    }
}

/// Flattening well-formed entries never yields two equal paths.
proof fn lemma_flat_paths_distinct_entries(es: Seq<TreeItem>, parent: Option<Seq<char>>)
    requires
        wf_entries(es),
    ensures
        distinct_paths(flat_of_entries(es, parent)),
    decreases es,
{
    if es.len() == 0 {
    } else {
        let name0 = item_name(es[0]);
        let cp0 = child_prefix(parent, name0);
        let h = flat_of_item(es[0], parent);
        let rest = es.subrange(1, es.len() as int);
        let t = flat_of_entries(rest, parent);
        lemma_flat_unfold(es, parent);
        lemma_item_paths_shape(es[0], parent);
        lemma_paths_from_some_entry(rest, parent);
        // the head item's own paths are distinct
        match es[0] {
            TreeItem::Blob { name, id } => {},
            TreeItem::Dir { name, tree } => {
                assert(wf_item(es[0]));
                lemma_flat_paths_distinct_entries(
                    tree.entries@,
                    Option::Some(child_prefix(parent, name@)),
                );
            },
        }
        assert(distinct_paths(h));
        // the remaining entries are well-formed, so their paths are distinct
        assert(wf_entries(rest));
        lemma_flat_paths_distinct_entries(rest, parent);
        // a head path and a tail path lie under differently named siblings
        assert forall|a: int, b: int|
            0 <= a < h.len() && h.len() <= b < (h + t).len() implies (h + t)[a].0 != (h + t)[
            b
        ].0 by {
            assert((h + t)[a] == h[a]);
            assert((h + t)[b] == t[b - h.len()]);
            assert(extends_prefix(h[a].0, cp0));
            let i0 = choose|i: int|
                0 <= i < rest.len() && extends_prefix(
                    t[b - h.len()].0,
                    child_prefix(parent, item_name(rest[i])),
                );
            assert(rest[i0] == es[i0 + 1]);
            assert(item_name(es[0]) != item_name(es[i0 + 1]));
            assert(wf_item(es[0]));
            lemma_wf_entries_item(es, i0 + 1);
            lemma_sibling_paths_differ(
                parent,
                name0,
                item_name(es[i0 + 1]),
                h[a].0,
                t[b - h.len()].0,
            );
        }
        assert forall|a: int, b: int| 0 <= a < b < (h + t).len() implies (h + t)[a].0 != (h + t)[
            b
        ].0 by {
            if b < h.len() {
                assert((h + t)[a] == h[a]);
                assert((h + t)[b] == h[b]);
            } else if a >= h.len() {
                assert((h + t)[a] == t[a - h.len()]);
                assert((h + t)[b] == t[b - h.len()]);
            }
        }
    }
}

/// No duplicate paths: flattening a well-formed tree — distinct sibling
/// names that are nonempty and free of separators, at every level —
/// yields a listing whose paths are pairwise distinct, under any parent
/// prefix.
pub proof fn lemma_flat_paths_distinct(t: TreeNode, parent: Option<Seq<char>>)
    requires
        wf_tree(t),
    ensures
        distinct_paths(flat_of_tree(t, parent)),
{
    lemma_flat_paths_distinct_entries(t.entries@, parent);
}

/// A history with no commits is owed the empty listing, never an error
/// value: the listing of an empty snapshot sequence is empty.
pub proof fn lemma_empty_history(cs: Seq<CommitSnapshot>)
    requires
        cs.len() == 0,
    ensures
        listings_of(cs).len() == 0,
{
}

/// Commit listing is deterministic: the listing is a function of the
/// loaded history alone, so two walks of an unchanged repository that
/// yield the same snapshots are owed identical listings.
pub proof fn lemma_listings_deterministic(a: Seq<CommitSnapshot>, b: Seq<CommitSnapshot>)
    requires
        a == b,
    ensures
        listings_of(a) == listings_of(b),
{
}

/// Path reconstruction composes: a tree holding a single directory `a`,
/// holding a single directory `b`, holding a single blob `c`, flattens to
/// exactly one entry, with path `a/b/c`.
pub proof fn lemma_path_reconstruction(
    t: TreeNode,
    a: Seq<char>,
    b: Seq<char>,
    c: Seq<char>,
    h: Seq<char>,
)
    requires
        t.entries@.len() == 1,
        t.entries@[0] matches TreeItem::Dir { name: n0, tree: t1 } && n0@ == a
            && t1.entries@.len() == 1 && (t1.entries@[0] matches TreeItem::Dir {
            name: n1,
            tree: t2,
        } && n1@ == b && t2.entries@.len() == 1 && (t2.entries@[0] matches TreeItem::Blob {
            name: n2,
            id,
        } && n2@ == c && id@ == h)),
    ensures
        flat_of_tree(t, Option::None) =~= seq![((a + seq!['/'] + b) + seq!['/'] + c, h)],
{
    let e0 = t.entries@[0];
    match e0 {
        TreeItem::Dir { name: n0, tree: t1 } => {
            let e1 = t1.entries@[0];
            match e1 {
                TreeItem::Dir { name: n1, tree: t2 } => {
                    let e2 = t2.entries@[0];
                    lemma_flat_unfold(t.entries@, Option::None);
                    lemma_flat_unfold(t1.entries@, Option::Some(a));
                    lemma_flat_unfold(t2.entries@, Option::Some(a + seq!['/'] + b));
                    assert(t.entries@.subrange(1, 1) =~= Seq::<TreeItem>::empty());
                    assert(t1.entries@.subrange(1, 1) =~= Seq::<TreeItem>::empty());
                    assert(t2.entries@.subrange(1, 1) =~= Seq::<TreeItem>::empty());
                    assert(flat_of_entries(Seq::<TreeItem>::empty(), Option::None).len() == 0);
                },
                TreeItem::Blob { name, id } => {
                    assert(false);
                },
            }
        },
        TreeItem::Blob { name, id } => {
            assert(false);
        },
    }
}

/// An empty tree flattens to nothing.
pub proof fn lemma_empty_tree(t: TreeNode, parent: Option<Seq<char>>)
    requires
        t.entries@.len() == 0,
    ensures
        flat_of_tree(t, parent).len() == 0,
{
}

/// Empty directories contribute zero entries: removing an entry that is
/// a directory with an empty subtree leaves the flattening unchanged, at
/// any position and under any prefix.
pub proof fn lemma_empty_dir_removable(es: Seq<TreeItem>, i: int, parent: Option<Seq<char>>)
    requires
        0 <= i < es.len(),
        es[i] matches TreeItem::Dir { name, tree } && tree.entries@.len() == 0,
    ensures
        flat_of_entries(es.remove(i), parent) == flat_of_entries(es, parent),
    decreases es.len(),
{
    let rest = es.subrange(1, es.len() as int);
    lemma_flat_unfold(es, parent);
    if i == 0 {
        match es[0] {
            TreeItem::Dir { name, tree } => {
                assert(flat_of_item(es[0], parent) =~= Seq::<(Seq<char>, Seq<char>)>::empty());
            },
            TreeItem::Blob { name, id } => {
                assert(false);
            },
        }
        assert(es.remove(0) =~= rest);
        assert(flat_of_entries(es, parent) =~= flat_of_entries(rest, parent));
    } else {
        assert(rest[i - 1] == es[i]);
        lemma_empty_dir_removable(rest, i - 1, parent);
        let removed = es.remove(i);
        assert(removed.len() == es.len() - 1);
        assert(removed[0] == es[0]);
        lemma_flat_unfold(removed, parent);
        assert(removed.subrange(1, removed.len() as int) =~= rest.remove(i - 1));
    }
}

/// Empty directories contribute zero entries: a tree holding one empty
/// subdirectory and one blob flattens to exactly the blob's entry.
pub proof fn lemma_empty_dir_contributes_nothing(
    t: TreeNode,
    d: Seq<char>,
    f: Seq<char>,
    h: Seq<char>,
)
    requires
        t.entries@.len() == 2,
        t.entries@[0] matches TreeItem::Dir { name: n0, tree: sub } && n0@ == d
            && sub.entries@.len() == 0,
        t.entries@[1] matches TreeItem::Blob { name: n1, id } && n1@ == f && id@ == h,
    ensures
        flat_of_tree(t, Option::None) =~= seq![(f, h)],
{
    let e0 = t.entries@[0];
    match e0 {
        TreeItem::Dir { name: n0, tree: sub } => {
            lemma_flat_unfold(t.entries@, Option::None);
            let rest = t.entries@.subrange(1, 2);
            assert(rest.len() == 1);
            assert(rest[0] == t.entries@[1]);
            lemma_flat_unfold(rest, Option::None);
            assert(rest.subrange(1, 1) =~= Seq::<TreeItem>::empty());
            assert(flat_of_entries(sub.entries@, Option::Some(d)).len() == 0);
            assert(flat_of_entries(Seq::<TreeItem>::empty(), Option::None).len() == 0);
        },
        TreeItem::Blob { name, id } => {
            assert(false);
        },
    }
}

} // verus!
