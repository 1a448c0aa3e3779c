//! Path reconstruction: slash-joining of path segments, and the naming
//! convention that locates a repository on disk.

use vstd::prelude::*;
use vstd::string::StringExecFns;

verus! {

/// The path of a child entry: the parent prefix (if any), a slash, and the
/// entry's own name; at the root the path is the name alone.
pub open spec fn child_prefix(parent: Option<Seq<char>>, name: Seq<char>) -> Seq<char> {
    match parent {
        Option::None => name,
        Option::Some(p) => p + seq!['/'] + name,
    }
}

/// Joins a parent path and a child segment with a slash.
pub fn join_path(parent: &str, name: &str) -> (r: String)
    ensures
        r@ == parent@ + seq!['/'] + name@,
{
    proof {
        reveal_strlit("/");
        assert("/"@ =~= seq!['/']);
    }
    let mut r: String = parent.to_owned();
    r.append("/");
    r.append(name);
    r
}

/// The full path of an entry under an optional parent prefix.
pub fn entry_path(parent: &Option<String>, name: &str) -> (r: String)
    ensures
        r@ == child_prefix(view_opt(*parent), name@),
{
    match parent {
        Option::None => name.to_owned(),
        Option::Some(p) => join_path(p.as_str(), name),
    }
}

/// The view of an optional string: an optional sequence of characters.
pub open spec fn view_opt(p: Option<String>) -> Option<Seq<char>> {
    match p {
        Option::None => Option::None,
        Option::Some(s) => Option::Some(s@),
    }
}

/// The on-disk location of the repository with the given name: the bare
/// repository directory `repos/<name>.git`, relative to the host's working
/// directory. The name is spliced in unsanitized: the naming convention is
/// a deliberate simplification, and a name containing path separators will
/// escape the `repos` directory.
pub fn repo_path_of(name: &str) -> (r: String)
    ensures
        r@ == "repos/"@ + name@ + ".git"@,
{
    let mut r: String = "repos/".to_owned();
    r.append(name);
    r.append(".git");
    r
}

} // verus!
