//! Paths as the dispatcher needs them: a directory's ancestors and a path
//! below a directory. A path is held as text; taking it apart and putting it
//! together is left to the standard library.

use std::path::Path;
use vstd::prelude::*;
use crate::text::texts_of;

verus! {

/// The parent that the standard library gives a path, if it gives one: the
/// path without its last component, as the platform's path syntax reads it.
pub uninterp spec fn parent_of(path: Seq<char>) -> Option<Seq<char>>;

/// The path that the standard library makes of `child` adjoined to `base`, as
/// the platform's path syntax has it.
pub uninterp spec fn joined(base: Seq<char>, child: Seq<char>) -> Seq<char>;

/// Calls `std::path::Path::parent` on `path`. The contract names the result
/// and claims of it only that a parent, lacking the last component, is
/// shorter than the path.
#[verifier::external_body]
fn parent_dir(path: &str) -> (parent: Option<String>)
    ensures
        parent is Some <==> parent_of(path@) is Some,
        parent matches Some(p) ==> parent_of(path@) == Some(p@) && p@.len() < path@.len(),
{
    match Path::new(path).parent() {
        Some(p) => Some(p.to_string_lossy().into_owned()),
        None => None,
    }
}

/// Calls `std::path::Path::join` on `base` with `child`. The contract names
/// the result and claims nothing else of it.
#[verifier::external_body]
pub(crate) fn join_path(base: &str, child: &str) -> (path: String)
    ensures
        path@ == joined(base@, child@),
{
    Path::new(base).join(child).to_string_lossy().into_owned()
}

/// A path followed by its parent, the parent's parent and so on, for as long
/// as there is a parent.
pub open spec fn ancestors_of(path: Seq<char>) -> Seq<Seq<char>>
    decreases path.len(),
{
    match parent_of(path) {
        Some(parent) => if parent.len() < path.len() {
            seq![path] + ancestors_of(parent)
        } else {
            seq![path]
        },
        None => seq![path],
    }
}

/// A directory and its ancestors, closest first.
pub fn ancestors(path: &str) -> (dirs: Vec<String>)
    ensures
        texts_of(dirs@) == ancestors_of(path@),
        dirs@.len() >= 1,
        dirs@[0]@ == path@,
{
    let mut dirs: Vec<String> = Vec::new();
    let mut current: String = path.to_owned();
    loop
        invariant
            texts_of(dirs@) + ancestors_of(current@) == ancestors_of(path@),
            dirs@.len() == 0 ==> current@ == path@,
            dirs@.len() > 0 ==> dirs@[0]@ == path@,
        decreases current@.len(),
    {
        let parent = parent_dir(current.as_str());
        let ghost before = texts_of(dirs@);
        dirs.push(current);
        assert(texts_of(dirs@) =~= before.push(current@));
        match parent {
            Some(p) => {
                assert(before + (seq![current@] + ancestors_of(p@)) =~= before.push(current@)
                    + ancestors_of(p@));
                current = p;
            },
            None => {
                assert(before + seq![current@] =~= before.push(current@));
                return dirs;
            },
        }
    }
}

} // verus!
