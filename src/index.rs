//! The entry index and the fuzzy matcher, both supplied by `bloodhound`.
//!
//! An `Index` is seen through the relative paths it holds, in the order in
//! which it found them. The ranking that a search applies to them is
//! `bloodhound`'s own and is only named here.
use std::path::PathBuf;
use bloodhound::Index;
use vstd::prelude::*;

verus! {

#[verifier::external_type_specification]
#[verifier::external_body]
pub struct ExPathBuf(PathBuf);

#[verifier::external_type_specification]
#[verifier::external_body]
pub struct ExIndex(Index);

/// The relative paths that an index holds, in the order it holds them.
pub uninterp spec fn index_entries(index: Index) -> Seq<Seq<char>>;

/// The text of the root location that an index walks.
pub uninterp spec fn index_root(index: Index) -> Seq<char>;

/// The text that an index is rooted at for a root location whose text is
/// `t`: `t` followed by a separator and `.`. Walking it lists the directory
/// `t` as `t/./name`, and where `t` is a file it fails at once.
pub open spec fn walk_root(t: Seq<char>) -> Seq<char> {
    t + seq!['/', '.']
}

/// A root text that `populate` can cut its found paths against: a text of
/// at least one character followed by `/.`. Each path found beneath it is
/// that text, one separator and a name, and `populate` cuts the text's
/// length plus one, which lands just after the separator.
pub open spec fn walkable_root(w: Seq<char>) -> bool {
    w.len() >= 3 && w[w.len() - 2] == '/' && w[w.len() - 1] == '.'
}

/// The text of a path, where it is valid Unicode.
pub uninterp spec fn path_string(p: PathBuf) -> Option<Seq<char>>;

/// The paths that `bloodhound` ranks first for `term` among `entries`, at
/// most `limit` of them, most relevant first.
pub uninterp spec fn ranked(entries: Seq<Seq<char>>, term: Seq<char>, limit: nat) -> Seq<Seq<char>>;

/// Relies on `Path::to_str`: the path's text where it is valid Unicode,
/// nothing where it is not.
#[verifier::external_body]
pub(crate) fn path_text(path: &PathBuf) -> (r: Option<String>)
    ensures
        r is None ==> path_string(*path) is None,
        r matches Some(t) ==> path_string(*path) == Some(t@),
{
    path.to_str().map(|t| t.to_string())
}

/// Relies on `Path::is_dir`: whether the path names a directory right now.
/// What the file system holds is not known here, so nothing is promised.
#[verifier::external_body]
pub(crate) fn is_directory(path: &PathBuf) -> (r: bool) {
    path.is_dir()
}

/// Relies on `bloodhound::Index::new`: an index rooted at `root` that holds
/// no entry yet.
#[verifier::external_body]
pub(crate) fn index_new(root: String) -> (r: Index)
    ensures
        index_entries(r) == Seq::<Seq<char>>::empty(),
        index_root(r) == root@,
{
    Index::new(PathBuf::from(root))
}

/// Relies on `bloodhound::Index::populate`: walks the directory under the
/// index's root and adds each file found, as a path relative to the root,
/// with no exclusion. What is found depends on the file system, so nothing
/// is promised of it. `populate` cuts each found path after the root's text
/// and one separator, and finds the root itself too where it is a file; a
/// root of the `walk_root` shape is never a file, so each cut lands after a
/// separator. The entries are read as the paths found, which is what the
/// index matches against only with `case_sensitive`.
#[verifier::external_body]
pub(crate) fn index_populate(index: &mut Index, case_sensitive: bool)
    requires
        walkable_root(index_root(*old(index))),
        case_sensitive,
{
    index.populate(None, case_sensitive)
}

/// Relies on `bloodhound::Index::find`: the entries that score above zero
/// against `term`, best first, cut to `limit`. Each result is one of the
/// index's entries, handed out as a `String`.
#[verifier::external_body]
pub(crate) fn index_find(index: &Index, term: &str, limit: usize) -> (r: Vec<String>)
    ensures
        r@.map_values(|p: String| p@) == ranked(index_entries(*index), term@, limit as nat),
        r@.len() <= limit,
        forall|k: int| 0 <= k < r@.len() ==> index_entries(*index).contains(#[trigger] r@[k]@),
{
    index.find(term, limit).into_iter().map(|p| p.to_string_lossy().into_owned()).collect()
}

} // verus!
