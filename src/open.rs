//! The open-mode controller: query text, last results and a bounded cursor.
use std::path::PathBuf;
use bloodhound::Index;
use vstd::prelude::*;
use vstd::string::{StrSliceExecFns, StringExecFns};
use crate::index::{
    index_entries, index_find, index_new, index_populate, is_directory, path_string, path_text,
    ranked, walk_root, walkable_root,
};

verus! {

/// The most results that one search keeps.
pub const MAX_RESULTS: usize = 5;

/// Whether the index matches queries against paths with their case kept.
pub const MATCH_CASE: bool = true;

/// Where the cursor goes on a move forward: one step, up to and including
/// `len`, which stands for "nothing selected".
pub open spec fn next_cursor(c: int, len: int) -> int {
    if c < len {
        c + 1
    } else {
        c
    }
}

/// Where the cursor goes on a move back: one step, never below zero.
pub open spec fn previous_cursor(c: int) -> int {
    if c > 0 {
        c - 1
    } else {
        c
    }
}

/// The cursor after `n` moves forward over a list of `len` results.
pub open spec fn cursor_after_nexts(c: int, len: int, n: nat) -> int
    decreases n,
{
    if n == 0 {
        c
    } else {
        next_cursor(cursor_after_nexts(c, len, (n - 1) as nat), len)
    }
}

/// The cursor after `n` moves back.
pub open spec fn cursor_after_previouses(c: int, n: nat) -> int
    decreases n,
{
    if n == 0 {
        c
    } else {
        previous_cursor(cursor_after_previouses(c, (n - 1) as nat))
    }
}

/// The path that cursor `c` designates in `results`, if any.
pub open spec fn selection(results: Seq<Seq<char>>, c: int) -> Option<Seq<char>> {
    if 0 <= c < results.len() {
        Some(results[c])
    } else {
        None
    }
}

/// What an open mode holds, seen as mathematical values.
pub struct OpenModeView {
    /// The query text.
    pub query: Seq<char>,
    /// The paths of the last search, most relevant first.
    pub results: Seq<Seq<char>>,
    /// The selection cursor; `results.len()` stands for "nothing selected".
    pub cursor: int,
    /// The paths that the index holds, in its order.
    pub entries: Seq<Seq<char>>,
}

/// `post` is what a search leaves from `pre`: the results replaced by the
/// matcher's ranking of the entries for the query, all else as it was.
pub open spec fn searched(pre: OpenModeView, post: OpenModeView) -> bool {
    post == (OpenModeView { results: ranked(pre.entries, pre.query, MAX_RESULTS as nat), ..pre })
}

/// Why an open mode could not be built.
#[derive(Debug, Clone, Copy, PartialEq, Eq, Structural)]
pub enum OpenError {
    /// The root location does not name a directory.
    RootNotADirectory,
    /// The root location's text is not valid Unicode.
    RootNotUnicode,
}

/// The text to root the index at, for a root location whose text is
/// `text`: `text` followed by `/.`. An empty text names no directory.
pub fn walk_root_text(text: String) -> (r: Result<String, OpenError>)
    ensures
        text@.len() == 0 ==> r == Err::<String, OpenError>(OpenError::RootNotADirectory),
        text@.len() > 0 ==> (r matches Ok(w) && w@ == walk_root(text@)),
{
    if text.unicode_len() == 0 {
        return Err(OpenError::RootNotADirectory);
    }
    let walk = text.concat("/.");
    proof {
        reveal_strlit("/.");
        assert(walk_root(text@) =~= walk@);
    }
    Ok(walk)
}

/// The state of one open-file session. The index is private so that it is
/// only ever filled by `new`; the cursor is private so that it moves only by
/// the two navigation methods.
pub struct OpenMode {
    /// The query text, edited by the caller between searches.
    pub input: String,
    /// The paths found by the last search, most relevant first.
    pub results: Vec<String>,
    index: Index,
    selected_result_index: usize,
}

impl View for OpenMode {
    type V = OpenModeView;

    closed spec fn view(&self) -> OpenModeView {
        OpenModeView {
            query: self.input@,
            results: self.results@.map_values(|p: String| p@),
            cursor: self.selected_result_index as int,
            entries: index_entries(self.index),
        }
    }
}

impl OpenMode {
    /// The path under the cursor, or `None` when the cursor is past the end
    /// of the results (an empty list included).
    pub fn selected_path(&self) -> (r: Option<String>)
        ensures
            r matches Some(p) ==> selection(self@.results, self@.cursor) == Some(p@),
            r is None ==> selection(self@.results, self@.cursor) is None,
    {
        if self.selected_result_index < self.results.len() {
            Some(self.results[self.selected_result_index].clone())
        } else {
            None
        }
    }

    /// The raw cursor, whether or not it designates a result.
    pub fn selected_index(&self) -> (r: usize)
        ensures
            r as int == self@.cursor,
    {
        self.selected_result_index
    }

    /// Replaces the query text; nothing else changes.
    pub fn set_query(&mut self, q: String)
        ensures
            final(self)@ == (OpenModeView { query: q@, ..old(self)@ }),
    {
        self.input = q;
    }

    /// Replaces the results with the matcher's ranking of the indexed paths
    /// for the current query, at most `MAX_RESULTS` of them. The cursor is
    /// left where it was, even past the end of the new results.
    pub fn search(&mut self)
        ensures
            searched(old(self)@, final(self)@),
            final(self)@.results.len() <= MAX_RESULTS,
            forall|k: int|
                0 <= k < final(self)@.results.len() ==> old(self)@.entries.contains(
                    #[trigger] final(self)@.results[k],
                ),
    {
        let found = index_find(&self.index, self.input.as_str(), MAX_RESULTS);
        self.results = found;
    }

    /// Moves the cursor one result forward; it may reach the length of the
    /// results, where nothing is selected, and stops there.
    pub fn select_next_path(&mut self)
        ensures
            final(self)@ == (OpenModeView {
                cursor: next_cursor(old(self)@.cursor, old(self)@.results.len() as int),
                ..old(self)@
            }),
    {
        if self.selected_result_index < self.results.len() {
            self.selected_result_index = self.selected_result_index + 1;
        }
    }

    /// Moves the cursor one result back, stopping at zero.
    pub fn select_previous_path(&mut self)
        ensures
            final(self)@ == (OpenModeView { cursor: previous_cursor(old(self)@.cursor), ..old(self)@ }),
    {
        if self.selected_result_index > 0 {
            self.selected_result_index = self.selected_result_index - 1;
        }
    }
}

/// Builds an open mode over the directory `path`: its index is filled with
/// every file beneath it, the query and the results are empty and the cursor
/// is at zero. A root whose text is not Unicode is refused, and so is one
/// that is empty or no directory.
pub fn new(path: PathBuf) -> (r: Result<OpenMode, OpenError>)
    ensures
        path_string(path) is None ==> r == Err::<OpenMode, OpenError>(OpenError::RootNotUnicode),
        path_string(path) matches Some(t) && t.len() == 0 ==> r == Err::<OpenMode, OpenError>(
            OpenError::RootNotADirectory,
        ),
        r is Ok ==> (path_string(path) matches Some(t) && t.len() > 0),
        r matches Ok(m) ==> m@.query == Seq::<char>::empty() && m@.results == Seq::<Seq<char>>::empty()
            && m@.cursor == 0,
{
    let text = match path_text(&path) {
        Some(t) => t,
        None => {
            return Err(OpenError::RootNotUnicode);
        },
    };
    let walk = match walk_root_text(text) {
        Ok(w) => w,
        Err(e) => {
            return Err(e);
        },
    };
    if !is_directory(&path) {
        return Err(OpenError::RootNotADirectory);
    }
    let mut index = index_new(walk);
    index_populate(&mut index, MATCH_CASE);
    let mode = OpenMode {
        input: String::new(),
        results: Vec::new(),
        index: index,
        selected_result_index: 0,
    };
    Ok(mode)
}

/// The cursor is never negative.
pub proof fn lemma_cursor_is_nonnegative(m: OpenMode)
    ensures
        m@.cursor >= 0,
{
}

/// With no results, nothing is selected, wherever the cursor stands.
pub proof fn lemma_empty_results_select_nothing(m: OpenMode)
    requires
        m@.results.len() == 0,
    ensures
        selection(m@.results, m@.cursor) is None,
{
}

/// Moving forward `n` times from a cursor within `0..=len` stops at `len`:
/// the cursor ends at the smaller of `c + n` and `len`.
pub proof fn lemma_nexts_stop_at_end(c: int, len: int, n: nat)
    requires
        0 <= c <= len,
    ensures
        cursor_after_nexts(c, len, n) == (if c + n <= len { c + n } else { len }),
    decreases n,
{
    if n > 0 {
        lemma_nexts_stop_at_end(c, len, (n - 1) as nat);
    }
}

/// Moving back `n` times from a cursor `c >= 0` stops at zero: the cursor
/// ends at the larger of `c - n` and zero, and never goes negative.
pub proof fn lemma_previouses_stop_at_zero(c: int, n: nat)
    requires
        0 <= c,
    ensures
        cursor_after_previouses(c, n) == (if c - n >= 0 { c - n } else { 0 }),
        cursor_after_previouses(c, n) >= 0,
    decreases n,
{
    if n > 0 {
        lemma_previouses_stop_at_zero(c, (n - 1) as nat);
    }
}

/// A move forward with the cursor at the end of the results, or a move back
/// with the cursor at zero, leaves the cursor where it is.
pub proof fn lemma_moves_at_bounds_keep_cursor(len: int)
    requires
        0 <= len,
    ensures
        next_cursor(len, len) == len,
        previous_cursor(0) == 0,
{
}

/// Searching again with the same query over the same index gives the same
/// results: a search replaces them wholesale and depends on nothing else.
pub proof fn lemma_search_is_repeatable(s0: OpenModeView, s1: OpenModeView, s2: OpenModeView)
    requires
        searched(s0, s1),
        searched(s1, s2),
    ensures
        s2 == s1,
{
}

} // verus!
