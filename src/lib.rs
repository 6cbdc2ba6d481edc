//! The "open file" mode of an editor: a fuzzy query over an index of file
//! paths, the ranked results of the last search, and a cursor over them.
pub mod index;
pub mod open;
