//! Merging of Lua-side descriptions of Rust syntax trees back into the trees.
//!
//! A refactoring script edits a syntax tree as a tree of Lua tables; this crate
//! writes the edited tables back into the tree. `lua` models the Lua values the
//! merge reads, `ast` models the syntax tree it writes, `names` maps the names
//! a description uses to the tree's enumerations, `expr` and `merge` hold the
//! merges, and `laws` the properties that span several merges.

pub mod ast;
pub mod expr;
pub mod laws;
pub mod lua;
pub mod merge;
pub mod names;
pub mod outcome;
pub mod part_laws;
pub mod spellings;
