//! The core of a single-user to-do list.
//!
//! A task has a title, a note and a completion flag. The tasks form an
//! ordered list, and a task has no identity but its place in it: the user
//! names a task by its number in the list, counted from one.
//!
//! The crate holds what the program decides and computes, on plain values:
//!
//! - `item`: the task record and its model;
//! - `command`: the commands and the words that select them;
//! - `index`: from an index argument to a position in the list;
//! - `store`: the commands that change the list, and the questions they ask;
//! - `render`: the text of the list, of one task and of the usage;
//! - `number`, `text`: decimal numerals, trimming and comparison of text;
//! - `laws`: what holds of the commands together.
//!
//! Reading and writing the data file, the terminal and the editor are left to
//! the caller. Every function here is verified against its contract, but for
//! one: `render` paints the markers of the list with the crate `ansi_term`,
//! and what that call returns is stated there on trust.

pub mod command;
pub mod index;
pub mod item;
pub mod laws;
pub mod number;
pub mod render;
pub mod store;
pub mod text;
