//! A todo list kept as lines of a text file, one record per line: `<name> ____ <completed>`.
//!
//! The library holds the store's logic: how a record is encoded and decoded, how records are
//! numbered, renamed, removed and listed. Reading and writing the file is left to the caller,
//! which hands the library the lines it read and carries out the `cli::Action` it gets back.
use vstd::prelude::*;

pub mod cli;
pub mod db;
pub mod laws;
pub mod record;
pub mod text;

verus! {

} // verus!
