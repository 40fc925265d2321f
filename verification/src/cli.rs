//! The command line of the indexer and what it runs.
use std::io;
use std::path::PathBuf;
use vstd::prelude::*;

verus! {

/// The indexer's arguments.
#[derive(Debug)]
pub struct Cli {
    /// How chatty the log is (the number of `-v` flags).
    pub verbose: u8,
    /// The folder to index.
    pub dst: PathBuf,
    /// The database file that receives the index.
    pub database: PathBuf,
}

/// Runs the indexer for the given arguments; it succeeds without doing
/// anything yet.
pub fn run(cli: Cli) -> (r: Result<(), io::Error>)
    ensures
        r is Ok,
{
    Ok(())
}

} // verus!
