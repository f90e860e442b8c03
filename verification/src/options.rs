use vstd::prelude::*;

verus! {

/// The plain settings one commit run is configured with, as handed over by
/// the command layer: a repository path, the commit message, how many days of
/// history to generate, and the work day's first and last hour.
pub struct Options {
    pub repo: String,
    pub msg: String,
    pub days_to_commit: u64,
    pub start: u8,
    pub end: u8,
}

} // verus!
