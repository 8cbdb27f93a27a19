//! A snapshot of the local, uncommitted changes.

use vstd::prelude::*;

verus! {

/// How many files differ from the last commit, and a textual summary of
/// the differences. An empty summary means there are no local changes.
#[derive(Debug, Clone)]
pub struct ChangeSummary {
    pub files_changed: usize,
    pub summary: String,
}

impl ChangeSummary {
    /// The summary of a working tree without changes.
    pub fn empty() -> (out: Self)
        ensures
            out.files_changed == 0,
            out.summary@ == Seq::<char>::empty(),
    {
        Self { files_changed: 0, summary: String::new() }
    }
}

} // verus!
