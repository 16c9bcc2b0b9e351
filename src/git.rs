//! The staged changes of a working tree, as the version-control tool reports them.

use vstd::prelude::*;
use crate::text::{lines_of, text_lines, trim_text, trimmed, views};

verus! {

/// Raw unified-diff text and the changed paths, in the tool's order.
pub struct GitDiff {
    pub diff: String,
    pub file_names: Vec<String>,
}

impl GitDiff {
    /// A diff from the tool's two outputs: the diff text and the list of
    /// changed paths, one per line.
    pub fn from_outputs(diff: String, names_output: &str) -> (r: GitDiff)
        ensures
            r.diff@ == diff@,
            views(r.file_names@) == text_lines(names_output@),
    {
        GitDiff { diff, file_names: lines_of(names_output) }
    }

    /// Whether anything is staged.
    pub fn has_changes(&self) -> (r: bool)
        ensures
            r == (self.file_names@.len() > 0),
    {
        self.file_names.len() > 0
    }
}

/// The probe "is the current directory inside a work tree" says yes: it
/// succeeded and printed `true`.
pub open spec fn inside_work_tree(succeeded: bool, stdout: Seq<char>) -> bool {
    succeeded && trimmed(stdout) == "true"@
}

/// Reads the output of the probe "is the current directory inside a work tree".
pub fn repository_probe_passes(succeeded: bool, stdout: &str) -> (r: bool)
    ensures
        r == inside_work_tree(succeeded, stdout@),
{
    if !succeeded {
        return false;
    }
    let answer = trim_text(stdout).to_string();
    let expected = "true".to_string();
    answer == expected
}

} // verus!
