//! Loading outcomes and the documents they display as.  The file system is
//! never touched here: the unverified shell reads the file (or fails to)
//! and hands the outcome in as plain values.

use vstd::prelude::*;
use vstd::string::*;

verus! {

/// What the file-loading collaborator came back with: the lines of a file
/// it could read, or the reason the path yields no content.
#[derive(Debug)]
pub enum LoadOutcome {
    /// The file was read: its lines, in file order.
    Loaded { lines: Vec<String> },
    /// No file exists at the path.
    MissingFile { path: String },
    /// The path names a directory.
    IsDirectory { path: String },
}

/// The one-line document shown when no file exists at the path.
pub open spec fn missing_file_line(path: Seq<char>) -> Seq<char> {
    "Error: File \""@ + path + "\" does not exist"@
}

/// The one-line document shown when the path names a directory.
pub open spec fn directory_line(path: Seq<char>) -> Seq<char> {
    "Error: \""@ + path + "\" is a directory"@
}

/// The document a loading outcome displays as: the file's own lines, or a
/// single error line naming the path.
pub open spec fn outcome_doc(o: LoadOutcome) -> Seq<Seq<char>> {
    match o {
        LoadOutcome::Loaded { lines } => lines.deep_view(),
        LoadOutcome::MissingFile { path } => seq![missing_file_line(path@)],
        LoadOutcome::IsDirectory { path } => seq![directory_line(path@)],
    }
}

/// Builds the lines that a loading outcome displays as.
pub fn outcome_lines(outcome: LoadOutcome) -> (lines: Vec<String>)
    ensures
        lines.deep_view() == outcome_doc(outcome),
{
    match outcome {
        LoadOutcome::Loaded { lines } => lines,
        LoadOutcome::MissingFile { path } => {
            let line: String = String::from_str("Error: File \"").concat(path.as_str()).concat(
                "\" does not exist",
            );
            let mut lines: Vec<String> = Vec::new();
            lines.push(line);
            proof {
                assert(lines.deep_view() =~= seq![missing_file_line(path@)]);
            }
            lines
        },
        LoadOutcome::IsDirectory { path } => {
            let line: String = String::from_str("Error: \"").concat(path.as_str()).concat(
                "\" is a directory",
            );
            let mut lines: Vec<String> = Vec::new();
            lines.push(line);
            proof {
                assert(lines.deep_view() =~= seq![directory_line(path@)]);
            }
            lines
        },
    }
}

} // verus!
