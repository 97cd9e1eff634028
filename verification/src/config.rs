//! Where the data file lives, and the terminal size the interface needs.

use vstd::prelude::*;

verus! {

/// Minimum terminal width required by the interface.
pub const MIN_TERMINAL_WIDTH: u16 = 80;

/// Minimum terminal height required by the interface.
pub const MIN_TERMINAL_HEIGHT: u16 = 24;

/// The path that `Path::join` makes of `dir` and `name`.
pub uninterp spec fn path_joined(dir: Seq<char>, name: Seq<char>) -> Seq<char>;

/// `Path::join`: `name` adjoined to the directory `dir`.
#[verifier::external_body]
fn join_path(dir: &str, name: &str) -> (res: String)
    ensures
        res@ == path_joined(dir@, name@),
{
    std::path::Path::new(dir).join(name).to_string_lossy().into_owned()
}

/// Path of the main data file in the data directory `dir`.
pub fn data_file_path(dir: &str) -> (res: String)
    ensures
        res@ == path_joined(dir@, "sets.json"@),
{
    join_path(dir, "sets.json")
}

/// Path of the temporary file that atomic writes go through, in the data
/// directory `dir`.
pub fn temp_file_path(dir: &str) -> (res: String)
    ensures
        res@ == path_joined(dir@, "sets.json.tmp"@),
{
    join_path(dir, "sets.json.tmp")
}

} // verus!
