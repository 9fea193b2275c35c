//! Small storage utilities.
use vstd::prelude::*;

verus! {

/// Prepares the directories that configurations are kept in, reporting an
/// I/O failure. Nothing needs preparing ahead of a call: every store
/// creates the parent directories of its file itself.
pub fn scaffold_directories() -> (r: Result<(), std::io::Error>)
    ensures
        r is Ok,
{
    Ok(())
}

/// A source that can be read in full as UTF-8 text, with any I/O failure,
/// invalid UTF-8 included, reported rather than swallowed.
pub trait CheckedStringRead {
    fn get_string(&mut self) -> Result<String, std::io::Error>;
}

} // verus!
