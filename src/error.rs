use vstd::prelude::*;

verus! {

/// A shape error found while reading the description of a record.
#[derive(Debug)]
pub enum Error {
    /// The item is not of the expected kind: (expected, found).
    InvalidShape(&'static str, &'static str),
    /// A positional field carries a name.
    UnexpectedIdent,
    /// A named field has no name.
    MissingIdent,
    /// Every error found in one pass over the fields.
    Multiple(Vec<Error>),
}

} // verus!
