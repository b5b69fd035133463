use vstd::prelude::*;

verus! {

/// What a match operation can fail with.
#[derive(Debug, PartialEq, Eq, Structural)]
pub enum ServerError {
    /// No match carries the requested label.
    NotFound,
    /// A storage write was refused (a label already taken, no identifier left).
    Persistence,
}

} // verus!
