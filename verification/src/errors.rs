use vstd::prelude::*;

verus! {

/// What can go wrong in the store.
///
/// Missing numbers on update or delete are deliberately not errors: those
/// operations are silent no-ops on a number that is not in use.
#[derive(Clone, Copy, Debug, PartialEq, Eq, Structural)]
pub enum NoteError {
    /// The backing database could not be opened or created.
    StorageUnavailable,
    /// A read from the backing database failed.
    StorageReadError,
    /// A write to the backing database failed.
    StorageWriteError,
    /// Every number up to the 16-bit maximum is taken, so no fresh
    /// number can be assigned.
    IdentifierSpaceExhausted,
}

} // verus!
