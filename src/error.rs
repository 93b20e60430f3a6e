use vstd::prelude::*;

use crate::types::ThreadIdentity;

verus! {

/// A fault of the access discipline. None of them leaves a cell changed.
#[derive(PartialEq, Eq, Structural, Clone, Copy, Debug)]
pub enum AccessError {
    /// The cell was used from a thread other than its owner; `current` is
    /// the thread that tried.
    WrongThread { current: ThreadIdentity },
    /// An exclusive borrow was asked for while shared borrows were live.
    AlreadyBorrowed,
    /// A borrow was asked for while the exclusive borrow was live, or the
    /// count of shared borrows is full.
    AlreadyMutablyBorrowed,
}

impl AccessError {
    /// The words a caller reports when it stops on this fault.
    pub fn message(&self) -> (r: &'static str)
        ensures
            *self is WrongThread ==> r@ == "access from a thread other than the owner"@,
            *self == AccessError::AlreadyBorrowed ==> r@ == "already borrowed"@,
            *self == AccessError::AlreadyMutablyBorrowed ==> r@ == "already mutably borrowed"@,
    {
        match self {
            AccessError::WrongThread { .. } => "access from a thread other than the owner",
            AccessError::AlreadyBorrowed => "already borrowed",
            AccessError::AlreadyMutablyBorrowed => "already mutably borrowed",
        }
    }
}

} // verus!
