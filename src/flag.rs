use vstd::prelude::*;

use crate::error::AccessError;

verus! {

/// The raw borrow counter: zero when unoccupied, the number of shared borrows
/// when positive, one below zero while the exclusive borrow is live.
pub type BorrowFlag = isize;

/// The counter value of a cell with no live borrow.
pub const UNUSED: BorrowFlag = 0;

/// Whether a counter value stands for the exclusive borrow.
pub fn is_writing(x: BorrowFlag) -> (r: bool)
    ensures
        r == (x < UNUSED),
{
    x < UNUSED
}

/// Whether a counter value stands for one or more shared borrows.
pub fn is_reading(x: BorrowFlag) -> (r: bool)
    ensures
        r == (x > UNUSED),
{
    x > UNUSED
}

/// The fault that an exclusive borrow reports when it meets a live shared borrow.
pub fn panic_already_borrowed() -> (e: AccessError)
    ensures
        e == AccessError::AlreadyBorrowed,
{
    AccessError::AlreadyBorrowed
}

/// The fault that a borrow reports when it meets the live exclusive borrow.
pub fn panic_already_mutably_borrowed() -> (e: AccessError)
    ensures
        e == AccessError::AlreadyMutablyBorrowed,
{
    AccessError::AlreadyMutablyBorrowed
}

/// What a borrow counter means: no borrow, `n` shared borrows, or the one
/// exclusive borrow.
pub enum BorrowState {
    Unoccupied,
    Shared(nat),
    Exclusive,
}

/// The meaning of a raw counter value.
pub open spec fn state_of(x: int) -> BorrowState {
    if x == 0 {
        BorrowState::Unoccupied
    } else if x > 0 {
        BorrowState::Shared(x as nat)
    } else {
        BorrowState::Exclusive
    }
}

/// The state after a shared borrow is granted, or the fault that refuses it.
/// The shared count stops at the largest counter value.
pub open spec fn shared_step(s: BorrowState) -> Result<BorrowState, AccessError> {
    match s {
        BorrowState::Unoccupied => Ok(BorrowState::Shared(1)),
        BorrowState::Shared(n) => if n < isize::MAX {
            Ok(BorrowState::Shared(n + 1))
        } else {
            Err(AccessError::AlreadyMutablyBorrowed)
        },
        BorrowState::Exclusive => Err(AccessError::AlreadyMutablyBorrowed),
    }
}

/// The state after the exclusive borrow is granted, or the fault that refuses it.
pub open spec fn exclusive_step(s: BorrowState) -> Result<BorrowState, AccessError> {
    match s {
        BorrowState::Unoccupied => Ok(BorrowState::Exclusive),
        BorrowState::Shared(_) => Err(AccessError::AlreadyBorrowed),
        BorrowState::Exclusive => Err(AccessError::AlreadyMutablyBorrowed),
    }
}

/// The state after one shared borrow ends.
pub open spec fn shared_release_step(s: BorrowState) -> BorrowState {
    match s {
        BorrowState::Shared(n) => if n > 1 {
            BorrowState::Shared((n - 1) as nat)
        } else {
            BorrowState::Unoccupied
        },
        _ => s,
    }
}

/// A borrow counter of one cell.
pub struct BorrowCounter {
    flag: BorrowFlag,
}

impl View for BorrowCounter {
    type V = BorrowState;

    closed spec fn view(&self) -> BorrowState {
        state_of(self.flag as int)
    }
}

impl BorrowCounter {
    /// The exclusive borrow has the single value one below unoccupied.
    pub closed spec fn wf(&self) -> bool {
        self.flag >= UNUSED - 1
    }

    /// A counter with no live borrow.
    pub fn new() -> (c: Self)
        ensures
            c.wf(),
            c@ == BorrowState::Unoccupied,
    {
        BorrowCounter { flag: UNUSED }
    }

    /// The raw counter value.
    pub fn flag(&self) -> (r: BorrowFlag)
        requires
            self.wf(),
        ensures
            state_of(r as int) == self@,
            r >= UNUSED - 1,
    {
        self.flag
    }

    /// Grants one more shared borrow, or leaves the counter as it is and
    /// reports why not.
    pub fn acquire_shared(&mut self) -> (r: Result<(), AccessError>)
        requires
            old(self).wf(),
        ensures
            final(self).wf(),
            match shared_step(old(self)@) {
                Ok(s) => r == Ok::<(), AccessError>(()) && final(self)@ == s,
                Err(e) => r == Err::<(), AccessError>(e) && final(self)@ == old(self)@,
            },
    {
        if self.flag == isize::MAX {
            return Err(panic_already_mutably_borrowed());
        }
        let b: BorrowFlag = self.flag + 1;
        if !is_reading(b) {
            Err(panic_already_mutably_borrowed())
        } else {
            self.flag = b;
            Ok(())
        }
    }

    /// Grants the exclusive borrow, or leaves the counter as it is and reports
    /// why not.
    pub fn acquire_exclusive(&mut self) -> (r: Result<(), AccessError>)
        requires
            old(self).wf(),
        ensures
            final(self).wf(),
            match exclusive_step(old(self)@) {
                Ok(s) => r == Ok::<(), AccessError>(()) && final(self)@ == s,
                Err(e) => r == Err::<(), AccessError>(e) && final(self)@ == old(self)@,
            },
    {
        if self.flag == UNUSED {
            self.flag = UNUSED - 1;
            Ok(())
        } else if is_reading(self.flag) {
            Err(panic_already_borrowed())
        } else {
            Err(panic_already_mutably_borrowed())
        }
    }

    /// Ends one shared borrow.
    pub fn release_shared(&mut self)
        requires
            old(self).wf(),
            old(self)@ is Shared,
        ensures
            final(self).wf(),
            final(self)@ == shared_release_step(old(self)@),
    {
        self.flag = self.flag - 1;
    }

    /// Ends the exclusive borrow.
    pub fn release_exclusive(&mut self)
        requires
            old(self).wf(),
            old(self)@ is Exclusive,
        ensures
            final(self).wf(),
            final(self)@ == BorrowState::Unoccupied,
    {
        self.flag = self.flag + 1;
    }
}

} // verus!
