use std::marker::PhantomData;
use std::rc::Rc;

use vstd::prelude::*;

use crate::error::AccessError;
use crate::flag::{
    BorrowCounter, BorrowState, exclusive_step, is_reading, is_writing, panic_already_borrowed,
    panic_already_mutably_borrowed, shared_release_step, shared_step,
};
use crate::types::{SingleThreadType, ThreadIdentity, gate};

verus! {

/// What a checked cell is: its borrow state, its value and its owner thread.
pub struct RefCellModel<T> {
    pub state: BorrowState,
    pub value: T,
    pub owner: ThreadIdentity,
}

/// A newly made cell: no borrow, the given value and owner.
pub open spec fn fresh_cell<T>(val: T, owner: ThreadIdentity) -> RefCellModel<T> {
    RefCellModel { state: BorrowState::Unoccupied, value: val, owner }
}

/// The cell after a shared borrow by `current`, or the fault that refuses it:
/// first the ownership gate, then the borrow counter.
pub open spec fn borrow_step<T>(m: RefCellModel<T>, current: ThreadIdentity) -> Result<
    RefCellModel<T>,
    AccessError,
> {
    match gate(m.owner, current) {
        Err(e) => Err(e),
        Ok(_) => match shared_step(m.state) {
            Ok(s) => Ok(RefCellModel { state: s, value: m.value, owner: m.owner }),
            Err(e) => Err(e),
        },
    }
}

/// The cell after the exclusive borrow by `current`, or the fault that refuses
/// it: first the ownership gate, then the borrow counter.
pub open spec fn borrow_mut_step<T>(m: RefCellModel<T>, current: ThreadIdentity) -> Result<
    RefCellModel<T>,
    AccessError,
> {
    match gate(m.owner, current) {
        Err(e) => Err(e),
        Ok(_) => match exclusive_step(m.state) {
            Ok(s) => Ok(RefCellModel { state: s, value: m.value, owner: m.owner }),
            Err(e) => Err(e),
        },
    }
}

/// The fault that refuses a shared borrow by `current`, if any: first the
/// ownership gate, then the borrow counter.
pub open spec fn borrow_fault(owner: ThreadIdentity, state: BorrowState, current: ThreadIdentity) -> Option<
    AccessError,
> {
    match gate(owner, current) {
        Err(e) => Some(e),
        Ok(_) => match shared_step(state) {
            Ok(_) => None,
            Err(e) => Some(e),
        },
    }
}

/// The fault that refuses the exclusive borrow by `current`, if any: first
/// the ownership gate, then the borrow counter.
pub open spec fn borrow_mut_fault(
    owner: ThreadIdentity,
    state: BorrowState,
    current: ThreadIdentity,
) -> Option<AccessError> {
    match gate(owner, current) {
        Err(e) => Some(e),
        Ok(_) => match exclusive_step(state) {
            Ok(_) => None,
            Err(e) => Some(e),
        },
    }
}

/// The cell after one shared borrow ends.
pub open spec fn release_step<T>(m: RefCellModel<T>) -> RefCellModel<T> {
    RefCellModel { state: shared_release_step(m.state), value: m.value, owner: m.owner }
}

/// The cell after the exclusive borrow ends.
pub open spec fn release_mut_step<T>(m: RefCellModel<T>) -> RefCellModel<T> {
    RefCellModel { state: BorrowState::Unoccupied, value: m.value, owner: m.owner }
}

/// The part of a checked cell that decides borrows: its owner thread and its
/// borrow counter.
pub struct BorrowGate {
    owner_thread: ThreadIdentity,
    borrow: BorrowCounter,
}

impl SingleThreadType for BorrowGate {
    closed spec fn owner(&self) -> ThreadIdentity {
        self.owner_thread
    }

    fn get_owner_thread_id(&self) -> (r: ThreadIdentity) {
        self.owner_thread
    }
}

impl BorrowGate {
    /// The borrow state the counter stands for.
    pub closed spec fn state(&self) -> BorrowState {
        self.borrow@
    }

    /// The borrow counter is well formed.
    pub closed spec fn wf(&self) -> bool {
        self.borrow.wf()
    }

    /// No live borrow, owned by `owner`.
    pub fn new(owner: ThreadIdentity) -> (g: Self)
        ensures
            g.wf(),
            g.state() == BorrowState::Unoccupied,
            g.owner() == owner,
    {
        BorrowGate { owner_thread: owner, borrow: BorrowCounter::new() }
    }

    /// The fault a shared borrow by `current` would meet, if any.
    pub fn check_borrow(&self, current: ThreadIdentity) -> (r: Option<AccessError>)
        requires
            self.wf(),
        ensures
            r == borrow_fault(self.owner(), self.state(), current),
    {
        if current != self.owner_thread {
            Some(AccessError::WrongThread { current })
        } else if self.borrow.flag() == isize::MAX || is_writing(self.borrow.flag()) {
            Some(panic_already_mutably_borrowed())
        } else {
            None
        }
    }

    /// The fault the exclusive borrow by `current` would meet, if any.
    pub fn check_borrow_mut(&self, current: ThreadIdentity) -> (r: Option<AccessError>)
        requires
            self.wf(),
        ensures
            r == borrow_mut_fault(self.owner(), self.state(), current),
    {
        if current != self.owner_thread {
            Some(AccessError::WrongThread { current })
        } else if is_reading(self.borrow.flag()) {
            Some(panic_already_borrowed())
        } else if is_writing(self.borrow.flag()) {
            Some(panic_already_mutably_borrowed())
        } else {
            None
        }
    }

    /// Takes a shared borrow for the owner thread `current`.
    pub fn borrow(&mut self, current: ThreadIdentity) -> (r: SingleThreadRef)
        requires
            old(self).wf(),
            current == old(self).owner(),
            shared_step(old(self).state()) is Ok,
        ensures
            final(self).wf(),
            final(self).owner() == old(self).owner(),
            shared_step(old(self).state()) == Ok::<BorrowState, AccessError>(final(self).state()),
            r.thread() == current,
    {
        let granted = self.borrow.acquire_shared();
        proof {
            assert(granted is Ok);
        }
        SingleThreadRef { thread: current, marker: PhantomData }
    }

    /// Takes the exclusive borrow for the owner thread `current`.
    pub fn borrow_mut(&mut self, current: ThreadIdentity) -> (r: SingleThreadRefMut)
        requires
            old(self).wf(),
            current == old(self).owner(),
            old(self).state() == BorrowState::Unoccupied,
        ensures
            final(self).wf(),
            final(self).owner() == old(self).owner(),
            final(self).state() == BorrowState::Exclusive,
            r.thread() == current,
    {
        let granted = self.borrow.acquire_exclusive();
        proof {
            assert(granted is Ok);
        }
        SingleThreadRefMut { thread: current, marker: PhantomData }
    }
}

/// A cell that only its owner thread may borrow, with shared and exclusive
/// borrows counted at run time.
pub struct SingleThreadRefCell<T> {
    gate: BorrowGate,
    value: T,
}

impl<T> View for SingleThreadRefCell<T> {
    type V = RefCellModel<T>;

    closed spec fn view(&self) -> RefCellModel<T> {
        RefCellModel { state: self.gate.state(), value: self.value, owner: self.gate.owner() }
    }
}

impl<T> SingleThreadType for SingleThreadRefCell<T> {
    open spec fn owner(&self) -> ThreadIdentity {
        self@.owner
    }

    fn get_owner_thread_id(&self) -> (r: ThreadIdentity) {
        self.gate.get_owner_thread_id()
    }
}

impl<T> SingleThreadRefCell<T> {
    /// The borrow counter is well formed.
    pub closed spec fn wf(&self) -> bool {
        self.gate.wf()
    }

    /// A cell holding `val`, with no live borrow, owned by the thread `owner`
    /// that creates it.
    pub fn new(val: T, owner: ThreadIdentity) -> (c: Self)
        ensures
            c.wf(),
            c@ == fresh_cell(val, owner),
    {
        SingleThreadRefCell { gate: BorrowGate::new(owner), value: val }
    }

    /// The fault a shared borrow by `current` would meet, if any. A caller
    /// that cannot show the borrow is allowed asks this first.
    pub fn check_borrow(&self, current: ThreadIdentity) -> (r: Option<AccessError>)
        requires
            self.wf(),
        ensures
            r == borrow_fault(self@.owner, self@.state, current),
    {
        self.gate.check_borrow(current)
    }

    /// The fault the exclusive borrow by `current` would meet, if any. A
    /// caller that cannot show the borrow is allowed asks this first.
    pub fn check_borrow_mut(&self, current: ThreadIdentity) -> (r: Option<AccessError>)
        requires
            self.wf(),
        ensures
            r == borrow_mut_fault(self@.owner, self@.state, current),
    {
        self.gate.check_borrow_mut(current)
    }

    /// Takes a shared borrow for the owner thread `current`, while the
    /// exclusive borrow is not live and the shared count is not full.
    pub fn borrow(&mut self, current: ThreadIdentity) -> (r: SingleThreadRef)
        requires
            old(self).wf(),
            current == old(self)@.owner,
            shared_step(old(self)@.state) is Ok,
        ensures
            final(self).wf(),
            borrow_step(old(self)@, current) == Ok::<RefCellModel<T>, AccessError>(final(self)@),
            r.thread() == current,
    {
        self.gate.borrow(current)
    }

    /// Takes the exclusive borrow for the owner thread `current`, while no
    /// borrow is live.
    pub fn borrow_mut(&mut self, current: ThreadIdentity) -> (r: SingleThreadRefMut)
        requires
            old(self).wf(),
            current == old(self)@.owner,
            old(self)@.state == BorrowState::Unoccupied,
        ensures
            final(self).wf(),
            borrow_mut_step(old(self)@, current) == Ok::<RefCellModel<T>, AccessError>(
                final(self)@,
            ),
            r.thread() == current,
    {
        self.gate.borrow_mut(current)
    }
}

/// A live shared borrow of a checked cell. It is not copied or cloned, it
/// stays on the thread that took it, and `release` hands it back once, to the
/// cell that issued it. The contracts hold it to a cell of that thread in the
/// shared state.
pub struct SingleThreadRef {
    thread: ThreadIdentity,
    // keeps the borrow on the thread that took it: neither `Send` nor `Sync`
    marker: PhantomData<Rc<()>>,
}

impl SingleThreadRef {
    pub closed spec fn thread(&self) -> ThreadIdentity {
        self.thread
    }

    /// The thread that took this borrow.
    pub fn thread_id(&self) -> (r: ThreadIdentity)
        ensures
            r == self.thread(),
    {
        self.thread
    }

    /// Reads the value of the cell this borrow was taken from.
    pub fn deref<'a, T>(&self, cell: &'a SingleThreadRefCell<T>) -> (r: &'a T)
        requires
            self.thread() == cell@.owner,
            cell@.state is Shared,
        ensures
            *r == cell@.value,
    {
        &cell.value
    }

    /// Ends this shared borrow on the `BorrowGate` it came from.
    pub fn release_on(self, gate: &mut BorrowGate)
        requires
            old(gate).wf(),
            self.thread() == old(gate).owner(),
            old(gate).state() is Shared,
        ensures
            final(gate).wf(),
            final(gate).owner() == old(gate).owner(),
            final(gate).state() == shared_release_step(old(gate).state()),
    {
        gate.borrow.release_shared();
    }

    /// Ends this shared borrow of `cell`.
    pub fn release<T>(self, cell: &mut SingleThreadRefCell<T>)
        requires
            old(cell).wf(),
            self.thread() == old(cell)@.owner,
            old(cell)@.state is Shared,
        ensures
            final(cell).wf(),
            final(cell)@ == release_step(old(cell)@),
    {
        self.release_on(&mut cell.gate);
    }
}

/// The live exclusive borrow of a checked cell. It is not copied or cloned,
/// it stays on the thread that took it, and `release` hands it back once, to
/// the cell that issued it. The contracts hold it to a cell of that thread in
/// the exclusive state.
pub struct SingleThreadRefMut {
    thread: ThreadIdentity,
    // keeps the borrow on the thread that took it: neither `Send` nor `Sync`
    marker: PhantomData<Rc<()>>,
}

impl SingleThreadRefMut {
    pub closed spec fn thread(&self) -> ThreadIdentity {
        self.thread
    }

    /// The thread that took this borrow.
    pub fn thread_id(&self) -> (r: ThreadIdentity)
        ensures
            r == self.thread(),
    {
        self.thread
    }

    /// Reads the value of the cell this borrow was taken from.
    pub fn deref<'a, T>(&self, cell: &'a SingleThreadRefCell<T>) -> (r: &'a T)
        requires
            self.thread() == cell@.owner,
            cell@.state is Exclusive,
        ensures
            *r == cell@.value,
    {
        &cell.value
    }

    /// Gives write access to the value of the cell this borrow was taken from;
    /// whatever is written there becomes the cell's value.
    pub fn deref_mut<'a, T>(&self, cell: &'a mut SingleThreadRefCell<T>) -> (r: &'a mut T)
        requires
            old(cell).wf(),
            self.thread() == old(cell)@.owner,
            old(cell)@.state is Exclusive,
        ensures
            *r == old(cell)@.value,
            final(cell).wf(),
            final(cell)@ == (RefCellModel {
                state: old(cell)@.state,
                value: *final(r),
                owner: old(cell)@.owner,
            }),
    {
        &mut cell.value
    }

    /// Ends the exclusive borrow on the `BorrowGate` it came from.
    pub fn release_on(self, gate: &mut BorrowGate)
        requires
            old(gate).wf(),
            self.thread() == old(gate).owner(),
            old(gate).state() is Exclusive,
        ensures
            final(gate).wf(),
            final(gate).owner() == old(gate).owner(),
            final(gate).state() == BorrowState::Unoccupied,
    {
        gate.borrow.release_exclusive();
    }

    /// Ends the exclusive borrow of `cell`.
    pub fn release<T>(self, cell: &mut SingleThreadRefCell<T>)
        requires
            old(cell).wf(),
            self.thread() == old(cell)@.owner,
            old(cell)@.state is Exclusive,
        ensures
            final(cell).wf(),
            final(cell)@ == release_mut_step(old(cell)@),
    {
        self.release_on(&mut cell.gate);
    }
}

} // verus!
