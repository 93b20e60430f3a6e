use vstd::prelude::*;

use crate::types::{SingleThreadType, ThreadIdentity};

verus! {

/// A mutable slot that only its owner thread may read or write.
pub struct SingleThreadCell<T> {
    value: T,
    owner_thread: ThreadIdentity,
}

impl<T> SingleThreadType for SingleThreadCell<T> {
    closed spec fn owner(&self) -> ThreadIdentity {
        self.owner_thread
    }

    fn get_owner_thread_id(&self) -> (r: ThreadIdentity) {
        self.owner_thread
    }
}

impl<T> SingleThreadCell<T> {
    /// The value in the slot.
    pub closed spec fn value(&self) -> T {
        self.value
    }

    /// A cell holding `val`, owned by the thread `owner` that creates it.
    pub fn new(val: T, owner: ThreadIdentity) -> (c: Self)
        ensures
            c.value() == val,
            c.owner() == owner,
    {
        SingleThreadCell { value: val, owner_thread: owner }
    }

    /// Puts `value` in the slot; `current` is the calling thread, which must
    /// be the owner.
    pub fn set(&mut self, current: ThreadIdentity, value: T)
        requires
            current == old(self).owner(),
        ensures
            final(self).owner() == old(self).owner(),
            final(self).value() == value,
    {
        self.value = value;
    }

    /// Puts `value` in the slot and hands back the value it held; `current` is
    /// the calling thread, which must be the owner.
    pub fn replace(&mut self, current: ThreadIdentity, value: T) -> (r: T)
        requires
            current == old(self).owner(),
        ensures
            final(self).owner() == old(self).owner(),
            final(self).value() == value,
            r == old(self).value(),
    {
        let mut held = value;
        std::mem::swap(&mut self.value, &mut held);
        held
    }
}

impl<T: Copy> SingleThreadCell<T> {
    /// A copy of the value in the slot; `current` is the calling thread, which
    /// must be the owner.
    pub fn get(&self, current: ThreadIdentity) -> (r: T)
        requires
            current == self.owner(),
        ensures
            r == self.value(),
    {
        self.value
    }
}

} // verus!
