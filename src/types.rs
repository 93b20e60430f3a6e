use vstd::prelude::*;

use crate::error::AccessError;

verus! {

/// The identity of a live thread. Two threads alive at once never share one.
#[derive(PartialEq, Eq, Structural, Clone, Copy, Debug)]
pub struct ThreadIdentity {
    id: u64,
}

impl ThreadIdentity {
    /// The identity numbered `id`.
    pub fn new(id: u64) -> (t: Self)
        ensures
            t.id() == id,
    {
        ThreadIdentity { id }
    }

    pub closed spec fn id(&self) -> u64 {
        self.id
    }

    /// The number of this identity.
    pub fn as_u64(&self) -> (r: u64)
        ensures
            r == self.id(),
    {
        self.id
    }
}

/// The outcome of the ownership gate: success on the owner thread, the
/// wrong-thread fault on any other.
pub open spec fn gate(owner: ThreadIdentity, current: ThreadIdentity) -> Result<(), AccessError> {
    if current == owner {
        Ok(())
    } else {
        Err(AccessError::WrongThread { current })
    }
}

/// The ownership gate on plain identities.
pub fn check_owner(owner: ThreadIdentity, current: ThreadIdentity) -> (r: Result<(), AccessError>)
    ensures
        r == gate(owner, current),
{
    if current == owner {
        Ok(())
    } else {
        Err(AccessError::WrongThread { current })
    }
}

/// A value bound to the thread that made it.
pub trait SingleThreadType {
    /// The thread that owns the value.
    spec fn owner(&self) -> ThreadIdentity;

    /// The thread that owns the value.
    fn get_owner_thread_id(&self) -> (r: ThreadIdentity)
        ensures
            r == self.owner(),
    ;

    /// The ownership gate: admits only the owner thread. A caller that cannot
    /// show `current` is the owner asks `check_same_thread` or `check_owner`
    /// first, and stops on the fault they report.
    fn check_thread_panic(&self, current: ThreadIdentity)
        requires
            current == self.owner(),
    {
    }

    /// Whether `current` is the owner thread.
    fn check_same_thread(&self, current: ThreadIdentity) -> (r: bool)
        ensures
            r == (current == self.owner()),
    {
        current == self.get_owner_thread_id()
    }
}

} // verus!
