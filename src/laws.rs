use vstd::prelude::*;

use crate::error::AccessError;
use crate::flag::BorrowState;
use crate::ref_cell::{
    RefCellModel, borrow_fault, borrow_mut_fault, borrow_mut_step, borrow_step, fresh_cell,
    release_mut_step, release_step,
};
use crate::types::{ThreadIdentity, gate};

verus! {

/// The cell after `k` shared borrows by `current` in a row, or the first
/// fault among them.
pub open spec fn borrow_times<T>(m: RefCellModel<T>, current: ThreadIdentity, k: nat) -> Result<
    RefCellModel<T>,
    AccessError,
>
    decreases k,
{
    if k == 0 {
        Ok(m)
    } else {
        match borrow_times(m, current, (k - 1) as nat) {
            Ok(m2) => borrow_step(m2, current),
            Err(e) => Err(e),
        }
    }
}

/// The cell after `k` shared borrows end in a row.
pub open spec fn release_times<T>(m: RefCellModel<T>, k: nat) -> RefCellModel<T>
    decreases k,
{
    if k == 0 {
        m
    } else {
        release_step(release_times(m, (k - 1) as nat))
    }
}

/// A borrow is admitted exactly when its check finds no fault, and a refused
/// borrow's fault is the one its check reports.
pub proof fn lemma_checks_match_steps<T>(m: RefCellModel<T>, current: ThreadIdentity)
    ensures
        borrow_fault(m.owner, m.state, current) == match borrow_step(m, current) {
            Ok(_) => None::<AccessError>,
            Err(e) => Some(e),
        },
        borrow_mut_fault(m.owner, m.state, current) == match borrow_mut_step(m, current) {
            Ok(_) => None::<AccessError>,
            Err(e) => Some(e),
        },
{
}

/// A shared borrow right after construction, on the owner thread, succeeds
/// and leaves the initial value in place.
pub proof fn lemma_fresh_cell_lends<T>(val: T, owner: ThreadIdentity)
    ensures
        borrow_step(fresh_cell(val, owner), owner) == Ok::<RefCellModel<T>, AccessError>(
            RefCellModel { state: BorrowState::Shared(1), value: val, owner },
        ),
{
}

/// Any number of shared borrows may be live at once on the owner thread,
/// up to the largest counter value.
pub proof fn lemma_shared_borrows_coexist<T>(val: T, owner: ThreadIdentity, n: nat)
    requires
        n <= isize::MAX,
    ensures
        borrow_times(fresh_cell(val, owner), owner, n) == Ok::<RefCellModel<T>, AccessError>(
            RefCellModel {
                state: if n == 0 {
                    BorrowState::Unoccupied
                } else {
                    BorrowState::Shared(n)
                },
                value: val,
                owner,
            },
        ),
    decreases n,
{
    if n > 0 {
        lemma_shared_borrows_coexist(val, owner, (n - 1) as nat);
    }
}

/// While the exclusive borrow is live, a shared borrow is refused as
/// already mutably borrowed.
pub proof fn lemma_shared_refused_while_exclusive<T>(m: RefCellModel<T>)
    requires
        m.state is Exclusive,
    ensures
        borrow_step(m, m.owner) == Err::<RefCellModel<T>, AccessError>(
            AccessError::AlreadyMutablyBorrowed,
        ),
        borrow_fault(m.owner, m.state, m.owner) == Some(AccessError::AlreadyMutablyBorrowed),
{
}

/// The exclusive borrow is refused as already borrowed while a shared borrow
/// is live, and as already mutably borrowed while the exclusive one is.
pub proof fn lemma_exclusive_refused<T>(m: RefCellModel<T>)
    ensures
        m.state is Shared ==> borrow_mut_step(m, m.owner) == Err::<RefCellModel<T>, AccessError>(
            AccessError::AlreadyBorrowed,
        ),
        m.state is Exclusive ==> borrow_mut_step(m, m.owner) == Err::<
            RefCellModel<T>,
            AccessError,
        >(AccessError::AlreadyMutablyBorrowed),
        m.state is Shared ==> borrow_mut_fault(m.owner, m.state, m.owner) == Some(
            AccessError::AlreadyBorrowed,
        ),
        m.state is Exclusive ==> borrow_mut_fault(m.owner, m.state, m.owner) == Some(
            AccessError::AlreadyMutablyBorrowed,
        ),
{
}

/// Once the `n` live shared borrows have ended, the cell is unoccupied with
/// its value and owner kept, and the exclusive borrow is granted again.
pub proof fn lemma_shared_release_restores<T>(m: RefCellModel<T>, n: nat)
    requires
        n > 0,
        m.state == BorrowState::Shared(n),
    ensures
        release_times(m, n) == (RefCellModel {
            state: BorrowState::Unoccupied,
            value: m.value,
            owner: m.owner,
        }),
        borrow_mut_step(release_times(m, n), m.owner) == Ok::<RefCellModel<T>, AccessError>(
            RefCellModel { state: BorrowState::Exclusive, value: m.value, owner: m.owner },
        ),
{
    lemma_release_times_count(m, n, n);
}

/// `k` releases out of `n` live shared borrows leave `n - k` of them.
proof fn lemma_release_times_count<T>(m: RefCellModel<T>, n: nat, k: nat)
    requires
        m.state == BorrowState::Shared(n),
        0 < n,
        k <= n,
    ensures
        release_times(m, k) == (RefCellModel {
            state: if k == n {
                BorrowState::Unoccupied
            } else {
                BorrowState::Shared((n - k) as nat)
            },
            value: m.value,
            owner: m.owner,
        }),
    decreases k,
{
    if k > 0 {
        lemma_release_times_count(m, n, (k - 1) as nat);
    }
}

/// Once the exclusive borrow has ended, the cell is unoccupied with its
/// value and owner kept, and the exclusive borrow is granted again.
pub proof fn lemma_exclusive_release_restores<T>(m: RefCellModel<T>)
    requires
        m.state is Exclusive,
    ensures
        release_mut_step(m) == (RefCellModel {
            state: BorrowState::Unoccupied,
            value: m.value,
            owner: m.owner,
        }),
        borrow_mut_step(release_mut_step(m), m.owner) == Ok::<RefCellModel<T>, AccessError>(
            m,
        ),
{
}

/// Every access from a thread other than the owner is refused with the
/// wrong-thread fault, whatever the borrow state.
pub proof fn lemma_foreign_thread_refused<T>(m: RefCellModel<T>, current: ThreadIdentity)
    requires
        current != m.owner,
    ensures
        gate(m.owner, current) == Err::<(), AccessError>(AccessError::WrongThread { current }),
        borrow_step(m, current) == Err::<RefCellModel<T>, AccessError>(
            AccessError::WrongThread { current },
        ),
        borrow_mut_step(m, current) == Err::<RefCellModel<T>, AccessError>(
            AccessError::WrongThread { current },
        ),
        borrow_fault(m.owner, m.state, current) == Some(AccessError::WrongThread { current }),
        borrow_mut_fault(m.owner, m.state, current) == Some(AccessError::WrongThread { current }),
{
}

} // verus!
