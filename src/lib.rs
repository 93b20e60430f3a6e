//! Cells that only their owner thread may touch, with the borrow discipline of
//! a reference cell checked at run time.
//!
//! Every operation names the thread that performs it, as a [`ThreadIdentity`].
//! Use from a thread other than the owner, and a borrow that would alias a
//! live borrow against the rules, are faults that stop the caller: the
//! operations require that neither happens. The checks `check_owner`,
//! `check_borrow` and `check_borrow_mut` tell a caller beforehand which fault,
//! if any, an operation would meet, so that it can stop with that fault.
//!
//! A borrow is a token: [`SingleThreadRef`] or [`SingleThreadRefMut`] reads
//! or writes the cell it came from, and ends when it is released.
mod cell;
mod error;
mod flag;
mod laws;
mod ref_cell;
mod types;

pub use cell::SingleThreadCell;
pub use error::AccessError;
pub use flag::{
    BorrowCounter, BorrowFlag, BorrowState, UNUSED, exclusive_step, is_reading, is_writing,
    panic_already_borrowed, panic_already_mutably_borrowed, shared_release_step, shared_step,
};
pub use laws::{
    borrow_times, lemma_checks_match_steps, lemma_exclusive_refused,
    lemma_exclusive_release_restores, lemma_foreign_thread_refused, lemma_fresh_cell_lends,
    lemma_shared_borrows_coexist, lemma_shared_refused_while_exclusive,
    lemma_shared_release_restores, release_times,
};
pub use ref_cell::{
    BorrowGate, RefCellModel, SingleThreadRef, SingleThreadRefCell, SingleThreadRefMut,
    borrow_fault, borrow_mut_fault, borrow_mut_step, borrow_step, fresh_cell, release_mut_step, release_step,
};
pub use types::{SingleThreadType, ThreadIdentity, check_owner, gate};
