use single_thread_cell::{
    check_owner, is_reading, is_writing, BorrowGate, panic_already_borrowed, panic_already_mutably_borrowed, AccessError,
    BorrowCounter, SingleThreadRefCell, SingleThreadType, ThreadIdentity, UNUSED,
};

fn thread_a() -> ThreadIdentity {
    ThreadIdentity::new(10)
}

fn thread_b() -> ThreadIdentity {
    ThreadIdentity::new(11)
}

#[test]
fn fresh_cell_admits_both_borrows() {
    let cell = SingleThreadRefCell::new(0, thread_a());
    assert_eq!(cell.check_borrow(thread_a()), None);
    assert_eq!(cell.check_borrow_mut(thread_a()), None);
}

#[test]
fn gate_part_grants_and_takes_back() {
    let mut gate = BorrowGate::new(thread_a());
    let g = gate.borrow(thread_a());
    assert_eq!(gate.check_borrow(thread_a()), None);
    assert_eq!(gate.check_borrow_mut(thread_a()), Some(AccessError::AlreadyBorrowed));
    g.release_on(&mut gate);
    let m = gate.borrow_mut(thread_a());
    assert_eq!(gate.check_borrow(thread_a()), Some(AccessError::AlreadyMutablyBorrowed));
    assert_eq!(gate.check_borrow(thread_b()), Some(AccessError::WrongThread { current: thread_b() }));
    m.release_on(&mut gate);
    assert_eq!(gate.check_borrow_mut(thread_a()), None);
}

#[test]
fn first_borrow_yields_the_initial_value() {
    let mut cell = SingleThreadRefCell::new(String::from("seed"), thread_a());
    let g = cell.borrow(thread_a());
    assert_eq!(g.deref(&cell).as_str(), "seed");
    assert_eq!(g.thread_id(), thread_a());
    g.release(&mut cell);
}

#[test]
fn many_shared_borrows_live_at_once() {
    let mut cell = SingleThreadRefCell::new(5u8, thread_a());
    let mut guards = Vec::new();
    for _ in 0..100 {
        guards.push(cell.borrow(thread_a()));
    }
    for g in guards.iter() {
        assert_eq!(*g.deref(&cell), 5);
    }
    for g in guards {
        g.release(&mut cell);
    }
    let m = cell.borrow_mut(thread_a());
    m.release(&mut cell);
}

#[test]
fn shared_borrow_refused_while_exclusive() {
    let mut cell = SingleThreadRefCell::new(1, thread_a());
    let m = cell.borrow_mut(thread_a());
    assert_eq!(cell.check_borrow(thread_a()), Some(AccessError::AlreadyMutablyBorrowed));
    m.release(&mut cell);
}

#[test]
fn exclusive_borrow_refused_while_shared() {
    let mut cell = SingleThreadRefCell::new(1, thread_a());
    let g = cell.borrow(thread_a());
    assert_eq!(cell.check_borrow_mut(thread_a()), Some(AccessError::AlreadyBorrowed));
    g.release(&mut cell);
}

#[test]
fn exclusive_borrow_refused_while_exclusive() {
    let mut cell = SingleThreadRefCell::new(1, thread_a());
    let m = cell.borrow_mut(thread_a());
    assert_eq!(cell.check_borrow_mut(thread_a()), Some(AccessError::AlreadyMutablyBorrowed));
    m.release(&mut cell);
}

#[test]
fn releasing_every_guard_lets_exclusive_borrow_in_again() {
    let mut cell = SingleThreadRefCell::new(1, thread_a());
    let g1 = cell.borrow(thread_a());
    let g2 = cell.borrow(thread_a());
    g1.release(&mut cell);
    assert_eq!(cell.check_borrow_mut(thread_a()), Some(AccessError::AlreadyBorrowed));
    g2.release(&mut cell);
    let m = cell.borrow_mut(thread_a());
    m.release(&mut cell);
    let m = cell.borrow_mut(thread_a());
    m.release(&mut cell);
}

#[test]
fn foreign_thread_refused_in_every_state() {
    let mut cell = SingleThreadRefCell::new(1, thread_a());
    let wrong = Some(AccessError::WrongThread { current: thread_b() });
    assert_eq!(cell.check_borrow(thread_b()), wrong);
    assert_eq!(cell.check_borrow_mut(thread_b()), wrong);
    let g = cell.borrow(thread_a());
    assert_eq!(cell.check_borrow(thread_b()), wrong);
    assert_eq!(cell.check_borrow_mut(thread_b()), wrong);
    g.release(&mut cell);
    let m = cell.borrow_mut(thread_a());
    assert_eq!(cell.check_borrow(thread_b()), wrong);
    assert_eq!(cell.check_borrow_mut(thread_b()), wrong);
    m.release(&mut cell);
}

#[test]
fn three_exclusive_increments_give_three() {
    let mut cell = SingleThreadRefCell::new(0, thread_a());
    for _ in 0..3 {
        let m = cell.borrow_mut(thread_a());
        *m.deref_mut(&mut cell) += 1;
        m.release(&mut cell);
    }
    let g = cell.borrow(thread_a());
    assert_eq!(*g.deref(&cell), 3);
    g.release(&mut cell);
}

#[test]
fn exclusive_borrow_under_live_shared_guard_is_already_borrowed() {
    let mut cell = SingleThreadRefCell::new(0, thread_a());
    let g = cell.borrow(thread_a());
    let e = cell.check_borrow_mut(thread_a()).unwrap();
    assert_eq!(e, AccessError::AlreadyBorrowed);
    assert_eq!(e.message(), "already borrowed");
    g.release(&mut cell);
}

#[test]
fn cell_moved_to_another_thread_refuses_it() {
    let mut cell = SingleThreadRefCell::new(0, thread_a());
    let m = cell.borrow_mut(thread_a());
    let e = cell.check_borrow(thread_b()).unwrap();
    assert_eq!(e, AccessError::WrongThread { current: thread_b() });
    assert_eq!(e.message(), "access from a thread other than the owner");
    m.release(&mut cell);
}

#[test]
fn exclusive_guard_reads_what_it_wrote() {
    let mut cell = SingleThreadRefCell::new(vec![1, 2], thread_a());
    let m = cell.borrow_mut(thread_a());
    m.deref_mut(&mut cell).push(3);
    assert_eq!(m.deref(&cell), &vec![1, 2, 3]);
    assert_eq!(m.thread_id(), thread_a());
    m.release(&mut cell);
}

#[test]
fn gate_on_both_cells() {
    let cell = SingleThreadRefCell::new(0, thread_a());
    assert_eq!(cell.get_owner_thread_id(), thread_a());
    assert!(cell.check_same_thread(thread_a()));
    assert!(!cell.check_same_thread(thread_b()));
    cell.check_thread_panic(thread_a());
    assert_eq!(check_owner(cell.get_owner_thread_id(), thread_a()), Ok(()));
    assert_eq!(
        check_owner(cell.get_owner_thread_id(), thread_b()),
        Err(AccessError::WrongThread { current: thread_b() })
    );
    assert_eq!(thread_b().as_u64(), 11);
}

#[test]
fn counter_states() {
    let mut c = BorrowCounter::new();
    assert_eq!(c.flag(), UNUSED);
    assert_eq!(c.acquire_shared(), Ok(()));
    assert_eq!(c.acquire_shared(), Ok(()));
    assert_eq!(c.flag(), 2);
    assert_eq!(c.acquire_exclusive(), Err(AccessError::AlreadyBorrowed));
    c.release_shared();
    assert_eq!(c.flag(), 1);
    c.release_shared();
    assert_eq!(c.flag(), 0);
    assert_eq!(c.acquire_exclusive(), Ok(()));
    assert_eq!(c.flag(), -1);
    assert_eq!(c.acquire_shared(), Err(AccessError::AlreadyMutablyBorrowed));
    assert_eq!(c.acquire_exclusive(), Err(AccessError::AlreadyMutablyBorrowed));
    assert_eq!(c.flag(), -1);
    c.release_exclusive();
    assert_eq!(c.flag(), 0);
}

#[test]
fn counter_values_and_faults() {
    assert!(is_writing(-1));
    assert!(!is_writing(0));
    assert!(!is_writing(3));
    assert!(is_reading(1));
    assert!(!is_reading(0));
    assert!(!is_reading(-1));
    assert_eq!(panic_already_borrowed(), AccessError::AlreadyBorrowed);
    assert_eq!(panic_already_mutably_borrowed(), AccessError::AlreadyMutablyBorrowed);
    assert_eq!(panic_already_mutably_borrowed().message(), "already mutably borrowed");
}
