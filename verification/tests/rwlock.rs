use irq_safety::{interrupts_enabled, InterruptState, RwLockIrqSafe};

fn fresh_state() -> InterruptState {
    InterruptState { irq_enabled: true, fast_enabled: true }
}

#[test]
fn concurrent_readers_are_counted_and_all_see_the_value() {
    let mut s = fresh_state();
    let mut l = RwLockIrqSafe::new(7u32);
    let r1 = l.read(&mut s);
    let r2 = l.try_read(&mut s).unwrap();
    let r3 = l.read(&mut s);
    assert_eq!(l.reader_count(), 3);
    assert_eq!(l.writer_count(), 0);
    assert_eq!(*l.borrow_shared(&r1), 7);
    assert_eq!(*l.borrow_shared(&r2), 7);
    assert!(!interrupts_enabled(&s));
    l.read_unlock(r3, &mut s);
    l.read_unlock(r2, &mut s);
    assert_eq!(l.reader_count(), 1);
    l.read_unlock(r1, &mut s);
    assert_eq!(l.reader_count(), 0);
    assert!(interrupts_enabled(&s));
}

#[test]
fn try_read_with_a_writer_held_returns_nothing_without_touching_interrupts() {
    let mut s = fresh_state();
    let mut l = RwLockIrqSafe::new(1u8);
    let w = l.write(&mut s);
    assert_eq!(l.writer_count(), 1);
    // A re-entrant read attempt on the same core: refused, state intact.
    let mut observer = InterruptState { irq_enabled: true, fast_enabled: false };
    assert!(l.try_read(&mut observer).is_none());
    assert_eq!(observer, InterruptState { irq_enabled: true, fast_enabled: false });
    assert_eq!(l.writer_count(), 1);
    assert_eq!(l.reader_count(), 0);
    assert_eq!(*l.borrow_exclusive(&w), 1);
    l.write_unlock(w, &mut s);
    assert!(interrupts_enabled(&s));
}

#[test]
fn try_write_is_refused_while_readers_or_a_writer_hold_the_lock() {
    let mut s = fresh_state();
    let mut l = RwLockIrqSafe::new(0i64);
    let r = l.read(&mut s);
    let before = s;
    assert!(l.try_write(&mut s).is_none());
    assert_eq!(s, before);
    l.read_unlock(r, &mut s);

    let w = l.write(&mut s);
    let before = s;
    assert!(l.try_write(&mut s).is_none());
    assert_eq!(s, before);
    l.write_unlock(w, &mut s);
}

#[test]
fn write_mutate_release_then_read_sees_the_new_value() {
    let mut s = fresh_state();
    let mut l = RwLockIrqSafe::new(0u64);
    let w = l.write(&mut s);
    *l.borrow_exclusive_mut(&w) = 42;
    l.write_unlock(w, &mut s);
    let r = l.read(&mut s);
    assert_eq!(*l.borrow_shared(&r), 42);
    l.read_unlock(r, &mut s);
}

#[test]
fn write_guard_release_restores_the_exact_preacquire_interrupt_state() {
    let mut s = InterruptState { irq_enabled: false, fast_enabled: true };
    let mut l = RwLockIrqSafe::new(2u8);
    let w = l.write(&mut s);
    assert!(!interrupts_enabled(&s));
    l.write_unlock(w, &mut s);
    assert!(!interrupts_enabled(&s));

    let mut s = InterruptState { irq_enabled: true, fast_enabled: true };
    let w = l.write(&mut s);
    l.write_unlock(w, &mut s);
    assert!(interrupts_enabled(&s));
}

#[test]
fn read_release_unlocks_the_data_strictly_before_interrupts_are_restored() {
    let mut s = fresh_state();
    let mut l = RwLockIrqSafe::new(3u16);
    let r = l.read(&mut s);
    let held = l.read_unlock_data(r);
    assert_eq!(l.reader_count(), 0);
    assert!(!interrupts_enabled(&s));
    held.release(&mut s);
    assert!(interrupts_enabled(&s));
}

#[test]
fn write_release_unlocks_the_data_strictly_before_interrupts_are_restored() {
    let mut s = fresh_state();
    let mut l = RwLockIrqSafe::new(3u16);
    let w = l.write(&mut s);
    let held = l.write_unlock_data(w);
    assert_eq!(l.writer_count(), 0);
    assert!(!interrupts_enabled(&s));
    held.release(&mut s);
    assert!(interrupts_enabled(&s));
}

#[test]
fn force_escapes_release_occupancy_without_touching_interrupts() {
    let mut s = fresh_state();
    let mut l = RwLockIrqSafe::new(5u8);
    let _r = l.read(&mut s);
    l.force_read_decrement();
    assert_eq!(l.reader_count(), 0);
    assert!(!interrupts_enabled(&s));

    let mut s = fresh_state();
    let _w = l.write(&mut s);
    l.force_write_unlock();
    assert_eq!(l.writer_count(), 0);
    assert!(!interrupts_enabled(&s));
    // Idempotent when no writer holds the lock.
    l.force_write_unlock();
    assert_eq!(l.writer_count(), 0);
}

#[test]
fn get_mut_bypasses_the_rwlock_and_never_touches_interrupt_state() {
    let mut l = RwLockIrqSafe::new(0u32);
    *l.get_mut() = 9;
    let mut s = fresh_state();
    let r = l.read(&mut s);
    assert_eq!(*l.borrow_shared(&r), 9);
    l.read_unlock(r, &mut s);
    assert!(s.irq_enabled && s.fast_enabled);
}

#[test]
fn rwlock_into_inner_returns_the_wrapped_value() {
    let l = RwLockIrqSafe::new(vec![1u8, 2, 3]);
    assert_eq!(l.into_inner(), vec![1u8, 2, 3]);
}

#[test]
fn rwlock_peek_is_blocked_only_by_a_writer() {
    let mut s = fresh_state();
    let mut l = RwLockIrqSafe::new(8i8);
    assert_eq!(l.peek().copied(), Some(8));
    let r = l.read(&mut s);
    assert_eq!(l.peek().copied(), Some(8));
    l.read_unlock(r, &mut s);
    let w = l.write(&mut s);
    assert!(l.peek().is_none());
    l.write_unlock(w, &mut s);
}

#[test]
fn a_thousand_increments_through_the_rwlock_converge_to_a_thousand() {
    let mut s = fresh_state();
    let mut l = RwLockIrqSafe::new(0u64);
    for _ in 0..1000 {
        let w = l.write(&mut s);
        *l.borrow_exclusive_mut(&w) += 1;
        l.write_unlock(w, &mut s);
    }
    assert_eq!(l.into_inner(), 1000);
}
