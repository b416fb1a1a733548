//! An interrupt-safe shared/exclusive (reader/writer) lock.
//!
//! [`RwLockIrqSafe`] wraps one value together with a busy-wait
//! reader/writer lock. Any number of read guards may be live at once, or at
//! most one write guard, never both. Every acquisition withholds regular
//! interrupts on the current core for as long as its guard is alive, and
//! every release gives the data lock back strictly before the interrupt
//! flags are restored — the same discipline as the exclusive lock, for each
//! of the two guard kinds.
//!
//! The occupancy (reader and writer counts) and the core's interrupt flags
//! are explicit model state; every operation's contract pins its transition
//! as a [`step`] of the occupancy state machine.

use vstd::prelude::*;

use crate::held_interrupts::{
    held_state, hold_interrupts, hold_snapshot, released_state, HeldInterrupts, InterruptState,
};
use crate::occupancy::{granted, step, LockEvent, Occupancy};

verus! {

/// A shared/exclusive busy-wait lock that withholds regular interrupts for
/// as long as any of its guards is held.
///
/// In every reachable state the writer count is 0 or 1, and a writer
/// excludes all readers.
pub struct RwLockIrqSafe<T> {
    readers: usize,
    writer: bool,
    data: T,
}

/// The guard of a shared (read) acquisition of an [`RwLockIrqSafe`].
///
/// Given back through [`RwLockIrqSafe::read_unlock`], or in two ordered
/// steps through [`RwLockIrqSafe::read_unlock_data`] followed by
/// [`HeldInterrupts::release`]. It contains a [`HeldInterrupts`] token, so
/// it cannot move to another thread.
pub struct RwLockIrqSafeReadGuard {
    held_irq: HeldInterrupts,
}

/// The guard of an exclusive (write) acquisition of an [`RwLockIrqSafe`].
///
/// Given back through [`RwLockIrqSafe::write_unlock`], or in two ordered
/// steps through [`RwLockIrqSafe::write_unlock_data`] followed by
/// [`HeldInterrupts::release`]. It contains a [`HeldInterrupts`] token, so
/// it cannot move to another thread.
pub struct RwLockIrqSafeWriteGuard {
    held_irq: HeldInterrupts,
}

impl RwLockIrqSafeReadGuard {
    /// The regular-interrupt flag that releasing this guard will restore:
    /// the flag as it stood immediately before the acquisition.
    pub closed spec fn restores_irq_to(self) -> bool {
        self.held_irq.restores_to()
    }
}

impl RwLockIrqSafeWriteGuard {
    /// The regular-interrupt flag that releasing this guard will restore:
    /// the flag as it stood immediately before the acquisition.
    pub closed spec fn restores_irq_to(self) -> bool {
        self.held_irq.restores_to()
    }
}

impl<T> RwLockIrqSafe<T> {
    /// How many readers currently hold the lock.
    pub closed spec fn readers(self) -> nat {
        self.readers as nat
    }

    /// Whether a writer currently holds the lock.
    pub closed spec fn writer(self) -> bool {
        self.writer
    }

    /// The protected value.
    pub closed spec fn value(self) -> T {
        self.data
    }

    /// The lock's occupancy in the shared state machine.
    pub open spec fn occupancy(self) -> Occupancy {
        Occupancy { readers: self.readers(), writers: (if self.writer() { 1nat } else { 0nat }) }
    }

    /// Wraps `data` in a new, entirely free lock.
    pub fn new(data: T) -> (lock: RwLockIrqSafe<T>)
        ensures
            lock.readers() == 0,
            !lock.writer(),
            lock.value() == data,
    {
        RwLockIrqSafe { readers: 0, writer: false, data }
    }

    /// Consumes the lock and hands back the protected value.
    pub fn into_inner(self) -> (data: T)
        ensures
            data == self.value(),
    {
        self.data
    }

    /// How many readers currently hold the lock. Advisory only: on real
    /// hardware another context may change this the instant after it is
    /// read; it must not carry a correctness decision.
    pub fn reader_count(&self) -> (count: usize)
        ensures
            count == self.readers(),
    {
        self.readers
    }

    /// How many writers currently hold the lock — always 0 or 1, since
    /// write access is exclusive. Advisory only, like
    /// [`Self::reader_count`].
    pub fn writer_count(&self) -> (count: usize)
        ensures
            count == (if self.writer() { 1int } else { 0int }),
    {
        if self.writer {
            1
        } else {
            0
        }
    }

    /// A single, non-blocking shared acquisition attempt.
    ///
    /// If a writer holds the lock, nothing is returned and neither the lock
    /// nor the interrupt flags change — interrupts are not needlessly
    /// withheld for an attempt that is already known to fail. Otherwise
    /// regular interrupts are withheld first, the reader count grows by
    /// one, and the guard bundles the shared hold with the token that will
    /// restore the pre-acquisition flag.
    pub fn try_read(&mut self, state: &mut InterruptState) -> (guard: Option<
        RwLockIrqSafeReadGuard,
    >)
        requires
            old(self).readers() < usize::MAX,
        ensures
            final(self).occupancy() == step(old(self).occupancy(), LockEvent::AcquireShared),
            guard is Some <==> granted(old(self).occupancy(), LockEvent::AcquireShared),
            final(self).value() == old(self).value(),
            guard is None ==> *final(self) == *old(self) && *final(state) == *old(state),
            guard is Some ==> *final(state) == held_state(*old(state))
                && guard->Some_0.restores_irq_to() == hold_snapshot(*old(state)),
    {
        if self.writer {
            return None;
        }
        let held_irq = hold_interrupts(state);
        self.readers = self.readers + 1;
        Some(RwLockIrqSafeReadGuard { held_irq })
    }

    /// Acquires shared access, busy-waiting until no writer holds the lock.
    ///
    /// Spinning never suspends the thread and has no timeout. Here the
    /// occupancy is sequential model state, so an acquisition that would
    /// spin forever is ruled out up front and the single attempt must
    /// succeed.
    pub fn read(&mut self, state: &mut InterruptState) -> (guard: RwLockIrqSafeReadGuard)
        requires
            !old(self).writer(),
            old(self).readers() < usize::MAX,
        ensures
            final(self).readers() == old(self).readers() + 1,
            !final(self).writer(),
            final(self).value() == old(self).value(),
            *final(state) == held_state(*old(state)),
            guard.restores_irq_to() == hold_snapshot(*old(state)),
    {
        self.try_read(state).unwrap()
    }

    /// A single, non-blocking exclusive acquisition attempt.
    ///
    /// If any reader or writer holds the lock, nothing is returned and
    /// neither the lock nor the interrupt flags change. Otherwise regular
    /// interrupts are withheld first, the lock becomes exclusively held,
    /// and the guard bundles the hold with the token that will restore the
    /// pre-acquisition flag.
    pub fn try_write(&mut self, state: &mut InterruptState) -> (guard: Option<
        RwLockIrqSafeWriteGuard,
    >)
        ensures
            final(self).occupancy() == step(old(self).occupancy(), LockEvent::AcquireExclusive),
            guard is Some <==> granted(old(self).occupancy(), LockEvent::AcquireExclusive),
            final(self).value() == old(self).value(),
            guard is None ==> *final(self) == *old(self) && *final(state) == *old(state),
            guard is Some ==> *final(state) == held_state(*old(state))
                && guard->Some_0.restores_irq_to() == hold_snapshot(*old(state)),
    {
        if self.writer || self.readers > 0 {
            return None;
        }
        let held_irq = hold_interrupts(state);
        self.writer = true;
        Some(RwLockIrqSafeWriteGuard { held_irq })
    }

    /// Acquires exclusive access, busy-waiting until the lock is entirely
    /// free.
    ///
    /// Spinning never suspends the thread and has no timeout. Here the
    /// occupancy is sequential model state, so an acquisition that would
    /// spin forever is ruled out up front and the single attempt must
    /// succeed.
    pub fn write(&mut self, state: &mut InterruptState) -> (guard: RwLockIrqSafeWriteGuard)
        requires
            !old(self).writer(),
            old(self).readers() == 0,
        ensures
            final(self).writer(),
            final(self).readers() == 0,
            final(self).value() == old(self).value(),
            *final(state) == held_state(*old(state)),
            guard.restores_irq_to() == hold_snapshot(*old(state)),
    {
        self.try_write(state).unwrap()
    }

    /// First half of a read-guard release: gives the shared hold back,
    /// consuming the guard, and hands out its interrupt token still
    /// unreleased. Does not touch any interrupt state.
    pub fn read_unlock_data(&mut self, guard: RwLockIrqSafeReadGuard) -> (held: HeldInterrupts)
        requires
            old(self).readers() > 0,
        ensures
            final(self).occupancy() == step(old(self).occupancy(), LockEvent::ReleaseShared),
            final(self).readers() == old(self).readers() - 1,
            final(self).writer() == old(self).writer(),
            final(self).value() == old(self).value(),
            held.restores_to() == guard.restores_irq_to(),
    {
        self.readers = self.readers - 1;
        guard.held_irq
    }

    /// Gives a read guard back: the shared hold is released strictly first,
    /// then the guard's token restores the regular-interrupt flag to what
    /// it was immediately before the acquisition.
    pub fn read_unlock(&mut self, guard: RwLockIrqSafeReadGuard, state: &mut InterruptState)
        requires
            old(self).readers() > 0,
        ensures
            final(self).occupancy() == step(old(self).occupancy(), LockEvent::ReleaseShared),
            final(self).readers() == old(self).readers() - 1,
            final(self).writer() == old(self).writer(),
            final(self).value() == old(self).value(),
            *final(state) == released_state(*old(state), guard.restores_irq_to()),
    {
        let held = self.read_unlock_data(guard);
        held.release(state);
    }

    /// First half of a write-guard release: gives the exclusive hold back,
    /// consuming the guard, and hands out its interrupt token still
    /// unreleased. Does not touch any interrupt state.
    pub fn write_unlock_data(&mut self, guard: RwLockIrqSafeWriteGuard) -> (held: HeldInterrupts)
        requires
            old(self).writer(),
        ensures
            final(self).occupancy() == step(old(self).occupancy(), LockEvent::ReleaseExclusive),
            !final(self).writer(),
            final(self).readers() == old(self).readers(),
            final(self).value() == old(self).value(),
            held.restores_to() == guard.restores_irq_to(),
    {
        self.writer = false;
        guard.held_irq
    }

    /// Gives a write guard back: the exclusive hold is released strictly
    /// first, then the guard's token restores the regular-interrupt flag to
    /// what it was immediately before the acquisition.
    pub fn write_unlock(&mut self, guard: RwLockIrqSafeWriteGuard, state: &mut InterruptState)
        requires
            old(self).writer(),
        ensures
            final(self).occupancy() == step(old(self).occupancy(), LockEvent::ReleaseExclusive),
            !final(self).writer(),
            final(self).readers() == old(self).readers(),
            final(self).value() == old(self).value(),
            *final(state) == released_state(*old(state), guard.restores_irq_to()),
    {
        let held = self.write_unlock_data(guard);
        held.release(state);
    }

    /// Borrows the protected value through a live read guard.
    pub fn borrow_shared<'a>(&'a self, _guard: &RwLockIrqSafeReadGuard) -> (data: &'a T)
        requires
            self.readers() > 0,
        ensures
            *data == self.value(),
    {
        &self.data
    }

    /// Borrows the protected value through a live write guard.
    pub fn borrow_exclusive<'a>(&'a self, _guard: &RwLockIrqSafeWriteGuard) -> (data: &'a T)
        requires
            self.writer(),
        ensures
            *data == self.value(),
    {
        &self.data
    }

    /// Mutably borrows the protected value through a live write guard.
    pub fn borrow_exclusive_mut<'a>(&'a mut self, _guard: &RwLockIrqSafeWriteGuard) -> (data:
        &'a mut T)
        requires
            old(self).writer(),
        ensures
            *data == old(self).value(),
            final(self).value() == *final(data),
            final(self).writer(),
            final(self).readers() == old(self).readers(),
    {
        &mut self.data
    }

    /// Escape hatch: decrements the reader count without a guard and
    /// without touching any interrupt state.
    ///
    /// Correct use is entirely the caller's responsibility: called while a
    /// read guard is outstanding, or more often than readers acquired, the
    /// protection the count stood for is gone.
    pub fn force_read_decrement(&mut self)
        requires
            old(self).readers() > 0,
        ensures
            final(self).readers() == old(self).readers() - 1,
            final(self).writer() == old(self).writer(),
            final(self).value() == old(self).value(),
    {
        self.readers = self.readers - 1;
    }

    /// Escape hatch: releases exclusive access without a guard and without
    /// touching any interrupt state. A no-op if no writer holds the lock.
    ///
    /// Correct use is entirely the caller's responsibility: called while a
    /// write guard is outstanding, the exclusivity it stood for is gone.
    pub fn force_write_unlock(&mut self)
        ensures
            !final(self).writer(),
            final(self).readers() == old(self).readers(),
            final(self).value() == old(self).value(),
    {
        self.writer = false;
    }

    /// Mutable access to the protected value with no locking at all.
    ///
    /// Exclusive access to the lock wrapper itself proves no guard can be
    /// outstanding, which the precondition states; nothing is acquired and
    /// no interrupt state is touched (none is even passed in).
    pub fn get_mut<'a>(&'a mut self) -> (data: &'a mut T)
        requires
            !old(self).writer(),
            old(self).readers() == 0,
        ensures
            *data == old(self).value(),
            final(self).value() == *final(data),
            !final(self).writer(),
            final(self).readers() == 0,
    {
        &mut self.data
    }

    /// The two steps of [`Self::read_unlock`] happen in a fixed order, and
    /// between them an observer sees the shared hold already given back
    /// while regular interrupts are still withheld: the data step —
    /// `observed` below is the lock at that observation point — takes no
    /// interrupt state at all, so whenever the critical section left the
    /// flags as the acquisition set them (`held_state(s0)` for the
    /// pre-acquisition flags `s0`), the observation point pairs the
    /// decremented reader count with still-withheld regular interrupts.
    pub proof fn lemma_read_release_order_window(
        held_lock: RwLockIrqSafe<T>,
        observed: RwLockIrqSafe<T>,
        s0: InterruptState,
    )
        requires
            held_lock.readers() > 0,
            observed.occupancy() == step(held_lock.occupancy(), LockEvent::ReleaseShared),
        ensures
            observed.readers() == held_lock.readers() - 1,
            observed.writer() == held_lock.writer(),
            !held_state(s0).irq_enabled,
    {
    }

    /// The same fixed order for [`Self::write_unlock`]: at the observation
    /// point between its two steps, the exclusive hold is already given
    /// back while regular interrupts are still withheld.
    pub proof fn lemma_write_release_order_window(
        held_lock: RwLockIrqSafe<T>,
        observed: RwLockIrqSafe<T>,
        s0: InterruptState,
    )
        requires
            held_lock.writer(),
            observed.occupancy() == step(held_lock.occupancy(), LockEvent::ReleaseExclusive),
        ensures
            !observed.writer(),
            observed.readers() == held_lock.readers(),
            !held_state(s0).irq_enabled,
    {
    }

    /// Non-blocking inspection, for building a debug view: the current
    /// value whenever no writer holds the lock (readers do not block a
    /// shared peek), or nothing — standing for a "locked" placeholder —
    /// while a writer holds it. Never blocks and never touches interrupt
    /// state.
    pub fn peek(&self) -> (data: Option<&T>)
        ensures
            self.writer() ==> data is None,
            !self.writer() ==> data is Some && *data->Some_0 == self.value(),
    {
        if self.writer {
            None
        } else {
            Some(&self.data)
        }
    }
}

} // verus!
