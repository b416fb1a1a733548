//! An interrupt-safe exclusive lock.
//!
//! [`MutexIrqSafe`] wraps one value together with an exclusive busy-wait
//! lock. Acquiring it first withholds regular interrupts on the current
//! core, so that no interrupt handler on that core can run — and try to
//! re-enter the lock — while the guard is alive. Releasing the guard gives
//! the data lock back strictly before the interrupt flags are restored, so
//! an observer that runs between the two steps sees the data already
//! unlocked while interrupts are still withheld.
//!
//! The lock's occupancy and the core's interrupt flags are explicit model
//! state: every operation takes them as parameters and its contract pins the
//! transition exactly. Guards are released by an explicit call rather than
//! by a destructor, so that the ordered two-step release is itself stated
//! and checked.

use vstd::prelude::*;

use crate::held_interrupts::{
    held_state, hold_interrupts, hold_snapshot, released_state, HeldInterrupts, InterruptState,
};
use crate::occupancy::{granted, step, LockEvent, Occupancy};

verus! {

/// An exclusive busy-wait lock that withholds regular interrupts for as
/// long as it is held.
///
/// At most one guard referencing the lock is live at any time: a guard is
/// granted only from the free occupancy, and the occupancy stays exclusive
/// until that guard is given back.
pub struct MutexIrqSafe<T> {
    locked: bool,
    data: T,
}

/// The guard of an acquired [`MutexIrqSafe`].
///
/// It bundles the exclusive hold on the data with the token that withholds
/// regular interrupts, and is given back through [`MutexIrqSafe::unlock`]
/// (or, split in its two ordered steps, [`MutexIrqSafe::unlock_data`]
/// followed by [`HeldInterrupts::release`]). It contains a
/// [`HeldInterrupts`] token, so it cannot move to another thread.
pub struct MutexIrqSafeGuard {
    held_irq: HeldInterrupts,
}

impl MutexIrqSafeGuard {
    /// The regular-interrupt flag that releasing this guard will restore:
    /// the flag as it stood immediately before the acquisition that created
    /// the guard.
    pub closed spec fn restores_irq_to(self) -> bool {
        self.held_irq.restores_to()
    }
}

impl<T> MutexIrqSafe<T> {
    /// Whether the lock is currently held.
    pub closed spec fn locked(self) -> bool {
        self.locked
    }

    /// The protected value.
    pub closed spec fn value(self) -> T {
        self.data
    }

    /// The lock's occupancy: no readers ever, one writer while held.
    pub open spec fn occupancy(self) -> Occupancy {
        Occupancy { readers: 0, writers: (if self.locked() { 1nat } else { 0nat }) }
    }

    /// Wraps `data` in a new, unheld lock.
    pub fn new(data: T) -> (lock: MutexIrqSafe<T>)
        ensures
            !lock.locked(),
            lock.value() == data,
    {
        MutexIrqSafe { locked: false, data }
    }

    /// Consumes the lock and hands back the protected value.
    pub fn into_inner(self) -> (data: T)
        ensures
            data == self.value(),
    {
        self.data
    }

    /// Whether the lock is currently held. Advisory only: on real hardware
    /// another context may change this the instant after it is read.
    pub fn is_locked(&self) -> (locked: bool)
        ensures
            locked == self.locked(),
    {
        self.locked
    }

    /// A single, non-blocking acquisition attempt.
    ///
    /// If the lock is already held, nothing is returned and neither the lock
    /// nor the interrupt flags change — in particular, interrupts are not
    /// needlessly withheld for an attempt that is already known to fail.
    /// Otherwise regular interrupts are withheld first, the lock is taken,
    /// and the guard bundles the hold with the token that will restore the
    /// pre-acquisition flag. (Under real concurrency the acquisition can
    /// also fail between the occupancy check and the take; the freshly made
    /// token is then released, which likewise leaves the flags unchanged
    /// overall.)
    pub fn try_lock(&mut self, state: &mut InterruptState) -> (guard: Option<MutexIrqSafeGuard>)
        ensures
            final(self).occupancy() == step(old(self).occupancy(), LockEvent::AcquireExclusive),
            guard is Some <==> granted(old(self).occupancy(), LockEvent::AcquireExclusive),
            final(self).value() == old(self).value(),
            guard is None ==> *final(self) == *old(self) && *final(state) == *old(state),
            old(self).locked() ==> guard is None,
            !old(self).locked() ==> guard is Some && final(self).locked() && *final(state)
                == held_state(*old(state)) && guard->Some_0.restores_irq_to() == hold_snapshot(
                *old(state),
            ),
    {
        if self.is_locked() {
            return None;
        }
        let held_irq = hold_interrupts(state);
        self.locked = true;
        Some(MutexIrqSafeGuard { held_irq })
    }

    /// Acquires the lock, busy-waiting until it is free.
    ///
    /// Spinning never suspends the thread and has no timeout: on a lock that
    /// is never released the spin is unbounded. Here the lock's occupancy is
    /// sequential model state, so an acquisition that would spin forever is
    /// ruled out up front and the single attempt must succeed.
    pub fn lock(&mut self, state: &mut InterruptState) -> (guard: MutexIrqSafeGuard)
        requires
            !old(self).locked(),
        ensures
            final(self).locked(),
            final(self).value() == old(self).value(),
            *final(state) == held_state(*old(state)),
            guard.restores_irq_to() == hold_snapshot(*old(state)),
    {
        self.try_lock(state).unwrap()
    }

    /// First half of a guard release: gives the data lock back, consuming
    /// the guard, and hands out its interrupt token still unreleased.
    ///
    /// Between this call and [`HeldInterrupts::release`] on the returned
    /// token, the data is already unlocked while the interrupt flags still
    /// stand exactly as the critical section left them: this function does
    /// not touch them at all.
    pub fn unlock_data(&mut self, guard: MutexIrqSafeGuard) -> (held: HeldInterrupts)
        requires
            old(self).locked(),
        ensures
            !final(self).locked(),
            final(self).occupancy() == step(old(self).occupancy(), LockEvent::ReleaseExclusive),
            final(self).value() == old(self).value(),
            held.restores_to() == guard.restores_irq_to(),
    {
        self.locked = false;
        guard.held_irq
    }

    /// Gives a guard back: the data lock is released strictly first, then
    /// the guard's token restores the regular-interrupt flag to what it was
    /// immediately before the acquisition.
    pub fn unlock(&mut self, guard: MutexIrqSafeGuard, state: &mut InterruptState)
        requires
            old(self).locked(),
        ensures
            !final(self).locked(),
            final(self).occupancy() == step(old(self).occupancy(), LockEvent::ReleaseExclusive),
            final(self).value() == old(self).value(),
            *final(state) == released_state(*old(state), guard.restores_irq_to()),
    {
        let held = self.unlock_data(guard);
        held.release(state);
    }

    /// Borrows the protected value through a live guard.
    pub fn borrow<'a>(&'a self, _guard: &MutexIrqSafeGuard) -> (data: &'a T)
        requires
            self.locked(),
        ensures
            *data == self.value(),
    {
        &self.data
    }

    /// Mutably borrows the protected value through a live guard.
    pub fn borrow_mut<'a>(&'a mut self, _guard: &MutexIrqSafeGuard) -> (data: &'a mut T)
        requires
            old(self).locked(),
        ensures
            *data == old(self).value(),
            final(self).value() == *final(data),
            final(self).locked(),
    {
        &mut self.data
    }

    /// Escape hatch: releases the data lock without a guard and without
    /// touching any interrupt state. A no-op if the lock is not held.
    ///
    /// Correct use is entirely the caller's responsibility: if a guard is
    /// still outstanding, the protection it stood for is gone, and its token
    /// will still restore interrupts when it is eventually released.
    pub fn force_unlock(&mut self)
        ensures
            !final(self).locked(),
            final(self).value() == old(self).value(),
    {
        self.locked = false;
    }

    /// Mutable access to the protected value with no locking at all.
    ///
    /// Exclusive access to the lock wrapper itself proves no guard can be
    /// outstanding, which the precondition states; nothing is acquired and
    /// no interrupt state is touched (none is even passed in).
    pub fn get_mut<'a>(&'a mut self) -> (data: &'a mut T)
        requires
            !old(self).locked(),
        ensures
            *data == old(self).value(),
            final(self).value() == *final(data),
            !final(self).locked(),
    {
        &mut self.data
    }

    /// The two steps of [`Self::unlock`] happen in a fixed order, and
    /// between them an observer sees the data already unlocked while
    /// regular interrupts are still withheld: `unlock` first calls
    /// [`Self::unlock_data`] — `observed` below is the lock at that
    /// observation point — and only then releases the token. `unlock_data`
    /// takes no interrupt state at all, so whenever the critical section
    /// left the flags as the acquisition set them (`held_state(s0)` for the
    /// pre-acquisition flags `s0`), the observation point pairs a free lock
    /// with still-withheld regular interrupts.
    pub proof fn lemma_release_order_window(
        held_lock: MutexIrqSafe<T>,
        observed: MutexIrqSafe<T>,
        s0: InterruptState,
    )
        requires
            held_lock.locked(),
            observed.occupancy() == step(held_lock.occupancy(), LockEvent::ReleaseExclusive),
        ensures
            !observed.locked(),
            !held_state(s0).irq_enabled,
    {
    }

    /// Non-blocking inspection, for building a debug view: the current value
    /// when the lock is uncontended, or nothing — standing for a "locked"
    /// placeholder — when it is held. Never blocks and never touches
    /// interrupt state.
    pub fn peek(&self) -> (data: Option<&T>)
        ensures
            self.locked() ==> data is None,
            !self.locked() ==> data is Some && *data->Some_0 == self.value(),
    {
        if self.locked {
            None
        } else {
            Some(&self.data)
        }
    }
}

} // verus!
