//! Interrupt-safe mutual-exclusion primitives for a single CPU core.
//!
//! On a single core, a thread that holds a busy-wait lock while an interrupt
//! handler tries to acquire the same lock deadlocks the core: the handler
//! spins forever and the holder can never resume to release the lock. The
//! types here prevent that by disabling regular interrupt delivery for the
//! entire time a lock is held, and restoring the interrupt-enable flag
//! exactly as it was found when the lock is released.
//!
//! The core's interrupt-enable flags are modeled as an explicit
//! [`InterruptState`] value that every operation threads through, so that
//! the whole protocol — snapshot, disable, ordered release, exact restore —
//! is stated in contracts and machine-checked.
//!
//! Key items:
//! * [`hold_interrupts`] and [`HeldInterrupts`]: a scoped token that disables
//!   regular interrupts and restores the prior state on release.
//! * [`MutexIrqSafe`]: an exclusive lock whose guard holds interrupts.
//! * [`RwLockIrqSafe`]: a shared/exclusive lock with the same discipline.

mod held_interrupts;
mod mutex_irqsafe;
mod occupancy;
mod rwlock_irqsafe;

pub use held_interrupts::{
    after_holds, disable_fast_interrupts, disable_interrupts, enable_fast_interrupts,
    enable_interrupts, held_state, hold_interrupts, hold_snapshot, interrupts_enabled,
    lemma_hold_release_exact, lemma_nested_holds_restore, released_state, unwound,
    HeldInterrupts, InterruptState,
};
pub use mutex_irqsafe::{MutexIrqSafe, MutexIrqSafeGuard};
pub use occupancy::{
    granted, lemma_event_sequences_keep_invariant, lemma_exclusive_excludes_shared,
    lemma_step_preserves_invariant, occupancy_invariant, run_events, step, LockEvent, Occupancy,
};
pub use rwlock_irqsafe::{RwLockIrqSafe, RwLockIrqSafeReadGuard, RwLockIrqSafeWriteGuard};
