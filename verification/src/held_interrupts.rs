//! Control of a core's interrupt-enable flags, and the scoped token that
//! withholds regular interrupts until it is released.
//!
//! Hardware keeps one set of interrupt-enable flags per CPU core. This module
//! models those flags as an explicit [`InterruptState`] value: every operation
//! that would touch the hardware flag register instead takes the state as a
//! parameter and states in its contract exactly how the flags change. An
//! unverified hardware backend owns the real flag register and mirrors each
//! transition onto it.

use core::marker::PhantomData;
use std::rc::Rc;
use vstd::prelude::*;

verus! {

/// The interrupt-enable flags of a single CPU core.
///
/// `irq_enabled` is the regular (maskable) interrupt line; `fast_enabled` is
/// a separate, higher-priority interrupt class that the regular-interrupt
/// operations never touch. Non-maskable interrupts are outside this model:
/// nothing here can withhold them.
#[derive(Clone, Copy, PartialEq, Eq, Structural, Debug)]
pub struct InterruptState {
    /// Whether regular (maskable) interrupts are currently deliverable.
    pub irq_enabled: bool,
    /// Whether fast, higher-priority interrupts are currently deliverable.
    pub fast_enabled: bool,
}

/// Reads whether regular interrupts are deliverable, without side effects.
///
/// Only the regular-interrupt flag is reported, never the fast-interrupt
/// class.
pub fn interrupts_enabled(state: &InterruptState) -> (enabled: bool)
    ensures
        enabled == state.irq_enabled,
{
    state.irq_enabled
}

/// Unconditionally makes regular interrupts deliverable.
///
/// The fast-interrupt class is kept fully independent: this never changes it.
pub fn enable_interrupts(state: &mut InterruptState)
    ensures
        final(state).irq_enabled,
        final(state).fast_enabled == old(state).fast_enabled,
{
    state.irq_enabled = true;
}

/// Unconditionally stops delivery of regular interrupts.
///
/// The fast-interrupt class is kept fully independent: this never changes it.
pub fn disable_interrupts(state: &mut InterruptState)
    ensures
        !final(state).irq_enabled,
        final(state).fast_enabled == old(state).fast_enabled,
{
    state.irq_enabled = false;
}

/// Unconditionally makes fast interrupts deliverable, leaving the
/// regular-interrupt flag untouched.
pub fn enable_fast_interrupts(state: &mut InterruptState)
    ensures
        final(state).fast_enabled,
        final(state).irq_enabled == old(state).irq_enabled,
{
    state.fast_enabled = true;
}

/// Unconditionally stops delivery of fast interrupts, leaving the
/// regular-interrupt flag untouched.
pub fn disable_fast_interrupts(state: &mut InterruptState)
    ensures
        !final(state).fast_enabled,
        final(state).irq_enabled == old(state).irq_enabled,
{
    state.fast_enabled = false;
}

/// A token that withholds regular interrupts on the core that created it.
///
/// The token owns a snapshot of the regular-interrupt flag taken at creation.
/// While it is alive, regular interrupts stay disabled; releasing it
/// re-enables them only if the snapshot says they were enabled before —
/// never unconditionally.
///
/// Interrupt state belongs to one core, so a token must be released on the
/// core whose state it captured; the phantom field keeps the type from being
/// sent to another thread.
pub struct HeldInterrupts {
    saved_irq: bool,
    _not_send: PhantomData<Rc<()>>,
}

impl HeldInterrupts {
    /// The regular-interrupt flag as it stood when this token was created,
    /// i.e. the value that releasing the token will restore.
    pub closed spec fn restores_to(self) -> bool {
        self.saved_irq
    }

    /// Releases the token: regular interrupts are re-enabled if and only if
    /// they were enabled when the token was created (or have been re-enabled
    /// behind the token's back, which the release never undoes).
    pub fn release(self, state: &mut InterruptState)
        ensures
            *final(state) == released_state(*old(state), self.restores_to()),
    {
        if self.saved_irq {
            enable_interrupts(state);
        }
    }
}

/// Snapshots the regular-interrupt flag, disables regular interrupts, and
/// returns the token that will restore the snapshot.
///
/// Only regular interrupts are withheld; the fast-interrupt class and
/// non-maskable interrupts are unaffected.
pub fn hold_interrupts(state: &mut InterruptState) -> (held: HeldInterrupts)
    ensures
        *final(state) == held_state(*old(state)),
        held.restores_to() == hold_snapshot(*old(state)),
{
    let enabled = interrupts_enabled(state);
    let held = HeldInterrupts { saved_irq: enabled, _not_send: PhantomData };
    disable_interrupts(state);
    held
}

/// The core's flags after a hold: regular interrupts off, fast interrupts
/// untouched.
pub open spec fn held_state(s: InterruptState) -> InterruptState {
    InterruptState { irq_enabled: false, fast_enabled: s.fast_enabled }
}

/// The snapshot a hold taken on flags `s` stores in its token.
pub open spec fn hold_snapshot(s: InterruptState) -> bool {
    s.irq_enabled
}

/// The core's flags after releasing a token with snapshot `saved` on flags
/// `s`: the release enables regular interrupts when the snapshot says so and
/// otherwise leaves the flags alone.
pub open spec fn released_state(s: InterruptState, saved: bool) -> InterruptState {
    InterruptState { irq_enabled: s.irq_enabled || saved, fast_enabled: s.fast_enabled }
}

/// Releasing a token directly after the hold that created it restores the
/// pre-hold flags exactly — both when interrupts were enabled before and
/// when they were already disabled.
pub proof fn lemma_hold_release_exact(s: InterruptState)
    ensures
        released_state(held_state(s), hold_snapshot(s)) == s,
{
}

/// The core's flags after `n` nested holds starting from `s`.
pub open spec fn after_holds(s: InterruptState, n: nat) -> InterruptState
    decreases n,
{
    if n == 0 {
        s
    } else {
        held_state(after_holds(s, (n - 1) as nat))
    }
}

/// The core's flags after releasing, in reverse order of creation, the `n`
/// innermost of the tokens produced by nested holds that started from `s0`,
/// with the flags currently at `cur`. Token number `k` (counting from 1)
/// carries the snapshot taken just before hold number `k`.
pub open spec fn unwound(s0: InterruptState, cur: InterruptState, n: nat) -> InterruptState
    decreases n,
{
    if n == 0 {
        cur
    } else {
        unwound(
            s0,
            released_state(cur, hold_snapshot(after_holds(s0, (n - 1) as nat))),
            (n - 1) as nat,
        )
    }
}

/// Nesting any number of holds and releasing the tokens in reverse order
/// restores the original pre-nesting flags exactly.
pub proof fn lemma_nested_holds_restore(s0: InterruptState, n: nat)
    ensures
        unwound(s0, after_holds(s0, n), n) == s0,
    decreases n,
{
    if n > 0 {
        assert(released_state(after_holds(s0, n), hold_snapshot(after_holds(s0, (n - 1) as nat)))
            == after_holds(s0, (n - 1) as nat));
        lemma_nested_holds_restore(s0, (n - 1) as nat);
    }
}

} // verus!
