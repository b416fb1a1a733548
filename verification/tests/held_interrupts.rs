use irq_safety::{
    disable_fast_interrupts, disable_interrupts, enable_fast_interrupts, enable_interrupts,
    hold_interrupts, interrupts_enabled, InterruptState,
};

#[test]
fn enable_disable_toggle_only_the_regular_flag() {
    let mut s = InterruptState { irq_enabled: false, fast_enabled: true };
    enable_interrupts(&mut s);
    assert!(s.irq_enabled);
    assert!(s.fast_enabled);
    disable_interrupts(&mut s);
    assert!(!s.irq_enabled);
    assert!(s.fast_enabled);
    assert!(!interrupts_enabled(&s));
}

#[test]
fn fast_interrupt_ops_leave_the_regular_flag_alone() {
    let mut s = InterruptState { irq_enabled: true, fast_enabled: true };
    disable_fast_interrupts(&mut s);
    assert!(!s.fast_enabled);
    assert!(s.irq_enabled);
    enable_fast_interrupts(&mut s);
    assert!(s.fast_enabled);
    assert!(s.irq_enabled);
}

#[test]
fn hold_disables_and_release_restores_enabled_state() {
    let mut s = InterruptState { irq_enabled: true, fast_enabled: false };
    let held = hold_interrupts(&mut s);
    assert!(!interrupts_enabled(&s));
    assert!(!s.fast_enabled);
    held.release(&mut s);
    assert!(interrupts_enabled(&s));
    assert!(!s.fast_enabled);
}

#[test]
fn release_does_not_blindly_reenable_a_disabled_state() {
    let mut s = InterruptState { irq_enabled: false, fast_enabled: true };
    let held = hold_interrupts(&mut s);
    assert!(!interrupts_enabled(&s));
    held.release(&mut s);
    assert!(!interrupts_enabled(&s));
    assert!(s.fast_enabled);
}

#[test]
fn nested_holds_released_in_reverse_order_restore_the_original_state() {
    let mut s = InterruptState { irq_enabled: true, fast_enabled: true };
    let outer = hold_interrupts(&mut s);
    assert!(!s.irq_enabled);
    let inner = hold_interrupts(&mut s);
    assert!(!s.irq_enabled);
    inner.release(&mut s);
    assert!(!s.irq_enabled);
    outer.release(&mut s);
    assert!(s.irq_enabled);
    assert!(s.fast_enabled);
}

#[test]
fn three_deep_nesting_restores_each_intermediate_state() {
    let mut s = InterruptState { irq_enabled: true, fast_enabled: false };
    let t1 = hold_interrupts(&mut s);
    let t2 = hold_interrupts(&mut s);
    let t3 = hold_interrupts(&mut s);
    t3.release(&mut s);
    assert!(!s.irq_enabled);
    t2.release(&mut s);
    assert!(!s.irq_enabled);
    t1.release(&mut s);
    assert!(s.irq_enabled);
}
