use irq_core::cpu::irqs_disabled;
use irq_core::cpu::raise_softirq;
use irq_core::cpu::raise_softirq_irqoff;
use irq_core::cpu::with_irqs_disabled;
use irq_core::cpu::Cpu;
use irq_core::cpu::SoftirqSlot;

#[test]
fn body_runs_with_interrupts_masked() {
    let cpu = Cpu::new();
    assert!(cpu.irqs_on);
    let (after, seen_masked) = with_irqs_disabled(cpu, |m: Cpu| {
        let masked = irqs_disabled(&m);
        (m, masked)
    });
    assert!(seen_masked);
    assert!(after.irqs_on);
}

#[test]
fn abnormal_exit_still_restores_state() {
    let cpu = Cpu::new();
    let (after, outcome) = with_irqs_disabled(cpu, |m: Cpu| {
        // The body fails and propagates its error out of the section.
        (m, Err::<u32, i32>(-5))
    });
    assert_eq!(outcome, Err(-5));
    // The prior interrupt-enable state is restored regardless.
    assert!(after.irqs_on);

    let masked_entry = Cpu { irqs_on: false, softirq_pending: 0 };
    let (after, outcome) = with_irqs_disabled(masked_entry, |m: Cpu| {
        (m, Err::<u32, i32>(-7))
    });
    assert_eq!(outcome, Err(-7));
    assert!(!after.irqs_on);
}

#[test]
fn misbehaving_body_is_still_restored() {
    let cpu = Cpu::new();
    let (after, _ignored) = with_irqs_disabled(cpu, |m: Cpu| {
        let rogue = Cpu { irqs_on: true, softirq_pending: m.softirq_pending };
        (rogue, 0u8)
    });
    assert!(after.irqs_on);

    let masked_entry = Cpu { irqs_on: false, softirq_pending: 0 };
    let (after, _ignored) = with_irqs_disabled(masked_entry, |m: Cpu| {
        let rogue = Cpu { irqs_on: true, softirq_pending: m.softirq_pending };
        (rogue, 0u8)
    });
    assert!(!after.irqs_on);
}

#[test]
fn nested_sections_restore_correctly() {
    let cpu = Cpu::new();
    let (after, inner_restored_masked) = with_irqs_disabled(cpu, |outer: Cpu| {
        let (inner_after, _unit) = with_irqs_disabled(outer, |inner: Cpu| {
            let still_masked = irqs_disabled(&inner);
            (inner, still_masked)
        });
        // The inner section restores the outer section's masked state.
        let restored_masked = irqs_disabled(&inner_after);
        (inner_after, restored_masked)
    });
    assert!(inner_restored_masked);
    assert!(after.irqs_on);
}

#[test]
fn raising_softirqs_sets_their_bits() {
    let mut cpu = Cpu::new();
    raise_softirq(&mut cpu, SoftirqSlot::NetRx);
    assert!(cpu.irqs_on);
    assert_eq!(cpu.softirq_pending, 1 << 3);
    raise_softirq(&mut cpu, SoftirqSlot::Timer);
    assert_eq!(cpu.softirq_pending, (1 << 3) | (1 << 1));
    // Raising a slot already pending changes nothing.
    raise_softirq(&mut cpu, SoftirqSlot::Timer);
    assert_eq!(cpu.softirq_pending, (1 << 3) | (1 << 1));
}

#[test]
fn raising_from_masked_context_keeps_interrupts_masked() {
    let mut cpu = Cpu { irqs_on: false, softirq_pending: 0 };
    raise_softirq_irqoff(&mut cpu, SoftirqSlot::Tasklet);
    assert!(!cpu.irqs_on);
    assert_eq!(cpu.softirq_pending, 1 << 6);
}

#[test]
fn softirq_slots_have_their_numbers() {
    assert_eq!(SoftirqSlot::Hi.raw(), 0);
    assert_eq!(SoftirqSlot::Timer.raw(), 1);
    assert_eq!(SoftirqSlot::NetTx.raw(), 2);
    assert_eq!(SoftirqSlot::NetRx.raw(), 3);
    assert_eq!(SoftirqSlot::Block.raw(), 4);
    assert_eq!(SoftirqSlot::IrqPoll.raw(), 5);
    assert_eq!(SoftirqSlot::Tasklet.raw(), 6);
    assert_eq!(SoftirqSlot::Sched.raw(), 7);
    assert_eq!(SoftirqSlot::HrTimer.raw(), 8);
    assert_eq!(SoftirqSlot::Rcu.raw(), 9);
}
