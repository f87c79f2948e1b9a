//! Process-local interrupt masking and softirq raising.
//!
//! The state of one execution unit — whether its interrupts are enabled, and
//! which softirq slots are pending — is carried as an explicit value, so a
//! bounded critical section can be stated exactly: `with_irqs_disabled` runs
//! its body with interrupts masked and restores the saved enable state
//! whatever the body did or returned, which also makes nesting restore
//! correctly, since every call saves its own flag.

use vstd::prelude::*;

verus! {

/// The softirq slots a unit can raise.
#[derive(Clone, Copy, Debug, PartialEq, Eq, Structural)]
pub enum SoftirqSlot {
    /// High priority softirq.
    Hi,
    /// Timer softirq.
    Timer,
    /// Network transmit softirq.
    NetTx,
    /// Network receive softirq.
    NetRx,
    /// Block layer softirq.
    Block,
    /// Interrupt poll softirq.
    IrqPoll,
    /// Tasklet softirq.
    Tasklet,
    /// Scheduler softirq.
    Sched,
    /// High resolution timer softirq.
    HrTimer,
    /// Read-copy-update softirq.
    Rcu,
}

impl SoftirqSlot {
    /// The slot's number, its bit position in the pending mask.
    pub open spec fn spec_raw(self) -> u32 {
        match self {
            SoftirqSlot::Hi => 0,
            SoftirqSlot::Timer => 1,
            SoftirqSlot::NetTx => 2,
            SoftirqSlot::NetRx => 3,
            SoftirqSlot::Block => 4,
            SoftirqSlot::IrqPoll => 5,
            SoftirqSlot::Tasklet => 6,
            SoftirqSlot::Sched => 7,
            SoftirqSlot::HrTimer => 8,
            SoftirqSlot::Rcu => 9,
        }
    }

    /// The slot's number, its bit position in the pending mask.
    pub fn raw(self) -> (r: u32)
        ensures
            r == self.spec_raw(),
            r <= 9,
    {
        match self {
            SoftirqSlot::Hi => 0,
            SoftirqSlot::Timer => 1,
            SoftirqSlot::NetTx => 2,
            SoftirqSlot::NetRx => 3,
            SoftirqSlot::Block => 4,
            SoftirqSlot::IrqPoll => 5,
            SoftirqSlot::Tasklet => 6,
            SoftirqSlot::Sched => 7,
            SoftirqSlot::HrTimer => 8,
            SoftirqSlot::Rcu => 9,
        }
    }
}

/// The interrupt state of one execution unit: whether interrupts are
/// enabled, and the mask of pending softirq slots.
#[derive(Clone, Copy, Debug, PartialEq, Eq, Structural)]
pub struct Cpu {
    /// Whether interrupts are enabled on this unit.
    pub irqs_on: bool,
    /// One bit per softirq slot raised and not yet run.
    pub softirq_pending: u32,
}

impl Cpu {
    /// A fresh unit: interrupts enabled, no softirq pending.
    pub fn new() -> (r: Cpu)
        ensures
            r.irqs_on,
            r.softirq_pending == 0,
    {
        Cpu { irqs_on: true, softirq_pending: 0 }
    }
}

/// Whether interrupts are currently disabled on the unit.
pub fn irqs_disabled(cpu: &Cpu) -> (r: bool)
    ensures
        r == !cpu.irqs_on,
{
    !cpu.irqs_on
}

/// The unit's state on entry to a critical section: the same pending mask,
/// interrupts masked.
pub open spec fn masked_state(cpu: Cpu) -> Cpu {
    Cpu { irqs_on: false, softirq_pending: cpu.softirq_pending }
}

/// What leaving a critical section guarantees: the unit `out` and the value
/// `res` come from one run of `body` on the masked entry state, with only
/// the enable flag put back afterwards.
pub open spec fn section_post<R, F: FnOnce(Cpu) -> (Cpu, R)>(
    body: F,
    cpu: Cpu,
    out: Cpu,
    res: R,
) -> bool {
    exists|mid: Cpu|
        {
            &&& #[trigger] call_ensures(body, (masked_state(cpu),), (mid, res))
            &&& out.softirq_pending == mid.softirq_pending
        }
}

/// Run `body` with interrupts disabled on the unit, then restore the
/// enable state saved on entry — whatever `body` did to the unit and
/// whatever it returned, an error included.  Each call saves its own flag,
/// so nested critical sections restore correctly.
pub fn with_irqs_disabled<R, F: FnOnce(Cpu) -> (Cpu, R)>(cpu: Cpu, body: F) -> (r: (Cpu, R))
    requires
        call_requires(body, (masked_state(cpu),)),
    ensures
        r.0.irqs_on == cpu.irqs_on,
        section_post(body, cpu, r.0, r.1),
{
    let saved = cpu.irqs_on;
    let masked = Cpu { irqs_on: false, softirq_pending: cpu.softirq_pending };
    let (after, result) = body(masked);
    let ghost mid = after;
    let restored = Cpu { irqs_on: saved, softirq_pending: after.softirq_pending };
    proof {
        assert(call_ensures(body, (masked_state(cpu),), (mid, result)));
        assert(section_post(body, cpu, restored, result));
    }
    (restored, result)
}

/// Mark a softirq slot pending on a unit whose interrupts are already
/// disabled; the interrupt state is left as it was.
pub fn raise_softirq_irqoff(cpu: &mut Cpu, slot: SoftirqSlot)
    requires
        !old(cpu).irqs_on,
    ensures
        final(cpu).irqs_on == old(cpu).irqs_on,
        final(cpu).softirq_pending == old(cpu).softirq_pending | (1u32 << slot.spec_raw()),
{
    let bit: u32 = 1u32 << slot.raw();
    cpu.softirq_pending = cpu.softirq_pending | bit;
}

/// Mark a softirq slot pending: mask interrupts, raise the slot, restore
/// the saved state.  The unit comes back with the same enable state and the
/// slot's bit set; when it runs, and on which unit, is the scheduler's
/// affair.
pub fn raise_softirq(cpu: &mut Cpu, slot: SoftirqSlot)
    ensures
        final(cpu).irqs_on == old(cpu).irqs_on,
        final(cpu).softirq_pending == old(cpu).softirq_pending | (1u32 << slot.spec_raw()),
{
    let entry = Cpu { irqs_on: cpu.irqs_on, softirq_pending: cpu.softirq_pending };
    let body = |m: Cpu| -> (res: (Cpu, bool))
        requires
            !m.irqs_on,
        ensures
            res.0.softirq_pending == m.softirq_pending | (1u32 << slot.spec_raw()),
        {
            let mut inside = m;
            raise_softirq_irqoff(&mut inside, slot);
            (inside, true)
        };
    let (left, _done) = with_irqs_disabled(entry, body);
    cpu.irqs_on = left.irqs_on;
    cpu.softirq_pending = left.softirq_pending;
}

} // verus!
