//! Typed registration flags over a raw bitmask.

use vstd::prelude::*;

verus! {

/// Raw bit allowing the line to be shared among several devices.
pub const IRQF_SHARED: u64 = 0x80;

/// Raw bit keeping the line masked until the thread stage has finished.
pub const IRQF_ONESHOT: u64 = 0x2000;

/// Raw bit marking a line that must not be threaded.
pub const IRQF_NO_THREAD: u64 = 0x10000;

/// Flags handed to the interrupt subsystem when a line is requested.
#[derive(Clone, Copy, Debug, PartialEq, Eq, Structural)]
pub struct IrqFlags {
    bits: u64,
}

impl IrqFlags {
    /// The raw bitmask this flag set stands for.
    pub closed spec fn spec_raw(self) -> u64 {
        self.bits
    }

    /// Whether the shared bit is set.
    pub open spec fn spec_is_shared(self) -> bool {
        self.spec_raw() & IRQF_SHARED != 0
    }

    /// The empty flag set.
    pub fn none() -> (r: Self)
        ensures
            r.spec_raw() == 0,
    {
        IrqFlags { bits: 0 }
    }

    /// Add the shared bit.
    pub fn shared(self) -> (r: Self)
        ensures
            r.spec_raw() == self.spec_raw() | IRQF_SHARED,
    {
        IrqFlags { bits: self.bits | IRQF_SHARED }
    }

    /// Add the oneshot bit.
    pub fn oneshot(self) -> (r: Self)
        ensures
            r.spec_raw() == self.spec_raw() | IRQF_ONESHOT,
    {
        IrqFlags { bits: self.bits | IRQF_ONESHOT }
    }

    /// Add the no-thread bit.
    pub fn no_thread(self) -> (r: Self)
        ensures
            r.spec_raw() == self.spec_raw() | IRQF_NO_THREAD,
    {
        IrqFlags { bits: self.bits | IRQF_NO_THREAD }
    }

    /// Combine two flag sets.
    pub fn or(self, rhs: Self) -> (r: Self)
        ensures
            r.spec_raw() == self.spec_raw() | rhs.spec_raw(),
    {
        IrqFlags { bits: self.bits | rhs.bits }
    }

    /// The raw bitmask value.
    pub fn raw(self) -> (r: u64)
        ensures
            r == self.spec_raw(),
    {
        self.bits
    }

    /// Whether the line may be shared.
    pub fn is_shared(self) -> (r: bool)
        ensures
            r == self.spec_is_shared(),
    {
        self.bits & IRQF_SHARED != 0
    }
}

} // verus!
