//! Handler traits and the tri-state delivery result.
//!
//! A handler binds a payload type to the two delivery stages.  Each
//! implementation states, in a spec function of the trait, what one
//! invocation of a stage does to its payload and what it returns; the
//! delivery paths propagate exactly that statement.

use vstd::prelude::*;

use crate::context::IrqContext;
use crate::context::ThreadContext;

verus! {

/// What a delivery stage reports back to the interrupt subsystem.
#[derive(Clone, Copy, Debug, PartialEq, Eq, Structural)]
pub enum IrqReturn {
    /// The interrupt was not from this device, or was left unhandled.
    NotMine,
    /// The interrupt was handled.
    Handled,
    /// Wake the handler thread: run the thread stage later.
    WakeThread,
}

impl IrqReturn {
    /// The numeric code each result is reported as.
    pub open spec fn spec_raw(self) -> u32 {
        match self {
            IrqReturn::NotMine => 0,
            IrqReturn::Handled => 1,
            IrqReturn::WakeThread => 2,
        }
    }

    /// The numeric code each result is reported as.
    pub fn raw(self) -> (r: u32)
        ensures
            r == self.spec_raw(),
    {
        match self {
            IrqReturn::NotMine => 0,
            IrqReturn::Handled => 1,
            IrqReturn::WakeThread => 2,
        }
    }
}

/// An interrupt handler: a payload type plus the hard-stage entry point,
/// which runs in hard interrupt context and must not block.
pub trait IrqHandler {
    /// The payload the handler works on.
    type Data;

    /// What one hard-stage invocation does: how the payload after the call
    /// relates to the payload before it, and what is returned.
    spec fn hard_spec(pre: Self::Data, post: Self::Data, r: IrqReturn) -> bool;

    /// The hard-stage entry point, invoked by the delivery path in hard
    /// interrupt context.
    fn handle_irq(data: &mut Self::Data, ctx: &IrqContext) -> (r: IrqReturn)
        ensures
            Self::hard_spec(*old(data), *final(data), r),
    ;
}

/// A threaded interrupt handler: adds a sleep-capable second stage, run
/// after the hard stage returns [`IrqReturn::WakeThread`].
pub trait ThreadedIrqHandler: IrqHandler {
    /// What one thread-stage invocation does to the payload and returns.
    spec fn thread_spec(pre: Self::Data, post: Self::Data, r: IrqReturn) -> bool;

    /// The thread-stage entry point, invoked in thread context, where
    /// blocking is allowed.
    fn handle_thread(data: &mut Self::Data, ctx: &ThreadContext) -> (r: IrqReturn)
        ensures
            Self::thread_spec(*old(data), *final(data), r),
    ;
}

/// A type that contains the payload of handler `T`; the index tells several
/// handlers within one type apart.
pub trait HasIrqHandler<T: IrqHandler, const ID: usize> {
    /// Borrow the payload of handler `T`.
    fn handler_data(&self) -> &T::Data;
}

/// A handler that counts its deliveries: each hard-stage invocation adds one
/// to the payload (saturating at the counter's top) and reports the
/// interrupt handled.
pub struct CountingHandler {
    marker: bool,
}

impl IrqHandler for CountingHandler {
    type Data = u64;

    open spec fn hard_spec(pre: u64, post: u64, r: IrqReturn) -> bool {
        &&& post == if pre < u64::MAX {
            (pre + 1) as u64
        } else {
            pre
        }
        &&& r == IrqReturn::Handled
    }

    fn handle_irq(data: &mut u64, ctx: &IrqContext) -> (r: IrqReturn) {
        if *data < u64::MAX {
            *data = *data + 1;
        }
        IrqReturn::Handled
    }
}

} // verus!
