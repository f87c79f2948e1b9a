//! Execution-context markers.
//!
//! The two marker types discriminate, at compile time, the non-blocking hard
//! interrupt path from the sleep-capable thread path: an operation that may
//! block asks for a [`ThreadContext`], which the hard stage cannot supply.
//! Only the delivery paths of this crate create the markers.

use vstd::prelude::*;

verus! {

/// Marker for hard interrupt context, where blocking is forbidden.
pub struct IrqContext {
    no_block: bool,
}

impl IrqContext {
    /// Creates the hard-context marker; only delivery paths do this.
    pub(crate) fn new() -> (r: Self) {
        IrqContext { no_block: true }
    }
}

/// Marker for the deferred thread context, where blocking is allowed.
pub struct ThreadContext {
    may_block: bool,
}

impl ThreadContext {
    /// Creates the thread-context marker; only the thread stage does this.
    pub(crate) fn new() -> (r: Self) {
        ThreadContext { may_block: true }
    }
}

} // verus!
