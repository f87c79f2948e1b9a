//! The revocation latch around shared handler data.
//!
//! A revocable cell holds a value behind a liveness flag that flips, at most
//! once, from live to revoked.  Access goes through a guard: a guard is
//! granted exactly while the cell is live, and a guard already granted keeps
//! reading the value even across a later revocation — the value itself stays
//! in place until the cell is dropped.  Revocation is idempotent: only the
//! first call changes anything.  The latch does not wait for outstanding
//! guards to be released; a caller that needs full quiescence after revoking
//! must synchronize that itself.

use vstd::prelude::*;

use crate::context::IrqContext;
use crate::context::ThreadContext;
use crate::handler::IrqHandler;
use crate::handler::IrqReturn;
use crate::handler::ThreadedIrqHandler;
use core::marker::PhantomData;

verus! {

/// A value behind a liveness flag that flips at most once, from live to
/// revoked.
pub struct Revocable<T> {
    live: bool,
    value: T,
}

/// A grant of read access to a revocable cell, issued only while the cell is
/// live.  The guard keeps its grant across a later revocation.
pub struct RevocableGuard {
    granted: bool,
}

impl<T> Revocable<T> {
    /// Whether the cell is still live: no revocation has happened yet.
    pub closed spec fn spec_live(self) -> bool {
        self.live
    }

    /// The value the cell holds.
    pub closed spec fn spec_value(self) -> T {
        self.value
    }

    /// The state a revocation leaves behind: the same value, no longer live.
    pub closed spec fn revoked_state(self) -> Revocable<T> {
        Revocable { live: false, value: self.value }
    }

    /// A fresh cell: live, holding `value`.
    pub fn new(value: T) -> (r: Self)
        ensures
            r.spec_live(),
            r.spec_value() == value,
    {
        Revocable { live: true, value }
    }

    /// Ask for read access.  A guard comes back exactly when the cell is
    /// still live; after a revocation the answer is uniformly `None`, never
    /// stale data.
    pub fn try_access(&self) -> (g: Option<RevocableGuard>)
        ensures
            g is Some <==> self.spec_live(),
    {
        if self.live {
            Some(RevocableGuard { granted: true })
        } else {
            None
        }
    }

    /// Read the value through a guard.  The grant outlives revocation: the
    /// value stays in place for as long as the cell exists, so a guard
    /// acquired before a revocation still reads it afterwards.
    pub fn access<'a>(&'a self, g: &RevocableGuard) -> (r: &'a T)
        ensures
            *r == self.spec_value(),
    {
        &self.value
    }

    /// Revoke the cell: from now on no new guard is granted.  The value is
    /// kept for guards already out, and revoking again changes nothing.
    pub fn revoke(&mut self)
        ensures
            *final(self) == old(self).revoked_state(),
            !final(self).spec_live(),
            final(self).spec_value() == old(self).spec_value(),
    {
        self.live = false;
    }

    /// Whether the cell is still live.
    pub fn is_live(&self) -> (r: bool)
        ensures
            r == self.spec_live(),
    {
        self.live
    }
}

/// Revoking N times has the observable effect of revoking once: the first
/// revocation already leaves the state that every later one maps to itself.
pub proof fn lemma_revoke_idempotent<T>(c: Revocable<T>)
    ensures
        c.revoked_state().revoked_state() == c.revoked_state(),
        !c.revoked_state().spec_live(),
        c.revoked_state().spec_value() == c.spec_value(),
{
}

/// Access is governed by revocation alone: a live cell grants a guard, a
/// revoked cell refuses one, and no transition of the cell ever grants
/// access again after a revocation.
pub proof fn lemma_access_follows_liveness<T>(c: Revocable<T>)
    ensures
        !c.revoked_state().spec_live(),
        c.spec_live() ==> c != c.revoked_state(),
{
}

/// Handler data behind a revocation latch, as the delivery paths consume it.
pub struct RevocableIrqData<T> {
    inner: Revocable<T>,
}

impl<T> RevocableIrqData<T> {
    /// The cell this wrapper holds.
    pub closed spec fn spec_inner(self) -> Revocable<T> {
        self.inner
    }

    /// A fresh latch around `value`, still live.
    pub fn new(value: T) -> (r: Self)
        ensures
            r.spec_inner().spec_live(),
            r.spec_inner().spec_value() == value,
    {
        RevocableIrqData { inner: Revocable::new(value) }
    }

    /// Borrow the shared cell itself.
    pub fn arc(&self) -> (r: &Revocable<T>)
        ensures
            *r == self.spec_inner(),
    {
        &self.inner
    }

    /// Revoke access to the data; idempotent, value kept for guards already
    /// out.
    pub fn revoke(&mut self)
        ensures
            final(self).spec_inner() == old(self).spec_inner().revoked_state(),
            !final(self).spec_inner().spec_live(),
            final(self).spec_inner().spec_value() == old(self).spec_inner().spec_value(),
    {
        self.inner.revoke();
    }

    /// Try to access the inner data: a guard exactly while the latch is live.
    pub fn try_access(&self) -> (g: Option<RevocableGuard>)
        ensures
            g is Some <==> self.spec_inner().spec_live(),
    {
        self.inner.try_access()
    }

    /// Read the value through a guard granted earlier.
    pub fn access<'a>(&'a self, g: &RevocableGuard) -> (r: &'a T)
        ensures
            *r == self.spec_inner().spec_value(),
    {
        self.inner.access(g)
    }
}

impl<T> From<Revocable<T>> for RevocableIrqData<T> {
    /// Wrap an existing cell behind the latch interface.
    fn from(inner: Revocable<T>) -> (r: RevocableIrqData<T>)
        ensures
            r.spec_inner() == inner,
    {
        RevocableIrqData { inner }
    }
}

impl<T> vstd::std_specs::convert::FromSpecImpl<Revocable<T>> for RevocableIrqData<T> {
    closed spec fn obeys_from_spec() -> bool {
        true
    }

    closed spec fn from_spec(inner: Revocable<T>) -> RevocableIrqData<T> {
        RevocableIrqData { inner }
    }
}

/// A hard-stage handler whose payload sits behind a revocation latch: a
/// delivery reports `Handled` while the latch is live and `NotMine` once it
/// is revoked, and never touches the payload.
pub struct RevocableHandler<T> {
    marker: PhantomData<T>,
}

impl<T> IrqHandler for RevocableHandler<T> {
    type Data = RevocableIrqData<T>;

    open spec fn hard_spec(
        pre: RevocableIrqData<T>,
        post: RevocableIrqData<T>,
        r: IrqReturn,
    ) -> bool {
        &&& post == pre
        &&& r == if pre.spec_inner().spec_live() {
            IrqReturn::Handled
        } else {
            IrqReturn::NotMine
        }
    }

    fn handle_irq(data: &mut RevocableIrqData<T>, ctx: &IrqContext) -> (r: IrqReturn) {
        match data.try_access() {
            Some(guard) => IrqReturn::Handled,
            None => IrqReturn::NotMine,
        }
    }
}

/// A two-stage handler whose payload sits behind a revocation latch: the hard
/// stage asks for the thread stage only while access currently succeeds, and
/// the thread stage checks again, since the latch may be revoked between the
/// stages.  A revoked latch uniformly reports `NotMine`.
pub struct RevocableThreadedHandler<T> {
    marker: PhantomData<T>,
}

impl<T> IrqHandler for RevocableThreadedHandler<T> {
    type Data = RevocableIrqData<T>;

    open spec fn hard_spec(
        pre: RevocableIrqData<T>,
        post: RevocableIrqData<T>,
        r: IrqReturn,
    ) -> bool {
        &&& post == pre
        &&& r == if pre.spec_inner().spec_live() {
            IrqReturn::WakeThread
        } else {
            IrqReturn::NotMine
        }
    }

    fn handle_irq(data: &mut RevocableIrqData<T>, ctx: &IrqContext) -> (r: IrqReturn) {
        match data.try_access() {
            Some(guard) => IrqReturn::WakeThread,
            None => IrqReturn::NotMine,
        }
    }
}

impl<T> ThreadedIrqHandler for RevocableThreadedHandler<T> {
    open spec fn thread_spec(
        pre: RevocableIrqData<T>,
        post: RevocableIrqData<T>,
        r: IrqReturn,
    ) -> bool {
        &&& post == pre
        &&& r == if pre.spec_inner().spec_live() {
            IrqReturn::Handled
        } else {
            IrqReturn::NotMine
        }
    }

    fn handle_thread(data: &mut RevocableIrqData<T>, ctx: &ThreadContext) -> (r: IrqReturn) {
        match data.try_access() {
            Some(guard) => IrqReturn::Handled,
            None => IrqReturn::NotMine,
        }
    }
}

} // verus!
