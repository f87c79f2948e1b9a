//! The threaded registration variant: a hard stage plus a sleep-capable
//! thread stage.
//!
//! Per interrupt occurrence the hard stage runs first and returns one of
//! three results.  `NotMine` and `Handled` end the occurrence; `WakeThread`
//! schedules the thread stage, which the deferred-work driver then runs
//! exactly once, in thread context, serialized against other thread-stage
//! runs of the same registration.  The scheduled-or-idle state is explicit
//! here, so both halves of that bargain are stated and proved.

use vstd::prelude::*;

use crate::context::IrqContext;
use crate::context::ThreadContext;
use crate::flags::IrqFlags;
use crate::handler::IrqReturn;
use crate::handler::ThreadedIrqHandler;
use crate::subsystem::HwSubsystem;
use crate::subsystem::IrqError;
use crate::subsystem::SubsystemModel;

verus! {

/// Whether the thread stage still owes a run for an earlier `WakeThread`.
pub open spec fn pending_after_hard(pending: bool, ret: IrqReturn) -> bool {
    pending || ret == IrqReturn::WakeThread
}

/// Whether a call of the thread-stage trampoline runs the handler: exactly
/// when a run is owed.
pub open spec fn thread_run_happens(pending: bool) -> bool {
    pending
}

/// What the thread-stage trampoline leaves owed: nothing, whether it ran the
/// handler or found nothing to run.
pub open spec fn pending_after_thread_run(pending: bool) -> bool {
    false
}

/// A hard stage that returns `NotMine` or `Handled` never schedules the
/// thread stage, and one that returns `WakeThread` always does.
pub proof fn lemma_hard_stage_controls_thread(pending: bool, ret: IrqReturn)
    ensures
        ret != IrqReturn::WakeThread ==> pending_after_hard(pending, ret) == pending,
        ret == IrqReturn::WakeThread ==> pending_after_hard(pending, ret),
{
}

/// One `WakeThread` is answered by exactly one thread-stage run: the first
/// trampoline call after it finds the debt and runs the handler, and a
/// second call, with no new `WakeThread` in between, finds nothing to run.
pub proof fn lemma_thread_stage_runs_exactly_once(ret: IrqReturn)
    requires
        ret == IrqReturn::WakeThread,
    ensures
        thread_run_happens(pending_after_hard(false, ret)),
        !thread_run_happens(pending_after_thread_run(pending_after_hard(false, ret))),
{
}

/// An active binding of a hardware line to a two-stage handler of type `T`.
/// Beyond the plain registration it tracks whether a thread-stage run is
/// owed.
pub struct ThreadedIrqRegistration<T: ThreadedIrqHandler> {
    irq: u32,
    handler_data: T::Data,
    token: u64,
    registered: bool,
    thread_pending: bool,
}

impl<T: ThreadedIrqHandler> ThreadedIrqRegistration<T> {
    /// The hardware line this registration is bound to.
    pub closed spec fn spec_irq(self) -> u32 {
        self.irq
    }

    /// The correlation token the controller issued for this binding.
    pub closed spec fn spec_token(self) -> u64 {
        self.token
    }

    /// Whether this object still holds the binding.
    pub closed spec fn is_registered(self) -> bool {
        self.registered
    }

    /// The handler payload this registration owns.
    pub closed spec fn spec_data(self) -> T::Data {
        self.handler_data
    }

    /// Whether a thread-stage run is owed for an earlier `WakeThread`.
    pub closed spec fn spec_thread_pending(self) -> bool {
        self.thread_pending
    }

    /// Whether a delivery with `token` reaches the hard stage: the token
    /// must be the one published for this object, and the binding must still
    /// be in force on both sides.
    pub open spec fn serviced_by(self, subsys: SubsystemModel, token: u64) -> bool {
        token == self.spec_token() && self.is_registered() && subsys.registered(token)
    }

    /// Request a binding of `irq` to a two-stage handler of type `T`.  Both
    /// stages are registered together; on success the returned registration
    /// holds the published token and owes no thread run, on refusal the
    /// controller is unchanged and the error says why.
    pub fn request(
        subsys: &mut HwSubsystem,
        irq: u32,
        handler_data: T::Data,
        flags: IrqFlags,
        name: &str,
    ) -> (r: Result<Self, IrqError>)
        requires
            old(subsys)@.wf(),
            old(subsys)@.slots.len() < usize::MAX,
        ensures
            final(subsys)@.wf(),
            r is Ok <==> old(subsys)@.reg_ok(irq, flags.spec_raw()),
            (r matches Ok(reg) ==> {
                &&& final(subsys)@ == old(subsys)@.do_register(irq, flags.spec_raw())
                &&& reg.spec_irq() == irq
                &&& reg.spec_token() == old(subsys)@.slots.len() + 1
                &&& reg.is_registered()
                &&& !reg.spec_thread_pending()
                &&& reg.spec_data() == handler_data
                &&& final(subsys)@.registered(reg.spec_token())
                &&& final(subsys)@.line_of(reg.spec_token()) == irq
                &&& final(subsys)@.flags_of(reg.spec_token()) == flags.spec_raw()
            }),
            (r matches Err(e) ==> {
                &&& final(subsys)@ == old(subsys)@
                &&& e == old(subsys)@.reg_err(irq, flags.spec_raw())
            }),
    {
        match subsys.register(irq, flags) {
            Ok(token) => Ok(
                ThreadedIrqRegistration {
                    irq,
                    handler_data,
                    token,
                    registered: true,
                    thread_pending: false,
                },
            ),
            Err(e) => Err(e),
        }
    }

    /// Tear the binding down.  Only the first call reaches the controller,
    /// and teardown also cancels any owed thread run: no stage of this
    /// registration runs once `unregister` has returned.
    pub fn unregister(&mut self, subsys: &mut HwSubsystem)
        requires
            old(subsys)@.wf(),
        ensures
            final(subsys)@.wf(),
            !final(self).is_registered(),
            !final(self).spec_thread_pending(),
            final(self).spec_irq() == old(self).spec_irq(),
            final(self).spec_token() == old(self).spec_token(),
            final(self).spec_data() == old(self).spec_data(),
            old(self).is_registered() ==> final(subsys)@ == old(subsys)@.do_unregister(
                old(self).spec_token(),
            ),
            !old(self).is_registered() ==> final(subsys)@ == old(subsys)@,
    {
        if self.registered {
            subsys.unregister(self.token);
            self.registered = false;
        }
        self.thread_pending = false;
    }

    /// Disable the line, nesting with earlier disables.
    pub fn disable(&self, subsys: &mut HwSubsystem)
        requires
            old(subsys)@.wf(),
        ensures
            final(subsys)@ == old(subsys)@.do_disable(self.spec_irq()),
            final(subsys)@.wf(),
    {
        subsys.disable(self.irq);
    }

    /// Enable the line, undoing one earlier disable.
    pub fn enable(&self, subsys: &mut HwSubsystem)
        requires
            old(subsys)@.wf(),
        ensures
            final(subsys)@ == old(subsys)@.do_enable(self.spec_irq()),
            final(subsys)@.wf(),
    {
        subsys.enable(self.irq);
    }

    /// Disable the line without waiting for a running handler to finish; in
    /// this sequential model the controller effect equals `disable`.
    pub fn disable_nosync(&self, subsys: &mut HwSubsystem)
        requires
            old(subsys)@.wf(),
        ensures
            final(subsys)@ == old(subsys)@.do_disable(self.spec_irq()),
            final(subsys)@.wf(),
    {
        subsys.disable(self.irq);
    }

    /// The hardware line number.
    pub fn irq(&self) -> (r: u32)
        ensures
            r == self.spec_irq(),
    {
        self.irq
    }

    /// The published correlation token.
    pub fn token(&self) -> (r: u64)
        ensures
            r == self.spec_token(),
    {
        self.token
    }

    /// Whether a thread-stage run is owed.
    pub fn thread_pending(&self) -> (r: bool)
        ensures
            r == self.spec_thread_pending(),
    {
        self.thread_pending
    }

    /// Borrow the handler payload, as another holder of the shared data
    /// would.
    pub fn handler_data(&self) -> (r: &T::Data)
        ensures
            *r == self.spec_data(),
    {
        &self.handler_data
    }

    /// Borrow the handler payload for writing, as another holder of the
    /// shared data would — a revocation latch, for one, is flipped this way.
    /// The line, token, binding state and owed thread run stay as they are.
    pub fn handler_data_mut(&mut self) -> (r: &mut T::Data)
        ensures
            *r == old(self).spec_data(),
            final(self).spec_data() == *final(r),
            final(self).spec_irq() == old(self).spec_irq(),
            final(self).spec_token() == old(self).spec_token(),
            final(self).is_registered() == old(self).is_registered(),
            final(self).spec_thread_pending() == old(self).spec_thread_pending(),
    {
        &mut self.handler_data
    }

    /// The hard-stage trampoline.  When the token resolves to this object
    /// and the binding is in force, the hard stage runs and a `WakeThread`
    /// result — and only that result — leaves a thread run owed; any other
    /// call is inert and reports the interrupt as not mine.  The token, line
    /// and binding state never change here.
    pub fn irq_handler_callback(&mut self, subsys: &HwSubsystem, raw_line: u32, token: u64) -> (r:
        u32)
        ensures
            final(self).spec_irq() == old(self).spec_irq(),
            final(self).spec_token() == old(self).spec_token(),
            final(self).is_registered() == old(self).is_registered(),
            !old(self).serviced_by(subsys@, token) ==> {
                &&& final(self).spec_data() == old(self).spec_data()
                &&& final(self).spec_thread_pending() == old(self).spec_thread_pending()
                &&& r == IrqReturn::NotMine.spec_raw()
            },
            old(self).serviced_by(subsys@, token) ==> (exists|ret: IrqReturn|
                {
                    &&& #[trigger] T::hard_spec(old(self).spec_data(), final(self).spec_data(), ret)
                    &&& r == ret.spec_raw()
                    &&& final(self).spec_thread_pending() == pending_after_hard(
                        old(self).spec_thread_pending(),
                        ret,
                    )
                }),
    {
        if token == self.token && self.registered && subsys.is_registered(token) {
            let ctx = IrqContext::new();
            let ret = T::handle_irq(&mut self.handler_data, &ctx);
            if ret.raw() == IrqReturn::WakeThread.raw() {
                self.thread_pending = true;
            }
            proof {
                assert(T::hard_spec(old(self).spec_data(), self.spec_data(), ret));
            }
            ret.raw()
        } else {
            IrqReturn::NotMine.raw()
        }
    }

    /// The thread-stage trampoline, driven by the deferred-work scheduler.
    /// It runs the thread stage exactly when a run is owed, clears the debt,
    /// and reports the stage's result; with no run owed it does nothing and
    /// returns nothing.  Teardown cancels the debt, so after `unregister`
    /// this never runs the handler.
    pub fn irq_thread_callback(&mut self) -> (r: Option<u32>)
        ensures
            final(self).spec_irq() == old(self).spec_irq(),
            final(self).spec_token() == old(self).spec_token(),
            final(self).is_registered() == old(self).is_registered(),
            !final(self).spec_thread_pending(),
            !old(self).spec_thread_pending() ==> {
                &&& r is None
                &&& final(self).spec_data() == old(self).spec_data()
            },
            old(self).spec_thread_pending() ==> (exists|ret: IrqReturn|
                {
                    &&& #[trigger] T::thread_spec(
                        old(self).spec_data(),
                        final(self).spec_data(),
                        ret,
                    )
                    &&& r == Some(ret.spec_raw())
                }),
    {
        if self.thread_pending {
            self.thread_pending = false;
            let ctx = ThreadContext::new();
            let ret = T::handle_thread(&mut self.handler_data, &ctx);
            proof {
                assert(T::thread_spec(old(self).spec_data(), self.spec_data(), ret));
            }
            Some(ret.raw())
        } else {
            None
        }
    }
}

/// After teardown — of the object or of the controller binding — no delivery
/// is serviced any more: the hard trampoline leaves the payload and the owed
/// thread run alone and reports the interrupt as not mine.
pub proof fn lemma_no_threaded_service_after_teardown<T: ThreadedIrqHandler>(
    reg: ThreadedIrqRegistration<T>,
    m: SubsystemModel,
    token: u64,
)
    requires
        !reg.is_registered() || !m.registered(token),
    ensures
        !reg.serviced_by(m, token),
{
}

} // verus!
