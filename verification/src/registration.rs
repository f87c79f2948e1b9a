//! The registration core: one binding between a hardware line and a handler.
//!
//! A registration is created in two phases: the object is built first, and
//! the correlation token — the stable identity the controller hands back on
//! every delivery — is published only once the controller has accepted the
//! binding.  A refused request returns a typed error and leaves no object
//! behind, so teardown can never run against a line that was never bound.
//! Teardown itself is guarded: only the first call reaches the controller.

use vstd::prelude::*;

use crate::context::IrqContext;
use crate::flags::IrqFlags;
use crate::handler::IrqHandler;
use crate::handler::IrqReturn;
use crate::subsystem::HwSubsystem;
use crate::subsystem::IrqError;
use crate::subsystem::SubsystemModel;

verus! {

/// An active binding between a hardware line and a handler of type `T`.  It
/// owns the handler payload and the correlation token the controller issued
/// for it.
pub struct IrqRegistration<T: IrqHandler> {
    irq: u32,
    handler_data: T::Data,
    token: u64,
    registered: bool,
}

impl<T: IrqHandler> IrqRegistration<T> {
    /// The hardware line this registration is bound to.
    pub closed spec fn spec_irq(self) -> u32 {
        self.irq
    }

    /// The correlation token the controller issued for this binding.
    pub closed spec fn spec_token(self) -> u64 {
        self.token
    }

    /// Whether this object still holds the binding: true from a successful
    /// request until the first teardown.
    pub closed spec fn is_registered(self) -> bool {
        self.registered
    }

    /// The handler payload this registration owns.
    pub closed spec fn spec_data(self) -> T::Data {
        self.handler_data
    }

    /// Whether a delivery with `token` reaches the handler: the token must
    /// be the one published for this object, the object must still hold the
    /// binding, and the controller must still have it in force.
    pub open spec fn serviced_by(self, subsys: SubsystemModel, token: u64) -> bool {
        token == self.spec_token() && self.is_registered() && subsys.registered(token)
    }

    /// Request a binding of `irq` to a handler of type `T` with payload
    /// `handler_data`.  On success the returned registration holds the
    /// published token; on refusal the controller is unchanged and the error
    /// says why, so the caller can degrade instead of aborting.
    pub fn request(
        subsys: &mut HwSubsystem,
        irq: u32,
        handler_data: T::Data,
        flags: IrqFlags,
        name: &str,
    ) -> (r: Result<Self, IrqError>)
        requires
            old(subsys)@.wf(),
            old(subsys)@.slots.len() < usize::MAX,
        ensures
            final(subsys)@.wf(),
            r is Ok <==> old(subsys)@.reg_ok(irq, flags.spec_raw()),
            (r matches Ok(reg) ==> {
                &&& final(subsys)@ == old(subsys)@.do_register(irq, flags.spec_raw())
                &&& reg.spec_irq() == irq
                &&& reg.spec_token() == old(subsys)@.slots.len() + 1
                &&& reg.is_registered()
                &&& reg.spec_data() == handler_data
                &&& final(subsys)@.registered(reg.spec_token())
                &&& final(subsys)@.line_of(reg.spec_token()) == irq
                &&& final(subsys)@.flags_of(reg.spec_token()) == flags.spec_raw()
            }),
            (r matches Err(e) ==> {
                &&& final(subsys)@ == old(subsys)@
                &&& e == old(subsys)@.reg_err(irq, flags.spec_raw())
            }),
    {
        match subsys.register(irq, flags) {
            Ok(token) => Ok(IrqRegistration { irq, handler_data, token, registered: true }),
            Err(e) => Err(e),
        }
    }

    /// Tear the binding down.  Only the first call reaches the controller;
    /// every later one changes nothing, so the controller sees exactly one
    /// unregistration over the object's lifetime.
    pub fn unregister(&mut self, subsys: &mut HwSubsystem)
        requires
            old(subsys)@.wf(),
        ensures
            final(subsys)@.wf(),
            !final(self).is_registered(),
            final(self).spec_irq() == old(self).spec_irq(),
            final(self).spec_token() == old(self).spec_token(),
            final(self).spec_data() == old(self).spec_data(),
            old(self).is_registered() ==> final(subsys)@ == old(subsys)@.do_unregister(
                old(self).spec_token(),
            ),
            !old(self).is_registered() ==> final(subsys)@ == old(subsys)@,
    {
        if self.registered {
            subsys.unregister(self.token);
            self.registered = false;
        }
    }

    /// Disable the line, nesting with earlier disables.
    pub fn disable(&self, subsys: &mut HwSubsystem)
        requires
            old(subsys)@.wf(),
        ensures
            final(subsys)@ == old(subsys)@.do_disable(self.spec_irq()),
            final(subsys)@.wf(),
    {
        subsys.disable(self.irq);
    }

    /// Enable the line, undoing one earlier disable.
    pub fn enable(&self, subsys: &mut HwSubsystem)
        requires
            old(subsys)@.wf(),
        ensures
            final(subsys)@ == old(subsys)@.do_enable(self.spec_irq()),
            final(subsys)@.wf(),
    {
        subsys.enable(self.irq);
    }

    /// Disable the line without waiting for a running handler to finish; in
    /// this sequential model the controller effect equals `disable`.
    pub fn disable_nosync(&self, subsys: &mut HwSubsystem)
        requires
            old(subsys)@.wf(),
        ensures
            final(subsys)@ == old(subsys)@.do_disable(self.spec_irq()),
            final(subsys)@.wf(),
    {
        subsys.disable(self.irq);
    }

    /// The hardware line number.
    pub fn irq(&self) -> (r: u32)
        ensures
            r == self.spec_irq(),
    {
        self.irq
    }

    /// The published correlation token.
    pub fn token(&self) -> (r: u64)
        ensures
            r == self.spec_token(),
    {
        self.token
    }

    /// Borrow the handler payload, as another holder of the shared data
    /// would.
    pub fn handler_data(&self) -> (r: &T::Data)
        ensures
            *r == self.spec_data(),
    {
        &self.handler_data
    }

    /// Borrow the handler payload for writing, as another holder of the
    /// shared data would — a revocation latch, for one, is flipped this way.
    /// The line, token and binding state stay as they are.
    pub fn handler_data_mut(&mut self) -> (r: &mut T::Data)
        ensures
            *r == old(self).spec_data(),
            final(self).spec_data() == *final(r),
            final(self).spec_irq() == old(self).spec_irq(),
            final(self).spec_token() == old(self).spec_token(),
            final(self).is_registered() == old(self).is_registered(),
    {
        &mut self.handler_data
    }

    /// The delivery trampoline: the controller calls back here with the raw
    /// line and the correlation token it holds.  The handler runs only when
    /// the token resolves to this object and the binding is still in force
    /// on both sides; any other call — in particular one made after teardown
    /// — leaves the payload untouched and reports the interrupt as not
    /// mine.  Whatever happens, the token, line and binding state of this
    /// object do not change.
    pub fn irq_handler_callback(&mut self, subsys: &HwSubsystem, raw_line: u32, token: u64) -> (r:
        u32)
        ensures
            final(self).spec_irq() == old(self).spec_irq(),
            final(self).spec_token() == old(self).spec_token(),
            final(self).is_registered() == old(self).is_registered(),
            !old(self).serviced_by(subsys@, token) ==> {
                &&& final(self).spec_data() == old(self).spec_data()
                &&& r == IrqReturn::NotMine.spec_raw()
            },
            old(self).serviced_by(subsys@, token) ==> (exists|ret: IrqReturn|
                #[trigger] T::hard_spec(old(self).spec_data(), final(self).spec_data(), ret)
                    && r == ret.spec_raw()),
    {
        if token == self.token && self.registered && subsys.is_registered(token) {
            let ctx = IrqContext::new();
            let ret = T::handle_irq(&mut self.handler_data, &ctx);
            proof {
                assert(T::hard_spec(old(self).spec_data(), self.spec_data(), ret));
            }
            ret.raw()
        } else {
            IrqReturn::NotMine.raw()
        }
    }
}

/// After teardown — of the object or of the controller binding — no delivery
/// is serviced any more: the trampoline leaves the payload alone and reports
/// the interrupt as not mine.
pub proof fn lemma_no_service_after_teardown<T: IrqHandler>(
    reg: IrqRegistration<T>,
    m: SubsystemModel,
    token: u64,
)
    requires
        !reg.is_registered() || !m.registered(token),
    ensures
        !reg.serviced_by(m, token),
{
}

} // verus!
